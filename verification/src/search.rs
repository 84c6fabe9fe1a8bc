//! Search assembly and recommendation post-processing.
//!
//! A search fans out into four concurrent category sub-calls; the caller
//! joins them and hands the four typed results here. A sub-result of the
//! wrong category is an unrecoverable contract violation of the remote
//! facade and fails the whole request.

use vstd::prelude::*;
use vstd::string::StringExecFns;
use crate::model::{Album, AppError, Artist, Playlist, SearchResults, SeedItem, Track};
use crate::model::clone_artists;

verus! {

/// The typed result of one search sub-call.
#[derive(Debug, PartialEq)]
pub enum SearchEvent {
    Tracks(Vec<Track>),
    Artists(Vec<Artist>),
    Albums(Vec<Album>),
    Playlists(Vec<Playlist>),
}

/// Assembles the four category sub-results of a search. The assembly
/// succeeds exactly when every sub-result is of its expected category, and
/// then carries each payload unchanged; any mismatch is
/// [`AppError::UnexpectedSearchResult`].
pub fn assemble_search_results(
    track_result: SearchEvent,
    artist_result: SearchEvent,
    album_result: SearchEvent,
    playlist_result: SearchEvent,
) -> (r: Result<SearchResults, AppError>)
    ensures
        r is Ok <==> (track_result is Tracks && artist_result is Artists && album_result is Albums
            && playlist_result is Playlists),
        r is Err ==> r->Err_0 == AppError::UnexpectedSearchResult,
        r is Ok ==> {
            &&& r->Ok_0.tracks == track_result->Tracks_0
            &&& r->Ok_0.artists == artist_result->Artists_0
            &&& r->Ok_0.albums == album_result->Albums_0
            &&& r->Ok_0.playlists == playlist_result->Playlists_0
        },
{
    match (track_result, artist_result, album_result, playlist_result) {
        (
            SearchEvent::Tracks(tracks),
            SearchEvent::Artists(artists),
            SearchEvent::Albums(albums),
            SearchEvent::Playlists(playlists),
        ) => Ok(SearchResults { tracks, artists, albums, playlists }),
        _ => Err(AppError::UnexpectedSearchResult),
    }
}

/// The artist ids of a track's artist list, in order.
pub open spec fn artist_ids(s: Seq<Artist>) -> Seq<String>
    decreases s.len(),
{
    if s.len() == 0 {
        Seq::empty()
    } else {
        artist_ids(s.drop_last()) + seq![s.last().id]
    }
}

/// The seeds a recommendation fetch sends: an artist seed sends that
/// artist; a track seed sends the track and its artists.
pub struct RecommendationSeeds {
    pub seed_artist_ids: Vec<String>,
    pub seed_track_ids: Vec<String>,
}

/// Collects the seed ids a recommendation fetch sends for a seed item.
pub fn recommendation_seeds(seed: &SeedItem) -> (r: RecommendationSeeds)
    ensures
        match seed {
            SeedItem::Artist(artist) => r.seed_artist_ids@ == seq![artist.id]
                && r.seed_track_ids@ == Seq::<String>::empty(),
            SeedItem::Track(track) => r.seed_artist_ids@ == artist_ids(track.artists@)
                && r.seed_track_ids@ == seq![track.id],
        },
{
    match seed {
        SeedItem::Artist(artist) => {
            let mut seed_artist_ids: Vec<String> = Vec::new();
            seed_artist_ids.push(artist.id.clone());
            let seed_track_ids: Vec<String> = Vec::new();
            proof {
                assert(seed_artist_ids@ =~= seq![artist.id]);
                assert(seed_track_ids@ =~= Seq::<String>::empty());
            }
            RecommendationSeeds { seed_artist_ids, seed_track_ids }
        },
        SeedItem::Track(track) => {
            let mut seed_artist_ids: Vec<String> = Vec::new();
            let n = track.artists.len();
            let mut i: usize = 0;
            while i < n
                invariant
                    i <= n,
                    n == track.artists@.len(),
                    seed_artist_ids@ == artist_ids(track.artists@.take(i as int)),
                decreases n - i,
            {
                proof {
                    assert(track.artists@.take(i as int + 1).drop_last() =~= track.artists@.take(
                        i as int,
                    ));
                    assert(track.artists@.take(i as int + 1).last() == track.artists@[i as int]);
                }
                seed_artist_ids.push(track.artists[i].id.clone());
                proof {
                    assert(seed_artist_ids@ =~= artist_ids(track.artists@.take(i as int + 1)));
                }
                i += 1;
            }
            proof {
                assert(track.artists@.take(n as int) =~= track.artists@);
            }
            let mut seed_track_ids: Vec<String> = Vec::new();
            seed_track_ids.push(track.id.clone());
            proof {
                assert(seed_track_ids@ =~= seq![track.id]);
            }
            RecommendationSeeds { seed_artist_ids, seed_track_ids }
        },
    }
}

/// Post-processes fetched recommendation tracks: for a track seed, the seed
/// track itself opens the list — with its album cleared, because the fetched
/// tracks arrive without albums and the list must be uniform — and the
/// fetched tracks follow unchanged; an artist seed's list is kept as it is.
pub fn recommendations(seed: &SeedItem, tracks: Vec<Track>) -> (r: Vec<Track>)
    ensures
        match seed {
            SeedItem::Artist(_) => r@ == tracks@,
            SeedItem::Track(track) => {
                &&& r@.len() == tracks@.len() + 1
                &&& r@[0].id == track.id
                &&& r@[0].name == track.name
                &&& r@[0].artists@ == track.artists@
                &&& r@[0].album is None
                &&& r@[0].duration_ms == track.duration_ms
                &&& r@.skip(1) == tracks@
            },
        },
{
    match seed {
        SeedItem::Artist(_) => tracks,
        SeedItem::Track(track) => {
            let seed_track = Track {
                id: track.id.clone(),
                name: track.name.clone(),
                artists: clone_artists(&track.artists),
                album: None,
                duration_ms: track.duration_ms,
            };
            let ghost t0 = tracks@;
            let mut tracks = tracks;
            tracks.insert(0, seed_track);
            proof {
                assert(tracks@.skip(1) =~= t0);
            }
            tracks
        },
    }
}

/// The fingerprint under which a recommendation result is cached.
pub fn recommendations_fingerprint(seed: &SeedItem) -> (r: String)
    ensures
        r@ == "recommendations::"@ + seed.uri_spec(),
{
    String::from_str("recommendations::").concat(seed.uri().as_str())
}

} // verus!
