//! Mutating library and playlist operations.
//!
//! A library add first checks remotely whether the item is already present
//! and issues the mutating call only when it is not; the in-memory user data
//! is mutated only after the remote call succeeded. Adding a track to a
//! playlist always removes all of its occurrences first, then evicts the
//! playlist's context cache entry wholesale; deleting a track instead
//! patches the cached track list in place.

use vstd::prelude::*;
use crate::cache::{cache_has, cache_idx, cache_put, cache_remove, lemma_cache_remove_absent};
use crate::model::{Album, Artist, Context, ContextId, Item, ItemId, Playlist, Track, UserInfo};
use crate::request::RemoteAction;
use crate::state::{AppData, UserData};
use crate::strkit::str_eq;

verus! {

/// The remote query that reports whether a library item is already present:
/// a saved/followed check per item kind. Following a playlist is checked
/// against the current user's id; with no user known there is nothing to
/// check and the whole operation is skipped.
pub open spec fn library_add_check_spec(item: Item, user: Option<UserInfo>) -> Option<
    RemoteAction,
> {
    match item {
        Item::Track(track) => Some(RemoteAction::CheckSavedTracks { track_id: track.id }),
        Item::Album(album) => Some(RemoteAction::CheckSavedAlbums { album_id: album.id }),
        Item::Artist(artist) => Some(RemoteAction::CheckFollowedArtists { artist_id: artist.id }),
        Item::Playlist(playlist) => match user {
            Some(u) => Some(
                RemoteAction::CheckFollowedPlaylist { playlist_id: playlist.id, user_id: u.id },
            ),
            None => None,
        },
    }
}

/// Plans the presence check that precedes a library add.
pub fn library_add_check(item: &Item, user: &Option<UserInfo>) -> (r: Option<RemoteAction>)
    ensures
        r == library_add_check_spec(*item, *user),
{
    match item {
        Item::Track(track) => Some(RemoteAction::CheckSavedTracks { track_id: track.id.clone() }),
        Item::Album(album) => Some(RemoteAction::CheckSavedAlbums { album_id: album.id.clone() }),
        Item::Artist(artist) => Some(
            RemoteAction::CheckFollowedArtists { artist_id: artist.id.clone() },
        ),
        Item::Playlist(playlist) => match user {
            Some(u) => Some(
                RemoteAction::CheckFollowedPlaylist {
                    playlist_id: playlist.id.clone(),
                    user_id: u.id.clone(),
                },
            ),
            None => None,
        },
    }
}

/// The remote call that adds a library item.
pub open spec fn library_add_action_spec(item: Item) -> RemoteAction {
    match item {
        Item::Track(track) => RemoteAction::SaveTrack { track_id: track.id },
        Item::Album(album) => RemoteAction::SaveAlbum { album_id: album.id },
        Item::Artist(artist) => RemoteAction::FollowArtist { artist_id: artist.id },
        Item::Playlist(playlist) => RemoteAction::FollowPlaylist { playlist_id: playlist.id },
    }
}

/// Decides, from the presence check's answer, whether a library add issues
/// its mutating remote call: exactly when the item is not already present.
/// An item the library already contains is never written again.
pub fn library_add_decide(item: &Item, contains: bool) -> (r: Option<RemoteAction>)
    ensures
        r is Some <==> !contains,
        !contains ==> r == Some(library_add_action_spec(*item)),
{
    if contains {
        None
    } else {
        match item {
            Item::Track(track) => Some(RemoteAction::SaveTrack { track_id: track.id.clone() }),
            Item::Album(album) => Some(RemoteAction::SaveAlbum { album_id: album.id.clone() }),
            Item::Artist(artist) => Some(
                RemoteAction::FollowArtist { artist_id: artist.id.clone() },
            ),
            Item::Playlist(playlist) => Some(
                RemoteAction::FollowPlaylist { playlist_id: playlist.id.clone() },
            ),
        }
    }
}

/// After the mutating add succeeded, records the item optimistically in the
/// in-memory user data: inserted at the front of its list; the other lists
/// and the user are untouched.
pub fn library_add_commit(user_data: &mut UserData, item: Item)
    ensures
        final(user_data).user == old(user_data).user,
        match item {
            Item::Track(track) => {
                &&& final(user_data).saved_tracks@ == seq![track] + old(user_data).saved_tracks@
                &&& final(user_data).saved_albums == old(user_data).saved_albums
                &&& final(user_data).followed_artists == old(user_data).followed_artists
                &&& final(user_data).playlists == old(user_data).playlists
            },
            Item::Album(album) => {
                &&& final(user_data).saved_albums@ == seq![album] + old(user_data).saved_albums@
                &&& final(user_data).saved_tracks == old(user_data).saved_tracks
                &&& final(user_data).followed_artists == old(user_data).followed_artists
                &&& final(user_data).playlists == old(user_data).playlists
            },
            Item::Artist(artist) => {
                &&& final(user_data).followed_artists@ == seq![artist] + old(
                    user_data).followed_artists@
                &&& final(user_data).saved_tracks == old(user_data).saved_tracks
                &&& final(user_data).saved_albums == old(user_data).saved_albums
                &&& final(user_data).playlists == old(user_data).playlists
            },
            Item::Playlist(playlist) => {
                &&& final(user_data).playlists@ == seq![playlist] + old(user_data).playlists@
                &&& final(user_data).saved_tracks == old(user_data).saved_tracks
                &&& final(user_data).saved_albums == old(user_data).saved_albums
                &&& final(user_data).followed_artists == old(user_data).followed_artists
            },
        },
{
    match item {
        Item::Track(track) => {
            let ghost t0 = user_data.saved_tracks@;
            let ghost tv = track;
            user_data.saved_tracks.insert(0, track);
            proof {
                assert(user_data.saved_tracks@ =~= seq![tv] + t0);
            }
        },
        Item::Album(album) => {
            let ghost a0 = user_data.saved_albums@;
            let ghost av = album;
            user_data.saved_albums.insert(0, album);
            proof {
                assert(user_data.saved_albums@ =~= seq![av] + a0);
            }
        },
        Item::Artist(artist) => {
            let ghost f0 = user_data.followed_artists@;
            let ghost fv = artist;
            user_data.followed_artists.insert(0, artist);
            proof {
                assert(user_data.followed_artists@ =~= seq![fv] + f0);
            }
        },
        Item::Playlist(playlist) => {
            let ghost p0 = user_data.playlists@;
            let ghost pv = playlist;
            user_data.playlists.insert(0, playlist);
            proof {
                assert(user_data.playlists@ =~= seq![pv] + p0);
            }
        },
    }
}

/// `s` without the tracks whose id is `id`, in order.
pub open spec fn tracks_without(s: Seq<Track>, id: Seq<char>) -> Seq<Track>
    decreases s.len(),
{
    if s.len() == 0 {
        Seq::empty()
    } else {
        tracks_without(s.drop_last(), id) + if s.last().id@ == id {
            Seq::empty()
        } else {
            seq![s.last()]
        }
    }
}

/// `s` without the albums whose id is `id`, in order.
pub open spec fn albums_without(s: Seq<Album>, id: Seq<char>) -> Seq<Album>
    decreases s.len(),
{
    if s.len() == 0 {
        Seq::empty()
    } else {
        albums_without(s.drop_last(), id) + if s.last().id@ == id {
            Seq::empty()
        } else {
            seq![s.last()]
        }
    }
}

/// `s` without the artists whose id is `id`, in order.
pub open spec fn artists_without(s: Seq<Artist>, id: Seq<char>) -> Seq<Artist>
    decreases s.len(),
{
    if s.len() == 0 {
        Seq::empty()
    } else {
        artists_without(s.drop_last(), id) + if s.last().id@ == id {
            Seq::empty()
        } else {
            seq![s.last()]
        }
    }
}

/// `s` without the playlists whose id is `id`, in order.
pub open spec fn playlists_without(s: Seq<Playlist>, id: Seq<char>) -> Seq<Playlist>
    decreases s.len(),
{
    if s.len() == 0 {
        Seq::empty()
    } else {
        playlists_without(s.drop_last(), id) + if s.last().id@ == id {
            Seq::empty()
        } else {
            seq![s.last()]
        }
    }
}

/// Removes, in place, every track whose id is `track_id`, keeping the order
/// of the rest.
pub fn retain_tracks_except(tracks: &mut Vec<Track>, track_id: &str)
    ensures
        final(tracks)@ == tracks_without(old(tracks)@, track_id@),
{
    let n = tracks.len();
    let ghost orig = tracks@;
    proof {
        assert(orig.len() == n);
    }
    let mut p: usize = 0;
    let mut i: usize = 0;
    while i < tracks.len()
        invariant
            p <= orig.len(),
            orig.len() <= usize::MAX,
            i == tracks_without(orig.take(p as int), track_id@).len(),
            tracks@ == tracks_without(orig.take(p as int), track_id@) + orig.skip(p as int),
        decreases orig.len() - p,
    {
        proof {
            assert(tracks@[i as int] == orig[p as int]);
            assert(orig.take(p as int + 1).drop_last() =~= orig.take(p as int));
            assert(orig.take(p as int + 1).last() == orig[p as int]);
        }
        if str_eq(tracks[i].id.as_str(), track_id) {
            tracks.remove(i);
            proof {
                assert(tracks@ =~= tracks_without(orig.take(p as int + 1), track_id@) + orig.skip(
                    p as int + 1,
                ));
            }
        } else {
            i += 1;
            proof {
                assert(tracks@ =~= tracks_without(orig.take(p as int + 1), track_id@) + orig.skip(
                    p as int + 1,
                ));
            }
        }
        p += 1;
    }
    proof {
        assert(orig.skip(p as int).len() == 0);
        assert(orig.take(p as int) =~= orig);
    }
}

/// The two remote calls of a playlist add, in order: first remove every
/// occurrence of the track (the remote service offers no idempotent add, and
/// the playlist must end up containing the track exactly once), then add it.
pub fn add_track_to_playlist_actions(playlist_id: &String, track_id: &String) -> (r: (
    RemoteAction,
    RemoteAction,
))
    ensures
        r.0 == (RemoteAction::PlaylistRemoveAllOccurrences {
            playlist_id: *playlist_id,
            track_id: *track_id,
        }),
        r.1 == (RemoteAction::PlaylistAddItem {
            playlist_id: *playlist_id,
            track_id: *track_id,
        }),
{
    (
        RemoteAction::PlaylistRemoveAllOccurrences {
            playlist_id: playlist_id.clone(),
            track_id: track_id.clone(),
        },
        RemoteAction::PlaylistAddItem {
            playlist_id: playlist_id.clone(),
            track_id: track_id.clone(),
        },
    )
}

/// After both calls of a playlist add succeeded, evicts the playlist's
/// context cache entry wholesale: the next read is forced to refetch. An add
/// changes ordering in ways the client does not reconstruct locally, so the
/// entry is not patched — afterwards the playlist's URI is absent from the
/// context cache.
pub fn add_track_to_playlist_commit(data: &mut AppData, playlist_id: &String)
    requires
        old(data).wf(),
    ensures
        final(data).wf(),
        final(data).caches.context@ == cache_remove(
            old(data).caches.context@,
            ContextId::Playlist(*playlist_id).uri_spec(),
        ),
        !cache_has(final(data).caches.context@, ContextId::Playlist(*playlist_id).uri_spec()),
        final(data).caches.context.cap() == old(data).caches.context.cap(),
        final(data).caches.search == old(data).caches.search,
        final(data).caches.tracks == old(data).caches.tracks,
        final(data).caches.lyrics == old(data).caches.lyrics,
        final(data).caches.images == old(data).caches.images,
        final(data).user_data == old(data).user_data,
        final(data).browse == old(data).browse,
{
    let uri = ContextId::Playlist(playlist_id.clone()).uri();
    data.caches.context.pop(uri.as_str());
    proof {
        lemma_cache_remove_absent(old(data).caches.context@, uri@);
    }
}

/// The patched cache entry after a single-track removal: a playlist context
/// loses every occurrence of the track; any other context is kept as it is.
pub open spec fn patched_context_spec(entry: Context, track_id: Seq<char>, patched: Context) -> bool {
    match entry {
        Context::Playlist { playlist, tracks } => match patched {
            Context::Playlist { playlist: p2, tracks: t2 } => p2 == playlist && t2@
                == tracks_without(tracks@, track_id),
            _ => false,
        },
        _ => patched == entry,
    }
}

/// After the remove-all-occurrences call of a track deletion succeeded,
/// patches the playlist's cached context in place: the track is filtered out
/// of the cached track list and the entry stays present (freshly bumped in
/// recency). A playlist that is not cached leaves the caches untouched.
pub fn delete_track_from_playlist_commit(data: &mut AppData, playlist_id: &String, track_id: &String)
    requires
        old(data).wf(),
    ensures
        final(data).wf(),
        !cache_has(old(data).caches.context@, ContextId::Playlist(*playlist_id).uri_spec())
            ==> final(data).caches.context == old(data).caches.context,
        cache_has(old(data).caches.context@, ContextId::Playlist(*playlist_id).uri_spec()) ==> {
            let uri = ContextId::Playlist(*playlist_id).uri_spec();
            let old_entry = old(data).caches.context@[cache_idx(old(data).caches.context@, uri)].1;
            &&& cache_has(final(data).caches.context@, uri)
            &&& final(data).caches.context@ == cache_put(
                old(data).caches.context@,
                old(data).caches.context.cap(),
                uri,
                final(data).caches.context@[0].1,
            )
            &&& patched_context_spec(old_entry, track_id@, final(data).caches.context@[0].1)
        },
        final(data).caches.context.cap() == old(data).caches.context.cap(),
        final(data).caches.search == old(data).caches.search,
        final(data).caches.tracks == old(data).caches.tracks,
        final(data).caches.lyrics == old(data).caches.lyrics,
        final(data).caches.images == old(data).caches.images,
        final(data).user_data == old(data).user_data,
        final(data).browse == old(data).browse,
{
    let uri = ContextId::Playlist(playlist_id.clone()).uri();
    let ghost u = uri@;
    if data.caches.context.contains(uri.as_str()) {
        let ghost orig = data.caches.context@;
        let ghost cap = data.caches.context.cap();
        match data.caches.context.pop(uri.as_str()) {
            None => {
                proof {
                    assert(false);
                }
            },
            Some(entry) => {
                let ghost popped = entry;
                let patched = match entry {
                    Context::Playlist { playlist, tracks } => {
                        let mut tracks = tracks;
                        retain_tracks_except(&mut tracks, track_id.as_str());
                        Context::Playlist { playlist, tracks }
                    },
                    other => other,
                };
                let ghost pv = patched;
                data.caches.context.put(uri, patched);
                proof {
                    lemma_cache_remove_absent(orig, u);
                    assert(cache_remove(cache_remove(orig, u), u) == cache_remove(orig, u));
                    assert(cache_remove(orig, u).len() < cap);
                    assert(data.caches.context@ =~= cache_put(orig, cap, u, pv));
                    assert(data.caches.context@[0].1 == pv);
                    assert(cache_has(data.caches.context@, u));
                    assert(patched_context_spec(popped, track_id@, pv));
                }
            },
        }
    }
}

/// The remote call that deletes a library item.
pub open spec fn library_delete_action_spec(id: ItemId) -> RemoteAction {
    match id {
        ItemId::Track(track_id) => RemoteAction::RemoveSavedTrack { track_id },
        ItemId::Album(album_id) => RemoteAction::RemoveSavedAlbum { album_id },
        ItemId::Artist(artist_id) => RemoteAction::UnfollowArtist { artist_id },
        ItemId::Playlist(playlist_id) => RemoteAction::UnfollowPlaylist { playlist_id },
    }
}

/// Plans the remote call that deletes a library item. Nothing is mutated
/// locally here: the in-memory user data changes only after the call
/// succeeded, through [`delete_from_library_commit`].
pub fn delete_from_library(id: &ItemId) -> (r: RemoteAction)
    ensures
        r == library_delete_action_spec(*id),
{
    match id {
        ItemId::Track(track_id) => RemoteAction::RemoveSavedTrack { track_id: track_id.clone() },
        ItemId::Album(album_id) => RemoteAction::RemoveSavedAlbum { album_id: album_id.clone() },
        ItemId::Artist(artist_id) => RemoteAction::UnfollowArtist {
            artist_id: artist_id.clone(),
        },
        ItemId::Playlist(playlist_id) => RemoteAction::UnfollowPlaylist {
            playlist_id: playlist_id.clone(),
        },
    }
}

/// After the delete succeeded, removes the item from the in-memory user
/// data: its list loses every entry of that id; the other lists and the
/// user are untouched.
pub fn delete_from_library_commit(user_data: &mut UserData, id: ItemId)
    ensures
        final(user_data).user == old(user_data).user,
        match id {
            ItemId::Track(track_id) => {
                &&& final(user_data).saved_tracks@ == tracks_without(
                    old(user_data).saved_tracks@,
                    track_id@,
                )
                &&& final(user_data).saved_albums == old(user_data).saved_albums
                &&& final(user_data).followed_artists == old(user_data).followed_artists
                &&& final(user_data).playlists == old(user_data).playlists
            },
            ItemId::Album(album_id) => {
                &&& final(user_data).saved_albums@ == albums_without(
                    old(user_data).saved_albums@,
                    album_id@,
                )
                &&& final(user_data).saved_tracks == old(user_data).saved_tracks
                &&& final(user_data).followed_artists == old(user_data).followed_artists
                &&& final(user_data).playlists == old(user_data).playlists
            },
            ItemId::Artist(artist_id) => {
                &&& final(user_data).followed_artists@ == artists_without(
                    old(user_data).followed_artists@,
                    artist_id@,
                )
                &&& final(user_data).saved_tracks == old(user_data).saved_tracks
                &&& final(user_data).saved_albums == old(user_data).saved_albums
                &&& final(user_data).playlists == old(user_data).playlists
            },
            ItemId::Playlist(playlist_id) => {
                &&& final(user_data).playlists@ == playlists_without(
                    old(user_data).playlists@,
                    playlist_id@,
                )
                &&& final(user_data).saved_tracks == old(user_data).saved_tracks
                &&& final(user_data).saved_albums == old(user_data).saved_albums
                &&& final(user_data).followed_artists == old(user_data).followed_artists
            },
        },
{
    match id {
        ItemId::Track(track_id) => {
            retain_tracks_except(&mut user_data.saved_tracks, track_id.as_str());
        },
        ItemId::Album(album_id) => {
            retain_albums_except(&mut user_data.saved_albums, album_id.as_str());
        },
        ItemId::Artist(artist_id) => {
            retain_artists_except(&mut user_data.followed_artists, artist_id.as_str());
        },
        ItemId::Playlist(playlist_id) => {
            retain_playlists_except(&mut user_data.playlists, playlist_id.as_str());
        },
    }
}

/// Removes, in place, every album whose id is `album_id`.
pub fn retain_albums_except(albums: &mut Vec<Album>, album_id: &str)
    ensures
        final(albums)@ == albums_without(old(albums)@, album_id@),
{
    let n = albums.len();
    let ghost orig = albums@;
    proof {
        assert(orig.len() == n);
    }
    let mut p: usize = 0;
    let mut i: usize = 0;
    while i < albums.len()
        invariant
            p <= orig.len(),
            orig.len() <= usize::MAX,
            i == albums_without(orig.take(p as int), album_id@).len(),
            albums@ == albums_without(orig.take(p as int), album_id@) + orig.skip(p as int),
        decreases orig.len() - p,
    {
        proof {
            assert(albums@[i as int] == orig[p as int]);
            assert(orig.take(p as int + 1).drop_last() =~= orig.take(p as int));
            assert(orig.take(p as int + 1).last() == orig[p as int]);
        }
        if str_eq(albums[i].id.as_str(), album_id) {
            albums.remove(i);
            proof {
                assert(albums@ =~= albums_without(orig.take(p as int + 1), album_id@) + orig.skip(
                    p as int + 1,
                ));
            }
        } else {
            i += 1;
            proof {
                assert(albums@ =~= albums_without(orig.take(p as int + 1), album_id@) + orig.skip(
                    p as int + 1,
                ));
            }
        }
        p += 1;
    }
    proof {
        assert(orig.take(p as int) =~= orig);
    }
}

/// Removes, in place, every artist whose id is `artist_id`.
pub fn retain_artists_except(artists: &mut Vec<Artist>, artist_id: &str)
    ensures
        final(artists)@ == artists_without(old(artists)@, artist_id@),
{
    let n = artists.len();
    let ghost orig = artists@;
    proof {
        assert(orig.len() == n);
    }
    let mut p: usize = 0;
    let mut i: usize = 0;
    while i < artists.len()
        invariant
            p <= orig.len(),
            orig.len() <= usize::MAX,
            i == artists_without(orig.take(p as int), artist_id@).len(),
            artists@ == artists_without(orig.take(p as int), artist_id@) + orig.skip(p as int),
        decreases orig.len() - p,
    {
        proof {
            assert(artists@[i as int] == orig[p as int]);
            assert(orig.take(p as int + 1).drop_last() =~= orig.take(p as int));
            assert(orig.take(p as int + 1).last() == orig[p as int]);
        }
        if str_eq(artists[i].id.as_str(), artist_id) {
            artists.remove(i);
            proof {
                assert(artists@ =~= artists_without(orig.take(p as int + 1), artist_id@)
                    + orig.skip(p as int + 1));
            }
        } else {
            i += 1;
            proof {
                assert(artists@ =~= artists_without(orig.take(p as int + 1), artist_id@)
                    + orig.skip(p as int + 1));
            }
        }
        p += 1;
    }
    proof {
        assert(orig.take(p as int) =~= orig);
    }
}

/// Removes, in place, every playlist whose id is `playlist_id`.
pub fn retain_playlists_except(playlists: &mut Vec<Playlist>, playlist_id: &str)
    ensures
        final(playlists)@ == playlists_without(old(playlists)@, playlist_id@),
{
    let n = playlists.len();
    let ghost orig = playlists@;
    proof {
        assert(orig.len() == n);
    }
    let mut p: usize = 0;
    let mut i: usize = 0;
    while i < playlists.len()
        invariant
            p <= orig.len(),
            orig.len() <= usize::MAX,
            i == playlists_without(orig.take(p as int), playlist_id@).len(),
            playlists@ == playlists_without(orig.take(p as int), playlist_id@) + orig.skip(
                p as int,
            ),
        decreases orig.len() - p,
    {
        proof {
            assert(playlists@[i as int] == orig[p as int]);
            assert(orig.take(p as int + 1).drop_last() =~= orig.take(p as int));
            assert(orig.take(p as int + 1).last() == orig[p as int]);
        }
        if str_eq(playlists[i].id.as_str(), playlist_id) {
            playlists.remove(i);
            proof {
                assert(playlists@ =~= playlists_without(orig.take(p as int + 1), playlist_id@)
                    + orig.skip(p as int + 1));
            }
        } else {
            i += 1;
            proof {
                assert(playlists@ =~= playlists_without(orig.take(p as int + 1), playlist_id@)
                    + orig.skip(p as int + 1));
            }
        }
        p += 1;
    }
    proof {
        assert(orig.take(p as int) =~= orig);
    }
}

} // verus!
