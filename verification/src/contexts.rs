//! Building contexts from fetched parts, and the track-list post-processing
//! the fetch handlers apply.
//!
//! A context is assembled once per remote fetch from its already-converted
//! parts: the caller walks the pagination (see [`crate::pagewalk`]) and
//! hands the aggregated lists here.

use vstd::prelude::*;
use crate::model::{Album, Artist, Context, Playlist, Track, album_like};
use crate::strkit::str_eq;

verus! {

/// `s` with every track keeping only its first occurrence per name, in
/// order: the de-duplication applied to the recently-played listing, whose
/// remote result repeats tracks.
pub open spec fn dedup_by_name(s: Seq<Track>) -> Seq<Track>
    decreases s.len(),
{
    if s.len() == 0 {
        Seq::empty()
    } else {
        dedup_by_name(s.drop_last()) + if exists|i: int|
            0 <= i < s.len() - 1 && #[trigger] s[i].name@ == s.last().name@ {
            Seq::empty()
        } else {
            seq![s.last()]
        }
    }
}

/// Whether some track of `s` carries the name.
pub open spec fn has_name_in(s: Seq<Track>, name: Seq<char>) -> bool {
    exists|k: int| 0 <= k < s.len() && #[trigger] s[k].name@ == name
}

/// Whether some track of the list carries the given name.
fn has_track_name(tracks: &Vec<Track>, name: &str) -> (r: bool)
    ensures
        r == has_name_in(tracks@, name@),
{
    let n = tracks.len();
    let mut j: usize = 0;
    while j < n
        invariant
            j <= n,
            n == tracks@.len(),
            forall|k: int| 0 <= k < j ==> tracks@[k].name@ != name@,
        decreases n - j,
    {
        if str_eq(tracks[j].name.as_str(), name) {
            proof {
                assert(tracks@[j as int].name@ == name@);
            }
            return true;
        }
        j += 1;
    }
    false
}

/// De-duplicates a track list by name, keeping the first occurrence of each
/// name in order.
pub fn dedup_tracks_by_name(tracks: Vec<Track>) -> (r: Vec<Track>)
    ensures
        r@ == dedup_by_name(tracks@),
{
    let ghost orig = tracks@;
    let n = tracks.len();
    let mut rest = tracks;
    let mut out: Vec<Track> = Vec::new();
    let mut p: usize = 0;
    proof {
        assert(orig.len() == n);
        assert(orig.take(0) =~= Seq::<Track>::empty());
        assert(out@ =~= dedup_by_name(orig.take(0)));
    }
    while rest.len() > 0
        invariant
            p <= orig.len(),
            orig.len() <= usize::MAX,
            rest@ == orig.skip(p as int),
            out@ == dedup_by_name(orig.take(p as int)),
            forall|j: int| 0 <= j < p ==> has_name_in(out@, (#[trigger] orig[j]).name@),
            forall|k: int| 0 <= k < p ==> !has_name_in(out@, (#[trigger] orig[k]).name@)
                || has_name_in(orig.take(p as int), orig[k].name@),
            forall|k: int|
                0 <= k < out@.len() ==> has_name_in(orig.take(p as int), (#[trigger] out@[k]).name@),
        decreases rest@.len(),
    {
        let ghost pre = orig.take(p as int);
        let ghost post = orig.take(p as int + 1);
        let ghost out0 = out@;
        proof {
            assert(post.drop_last() =~= pre);
            assert(post.last() == orig[p as int]);
            assert(rest@[0] == orig[p as int]);
        }
        let a = rest.remove(0);
        let ghost av = a;
        let seen = has_track_name(&out, a.name.as_str());
        proof {
            if seen {
                let k = choose|k: int|
                    0 <= k < out0.len() && #[trigger] out0[k].name@ == av.name@;
                let j = choose|j: int|
                    0 <= j < pre.len() && #[trigger] pre[j].name@ == out0[k].name@;
                assert(post[j].name@ == post.last().name@);
                assert(dedup_by_name(post) =~= dedup_by_name(pre));
            } else {
                assert forall|i: int|
                    0 <= i < post.len() - 1 implies #[trigger] post[i].name@
                    != post.last().name@ by {
                    assert(has_name_in(out0, orig[i].name@));
                    let k = choose|k: int|
                        0 <= k < out0.len() && #[trigger] out0[k].name@ == orig[i].name@;
                    assert(out0[k].name@ != av.name@);
                }
                assert(dedup_by_name(post) =~= dedup_by_name(pre) + seq![av]);
            }
        }
        if !seen {
            out.push(a);
        }
        p += 1;
        proof {
            assert(rest@ =~= orig.skip(p as int));
            assert forall|j: int| 0 <= j < p implies has_name_in(
                out@,
                (#[trigger] orig[j]).name@,
            ) by {
                if j < p - 1 {
                    let k = choose|k: int|
                        0 <= k < out0.len() && #[trigger] out0[k].name@ == orig[j].name@;
                    assert(out@[k].name@ == orig[j].name@);
                } else {
                    if seen {
                        let k = choose|k: int|
                            0 <= k < out0.len() && #[trigger] out0[k].name@ == av.name@;
                        assert(out@[k].name@ == orig[j].name@);
                    } else {
                        assert(out@[out0.len() as int].name@ == orig[j].name@);
                    }
                }
            }
            assert forall|k: int| 0 <= k < out@.len() implies has_name_in(
                orig.take(p as int),
                (#[trigger] out@[k]).name@,
            ) by {
                if k < out0.len() {
                    let j = choose|j: int|
                        0 <= j < pre.len() && #[trigger] pre[j].name@ == out0[k].name@;
                    assert(orig.take(p as int)[j].name@ == out@[k].name@);
                } else {
                    assert(orig.take(p as int)[p - 1].name@ == out@[k].name@);
                }
            }
        }
    }
    proof {
        assert(orig.take(p as int) =~= orig);
    }
    out
}

/// How the copied album attached to each track of an album context relates
/// to the fetched tracks: every field kept, the album filled in.
pub open spec fn with_album_rel(s: Seq<Track>, t: Seq<Track>, album: Album) -> bool {
    &&& t.len() == s.len()
    &&& forall|i: int|
        0 <= i < s.len() ==> {
            &&& (#[trigger] t[i]).id == s[i].id
            &&& t[i].name == s[i].name
            &&& t[i].artists == s[i].artists
            &&& t[i].duration_ms == s[i].duration_ms
            &&& t[i].album is Some
            &&& album_like(t[i].album->Some_0, album)
        }
}

/// Builds a playlist context from the playlist's metadata and its full,
/// already-aggregated track list.
pub fn playlist_context(playlist: Playlist, tracks: Vec<Track>) -> (r: Context)
    ensures
        r == (Context::Playlist { playlist, tracks }),
{
    Context::Playlist { playlist, tracks }
}

/// Builds an album context: the album's tracks arrive without their album
/// (the pagination returns them simplified), so a copy of the album is
/// attached to each track for consistency with other track lists.
pub fn album_context(album: Album, tracks: Vec<Track>) -> (r: Context)
    ensures
        r matches Context::Album { album: a, tracks: t } && a == album && with_album_rel(
            tracks@,
            t@,
            album,
        ),
{
    let ghost orig = tracks@;
    let n = tracks.len();
    let mut rest = tracks;
    let mut out: Vec<Track> = Vec::new();
    let mut p: usize = 0;
    proof {
        assert(orig.len() == n);
    }
    while rest.len() > 0
        invariant
            p <= orig.len(),
            orig.len() <= usize::MAX,
            rest@ == orig.skip(p as int),
            out@.len() == p,
            forall|i: int|
                0 <= i < p ==> {
                    &&& (#[trigger] out@[i]).id == orig[i].id
                    &&& out@[i].name == orig[i].name
                    &&& out@[i].artists == orig[i].artists
                    &&& out@[i].duration_ms == orig[i].duration_ms
                    &&& out@[i].album is Some
                    &&& album_like(out@[i].album->Some_0, album)
                },
        decreases rest@.len(),
    {
        proof {
            assert(rest@[0] == orig[p as int]);
        }
        let t = rest.remove(0);
        let copy = album.clone();
        out.push(
            Track {
                id: t.id,
                name: t.name,
                artists: t.artists,
                album: Some(copy),
                duration_ms: t.duration_ms,
            },
        );
        p += 1;
        proof {
            assert(rest@ =~= orig.skip(p as int));
        }
    }
    Context::Album { album, tracks: out }
}

/// Builds an artist context from the artist's metadata, top tracks, cleaned
/// discography, and related artists.
pub fn artist_context(
    artist: Artist,
    top_tracks: Vec<Track>,
    albums: Vec<Album>,
    related_artists: Vec<Artist>,
) -> (r: Context)
    ensures
        r == (Context::Artist { artist, top_tracks, albums, related_artists }),
{
    Context::Artist { artist, top_tracks, albums, related_artists }
}

} // verus!
