//! The discography cleanup: an artist's combined single and album releases,
//! sorted ascending by release date, with duplicated names collapsed.
//!
//! Releases of one name (deluxe editions, reissues) appear several times;
//! the cleanup keeps, per distinct name, one release carrying the latest
//! release date, and returns the kept releases in ascending date order.

use vstd::prelude::*;
use vstd::seq_lib::group_to_multiset_ensures;
use crate::model::Album;
use crate::strkit::str_eq;

verus! {

broadcast use group_to_multiset_ensures;

/// Ascending by release date.
pub open spec fn date_sorted(s: Seq<Album>) -> bool {
    forall|i: int, j: int| 0 <= i < j < s.len() ==> s[i].release_date <= s[j].release_date
}

/// Pairwise distinct album names.
pub open spec fn names_distinct(s: Seq<Album>) -> bool {
    forall|i: int, j: int| 0 <= i < j < s.len() ==> s[i].name@ != s[j].name@
}

/// Sorts albums ascending by release date; the result is a permutation of
/// the input.
pub fn sort_albums_by_date(albums: Vec<Album>) -> (r: Vec<Album>)
    ensures
        date_sorted(r@),
        r@.to_multiset() == albums@.to_multiset(),
{
    let ghost total = albums@.to_multiset();
    let mut rest = albums;
    let mut out: Vec<Album> = Vec::new();
    while rest.len() > 0
        invariant
            date_sorted(out@),
            out@.to_multiset().add(rest@.to_multiset()) == total,
        decreases rest@.len(),
    {
        let ghost rest0 = rest@;
        let ghost out0 = out@;
        let a = rest.remove(0);
        let ghost av = a;
        proof {
            assert(rest0.contains(av));
            assert(rest@ == rest0.remove(0));
        }
        let mut pos: usize = 0;
        while pos < out.len() && out[pos].release_date <= a.release_date
            invariant
                pos <= out@.len(),
                out@ == out0,
                av == a,
                forall|k: int| 0 <= k < pos ==> out@[k].release_date <= av.release_date,
            decreases out@.len() - pos,
        {
            pos += 1;
        }
        out.insert(pos, a);
        proof {
            assert(out@ == out0.insert(pos as int, av));
            out0.insert_ensures(pos as int, av);
            assert forall|i: int, j: int| 0 <= i < j < out@.len() implies out@[i].release_date
                <= out@[j].release_date by {
                if j < pos {
                    assert(out@[i] == out0[i] && out@[j] == out0[j]);
                } else if j == pos {
                    if i < pos {
                        assert(out@[i] == out0[i]);
                    }
                } else {
                    assert(out@[j] == out0[j - 1]);
                    assert(pos < out0.len() ==> out0[pos as int].release_date
                        > av.release_date);
                    if i < pos {
                        assert(out@[i] == out0[i]);
                        assert(out0[i].release_date <= out0[j - 1].release_date || i == j - 1);
                    } else if i == pos {
                        assert(out@[i] == av);
                        assert(av.release_date < out0[pos as int].release_date);
                        assert(out0[pos as int].release_date <= out0[j - 1].release_date);
                    } else {
                        assert(out@[i] == out0[i - 1]);
                    }
                }
            }
            assert(out@.to_multiset() == out0.to_multiset().insert(av));
            assert(rest@.to_multiset() == rest0.to_multiset().remove(av));
            assert(rest0.to_multiset().count(av) > 0);
            assert(out@.to_multiset().add(rest@.to_multiset()) =~= out0.to_multiset().add(
                rest0.to_multiset(),
            ));
        }
    }
    out
}

/// Whether some album of the list carries the given name.
fn has_name(albums: &Vec<Album>, name: &str) -> (r: bool)
    ensures
        r == exists|j: int| 0 <= j < albums@.len() && #[trigger] albums@[j].name@ == name@,
{
    let n = albums.len();
    let mut j: usize = 0;
    while j < n
        invariant
            j <= n,
            n == albums@.len(),
            forall|k: int| 0 <= k < j ==> albums@[k].name@ != name@,
        decreases n - j,
    {
        if str_eq(albums[j].name.as_str(), name) {
            proof {
                assert(albums@[j as int].name@ == name@);
            }
            return true;
        }
        j += 1;
    }
    false
}

/// Whether `s` holds an album named like `a` with a release date at least
/// `a`'s.
pub open spec fn name_covered(s: Seq<Album>, a: Album) -> bool {
    exists|i: int|
        0 <= i < s.len() && #[trigger] s[i].name@ == a.name@ && s[i].release_date
            >= a.release_date
}

/// Cleans up an artist's release list: the result is sorted ascending by
/// release date, holds pairwise distinct names, consists of input albums
/// only, covers every input name, and the kept album of a name carries a
/// release date no earlier than any input album of that name (the
/// chronologically last duplicate survives).
pub fn clean_up_artist_albums(albums: Vec<Album>) -> (r: Vec<Album>)
    ensures
        date_sorted(r@),
        names_distinct(r@),
        forall|i: int| 0 <= i < r@.len() ==> albums@.contains(r@[i]),
        forall|k: int| 0 <= k < albums@.len() ==> name_covered(r@, #[trigger] albums@[k]),
{
    let ghost orig = albums@;
    let sorted = sort_albums_by_date(albums);
    proof {
        assert forall|k: int| 0 <= k < sorted@.len() implies orig.contains(sorted@[k]) by {
            assert(sorted@.contains(sorted@[k]));
            assert(orig.to_multiset().count(sorted@[k]) > 0);
        }
        assert forall|k: int| 0 <= k < orig.len() implies sorted@.contains(orig[k]) by {
            assert(orig.contains(orig[k]));
            assert(sorted@.to_multiset().count(orig[k]) > 0);
        }
    }
    let mut rest = sorted;
    let mut out: Vec<Album> = Vec::new();
    proof {
        assert(out@ + rest@ =~= rest@);
        assert forall|k: int| 0 <= k < orig.len() implies name_covered(rest@, #[trigger] orig[k]) by {
            let i = choose|i: int| 0 <= i < rest@.len() && rest@[i] == orig[k];
            assert(rest@[i].name@ == orig[k].name@ && rest@[i].release_date
                >= orig[k].release_date);
        }
    }
    while rest.len() > 0
        invariant
            date_sorted(out@ + rest@),
            names_distinct(out@),
            forall|i: int, j: int|
                0 <= i < out@.len() && 0 <= j < rest@.len() ==> out@[i].name@ != rest@[j].name@,
            forall|i: int| 0 <= i < out@.len() ==> orig.contains(out@[i]),
            forall|j: int| 0 <= j < rest@.len() ==> orig.contains(rest@[j]),
            forall|k: int|
                0 <= k < orig.len() ==> name_covered(out@, #[trigger] orig[k]) || name_covered(
                    rest@,
                    orig[k],
                ),
        decreases rest@.len(),
    {
        let ghost rest0 = rest@;
        let ghost out0 = out@;
        let a = rest.remove(0);
        let ghost av = a;
        let ghost rest1 = rest@;
        proof {
            assert(rest1 =~= rest0.skip(1));
            assert(av == rest0[0]);
            assert(out0 + rest1 =~= (out0 + rest0).remove(out0.len() as int));
        }
        let keep = !has_name(&rest, &a.name);
        if keep {
            out.push(a);
            proof {
                assert(out@ == out0.push(av));
                assert((out@ + rest1) =~= (out0 + rest0));
                assert forall|i: int, j: int| 0 <= i < j < out@.len() implies out@[i].name@
                    != out@[j].name@ by {
                    if j == out0.len() {
                        assert(out@[i] == out0[i]);
                        assert(out0[i].name@ != rest0[0].name@);
                    }
                }
                assert forall|i: int, j: int|
                    0 <= i < out@.len() && 0 <= j < rest1.len() implies out@[i].name@
                    != rest1[j].name@ by {
                    assert(rest1[j] == rest0[j + 1]);
                    if i < out0.len() {
                        assert(out0[i].name@ != rest0[j + 1].name@);
                    } else {
                        assert(out@[i] == av);
                        assert(!(exists|q: int|
                            0 <= q < rest1.len() && #[trigger] rest1[q].name@ == av.name@));
                    }
                }
                assert forall|k: int|
                    0 <= k < orig.len() implies name_covered(out@, #[trigger] orig[k])
                    || name_covered(rest1, orig[k]) by {
                    if name_covered(out0, orig[k]) {
                        let i = choose|i: int|
                            0 <= i < out0.len() && #[trigger] out0[i].name@ == orig[k].name@
                                && out0[i].release_date >= orig[k].release_date;
                        assert(out@[i].name@ == orig[k].name@ && out@[i].release_date
                            >= orig[k].release_date);
                    } else {
                        let j = choose|j: int|
                            0 <= j < rest0.len() && #[trigger] rest0[j].name@ == orig[k].name@
                                && rest0[j].release_date >= orig[k].release_date;
                        if j == 0 {
                            assert(out@[out0.len() as int].name@ == orig[k].name@
                                && out@[out0.len() as int].release_date
                                >= orig[k].release_date);
                        } else {
                            assert(rest1[j - 1].name@ == orig[k].name@ && rest1[j
                                - 1].release_date >= orig[k].release_date);
                        }
                    }
                }
            }
        } else {
            proof {
                let ghost whole = out0 + rest0;
                assert forall|i: int, j: int| 0 <= i < j < (out0 + rest1).len() implies (out0
                    + rest1)[i].release_date <= (out0 + rest1)[j].release_date by {
                    let ii = if i < out0.len() {
                        i
                    } else {
                        i + 1
                    };
                    let jj = if j < out0.len() {
                        j
                    } else {
                        j + 1
                    };
                    assert((out0 + rest1)[i] == whole[ii]);
                    assert((out0 + rest1)[j] == whole[jj]);
                }
                assert forall|k: int|
                    0 <= k < orig.len() implies name_covered(out0, #[trigger] orig[k])
                    || name_covered(rest1, orig[k]) by {
                    if !name_covered(out0, orig[k]) {
                        let j = choose|j: int|
                            0 <= j < rest0.len() && #[trigger] rest0[j].name@ == orig[k].name@
                                && rest0[j].release_date >= orig[k].release_date;
                        if j == 0 {
                            let q = choose|q: int|
                                0 <= q < rest1.len() && #[trigger] rest1[q].name@ == av.name@;
                            assert(rest1[q] == rest0[q + 1]);
                            assert((out0 + rest0)[out0.len() as int].release_date <= (out0
                                + rest0)[out0.len() + q + 1].release_date);
                            assert(rest1[q].release_date >= av.release_date);
                            assert(rest1[q].name@ == orig[k].name@ && rest1[q].release_date
                                >= orig[k].release_date);
                        } else {
                            assert(rest1[j - 1].name@ == orig[k].name@ && rest1[j
                                - 1].release_date >= orig[k].release_date);
                        }
                    }
                }
            }
        }
    }
    proof {
        assert(rest@.len() == 0);
    }
    out
}

/// Combines an artist's album and single releases and cleans the combined
/// list up: sorted ascending by date, one release per distinct name, the
/// chronologically last duplicate kept.
pub fn artist_albums(albums: Vec<Album>, singles: Vec<Album>) -> (r: Vec<Album>)
    ensures
        date_sorted(r@),
        names_distinct(r@),
        forall|i: int| 0 <= i < r@.len() ==> (albums@ + singles@).contains(r@[i]),
        forall|k: int|
            0 <= k < (albums@ + singles@).len() ==> name_covered(
                r@,
                #[trigger] (albums@ + singles@)[k],
            ),
{
    let mut combined = albums;
    let mut singles = singles;
    combined.append(&mut singles);
    clean_up_artist_albums(combined)
}

} // verus!
