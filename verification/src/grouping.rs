//! Album grouping: the derived view over a flat discography.
//!
//! A discography is a flat track list; albums are not stored. Grouping
//! partitions the tracks by `album_id`, keeps the albums in first-seen
//! order, and keeps each album's tracks in the order the server listed
//! them (sorted by album, then index). Re-flattening the groups yields a
//! permutation of the original list, proved below.

use crate::entities::{DiscographyAlbum, DiscographySong};
use vstd::multiset::Multiset;
use vstd::prelude::*;

verus! {

/// Whether a track belongs to the album with the given id.
pub open spec fn album_key_pred(key: Seq<char>) -> spec_fn(DiscographySong) -> bool {
    |x: DiscographySong| x.album_id@ == key
}

/// The distinct album ids of a track list, in first-seen order.
pub open spec fn album_keys(s: Seq<DiscographySong>) -> Seq<Seq<char>>
    decreases s.len(),
{
    if s.len() == 0 {
        Seq::empty()
    } else {
        let prior = album_keys(s.drop_last());
        if prior.contains(s.last().album_id@) {
            prior
        } else {
            prior.push(s.last().album_id@)
        }
    }
}

/// The tracks of one album, in their original order.
pub open spec fn songs_of_album(s: Seq<DiscographySong>, key: Seq<char>) -> Seq<DiscographySong> {
    s.filter(album_key_pred(key))
}

/// The grouped view of a track list: one group per distinct album id, in
/// first-seen order, each holding its album's tracks in original order.
pub open spec fn grouped(s: Seq<DiscographySong>) -> Seq<Seq<DiscographySong>> {
    Seq::new(album_keys(s).len(), |i: int| songs_of_album(s, album_keys(s)[i]))
}

/// One more track extends the key list exactly when its album is new.
proof fn lemma_album_keys_push(s: Seq<DiscographySong>, x: DiscographySong)
    ensures
        album_keys(s.push(x)) == if album_keys(s).contains(x.album_id@) {
            album_keys(s)
        } else {
            album_keys(s).push(x.album_id@)
        },
{
    assert(s.push(x).drop_last() =~= s);
    assert(s.push(x).last() == x);
}

/// The album ids of the key list are distinct.
pub proof fn lemma_album_keys_distinct(s: Seq<DiscographySong>)
    ensures
        forall|i: int, j: int|
            0 <= i < j < album_keys(s).len() ==> album_keys(s)[i] != album_keys(s)[j],
    decreases s.len(),
{
    if s.len() > 0 {
        let prior = album_keys(s.drop_last());
        lemma_album_keys_distinct(s.drop_last());
        if !prior.contains(s.last().album_id@) {
            assert forall|i: int, j: int|
                0 <= i < j < album_keys(s).len() implies album_keys(s)[i] != album_keys(s)[j] by {
                if j == prior.len() {
                    assert(album_keys(s)[i] == prior[i]);
                    if prior[i] == s.last().album_id@ {
                        assert(prior.contains(s.last().album_id@));
                    }
                }
            }
        }
    }
}

/// A key is listed exactly when some track carries it.
pub proof fn lemma_album_keys_complete(s: Seq<DiscographySong>, key: Seq<char>)
    ensures
        album_keys(s).contains(key) <==> exists|i: int|
            0 <= i < s.len() && s[i].album_id@ == key,
    decreases s.len(),
{
    if s.len() == 0 {
    } else {
        let s0 = s.drop_last();
        lemma_album_keys_complete(s0, key);
        let prior = album_keys(s0);
        if album_keys(s).contains(key) {
            if !prior.contains(key) {
                // the key can only be the pushed one, carried by the last track
                let w = choose|w: int|
                    0 <= w < album_keys(s).len() && album_keys(s)[w] == key;
                assert(w == prior.len());
                assert(s[s.len() - 1].album_id@ == key);
            } else {
                let i = choose|i: int| 0 <= i < s0.len() && s0[i].album_id@ == key;
                assert(s[i].album_id@ == key);
            }
        }
        if exists|i: int| 0 <= i < s.len() && s[i].album_id@ == key {
            let i = choose|i: int| 0 <= i < s.len() && s[i].album_id@ == key;
            if i < s.len() - 1 {
                assert(s0[i].album_id@ == key);
                assert(prior.contains(key));
                if prior.contains(key) && !album_keys(s).contains(key) {
                    let w = choose|w: int| 0 <= w < prior.len() && prior[w] == key;
                    assert(album_keys(s)[w] == key);
                }
            } else {
                if !prior.contains(key) {
                    assert(album_keys(s)[prior.len() as int] == key);
                } else {
                    let w = choose|w: int| 0 <= w < prior.len() && prior[w] == key;
                    assert(album_keys(s)[w] == key);
                }
            }
        }
    }
}

/// Pushing a track onto one group adds exactly that track to the flattened whole.
proof fn lemma_flatten_update_push(
    gs: Seq<Seq<DiscographySong>>,
    ix: int,
    x: DiscographySong,
)
    requires
        0 <= ix < gs.len(),
    ensures
        gs.update(ix, gs[ix].push(x)).flatten().to_multiset() =~= gs.flatten().to_multiset().insert(
            x,
        ),
    decreases ix,
{
    broadcast use vstd::seq_lib::group_to_multiset_ensures;
    broadcast use vstd::seq_lib::lemma_multiset_commutative;
    broadcast use vstd::multiset::group_multiset_axioms;

    let gs2 = gs.update(ix, gs[ix].push(x));
    if ix == 0 {
        assert(gs2.drop_first() =~= gs.drop_first());
        assert(gs2.first() == gs.first().push(x));
        assert(gs2.flatten() == gs2.first() + gs2.drop_first().flatten());
        assert(gs.flatten() == gs.first() + gs.drop_first().flatten());
        let rest = gs.drop_first().flatten();
        assert((gs.first().push(x) + rest).to_multiset() =~= gs.first().push(
            x,
        ).to_multiset().add(rest.to_multiset()));
        assert(gs.first().push(x).to_multiset() =~= gs.first().to_multiset().insert(x));
        assert((gs.first() + rest).to_multiset() =~= gs.first().to_multiset().add(
            rest.to_multiset(),
        ));
    } else {
        assert(gs2.drop_first() =~= gs.drop_first().update(ix - 1, gs[ix].push(x)));
        assert(gs.drop_first()[ix - 1] == gs[ix]);
        lemma_flatten_update_push(gs.drop_first(), ix - 1, x);
        assert(gs2.first() == gs.first());
        assert(gs2.flatten() == gs2.first() + gs2.drop_first().flatten());
        assert(gs.flatten() == gs.first() + gs.drop_first().flatten());
    }
}

/// Law: grouping a track list by album and flattening the groups back
/// yields a permutation of the original list — the same tracks, each the
/// same number of times.
pub proof fn lemma_group_flatten_permutation(s: Seq<DiscographySong>)
    ensures
        grouped(s).flatten().to_multiset() == s.to_multiset(),
    decreases s.len(),
{
    broadcast use vstd::seq_lib::group_to_multiset_ensures;
    broadcast use vstd::seq_lib::lemma_multiset_commutative;
    broadcast use vstd::multiset::group_multiset_axioms;
    broadcast use vstd::seq::Seq::lemma_filter_push;
    broadcast use vstd::seq::Seq::lemma_flatten_push;

    if s.len() == 0 {
        assert(grouped(s) =~= Seq::<Seq<DiscographySong>>::empty());
        assert(grouped(s).flatten().to_multiset() =~= s.to_multiset());
    } else {
        let s0 = s.drop_last();
        let x = s.last();
        let k = x.album_id@;
        lemma_group_flatten_permutation(s0);
        lemma_album_keys_push(s0, x);
        lemma_album_keys_distinct(s0);
        assert(s =~= s0.push(x));
        assert(s.to_multiset() =~= s0.to_multiset().insert(x));
        let keys0 = album_keys(s0);
        if keys0.contains(k) {
            assert(album_keys(s) == keys0);
            let ix = choose|ix: int| 0 <= ix < keys0.len() && keys0[ix] == k;
            assert forall|i: int|
                0 <= i < keys0.len() implies grouped(s)[i] == grouped(s0).update(
                ix,
                grouped(s0)[ix].push(x),
            )[i] by {
                assert(songs_of_album(s, keys0[i]) == s0.push(x).filter(album_key_pred(keys0[i])));
                if i == ix {
                    assert(album_key_pred(keys0[i])(x));
                } else {
                    assert(keys0[i] != k);
                    assert(!album_key_pred(keys0[i])(x));
                }
            }
            assert(grouped(s) =~= grouped(s0).update(ix, grouped(s0)[ix].push(x)));
            lemma_flatten_update_push(grouped(s0), ix, x);
        } else {
            assert(album_keys(s) == keys0.push(k));
            lemma_album_keys_complete(s0, k);
            assert(s0.all(|y: DiscographySong| !album_key_pred(k)(y)));
            s0.lemma_all_neg_filter_empty(album_key_pred(k));
            assert forall|i: int|
                0 <= i < keys0.len() + 1 implies grouped(s)[i] == grouped(s0).push(seq![x])[i] by {
                let keys1 = keys0.push(k);
                assert(songs_of_album(s, keys1[i]) == s0.push(x).filter(album_key_pred(keys1[i])));
                if i < keys0.len() {
                    assert(keys1[i] == keys0[i]);
                    if keys0[i] == k {
                        assert(keys0.contains(k));
                    }
                    assert(!album_key_pred(keys0[i])(x));
                } else {
                    assert(album_key_pred(k)(x));
                    assert(songs_of_album(s0, k).push(x) =~= seq![x]);
                }
            }
            assert(grouped(s) =~= grouped(s0).push(seq![x]));
            assert(grouped(s0).push(seq![x]).flatten() =~= grouped(s0).flatten() + seq![x]);
            assert(seq![x] =~= Seq::<DiscographySong>::empty().push(x));
            assert(seq![x].to_multiset() =~= Multiset::<DiscographySong>::empty().insert(x));
            assert((grouped(s0).flatten() + seq![x]).to_multiset() =~= grouped(
                s0,
            ).flatten().to_multiset().insert(x));
        }
    }
}

/// Every track of a group sits somewhere in the original list.
proof fn lemma_filter_element_index(s: Seq<DiscographySong>, key: Seq<char>, idx: int)
    requires
        0 <= idx < songs_of_album(s, key).len(),
    ensures
        exists|i: int| 0 <= i < s.len() && s[i] == songs_of_album(s, key)[idx],
    decreases s.len(),
{
    broadcast use vstd::seq::Seq::lemma_filter_push;

    if s.len() > 0 {
        let s0 = s.drop_last();
        let g0 = songs_of_album(s0, key);
        assert(s =~= s0.push(s.last()));
        assert(songs_of_album(s, key) == s0.push(s.last()).filter(album_key_pred(key)));
        if idx < g0.len() {
            lemma_filter_element_index(s0, key, idx);
            let i = choose|i: int| 0 <= i < s0.len() && s0[i] == g0[idx];
            assert(s[i] == songs_of_album(s, key)[idx]);
        } else {
            assert(s[s.len() - 1] == songs_of_album(s, key)[idx]);
        }
    }
}

/// Law: a group keeps its album's tracks in their original order — any
/// two tracks of a group appear in the original list in the same order.
pub proof fn lemma_group_order_preserved(s: Seq<DiscographySong>, key: Seq<char>, a: int, b: int)
    requires
        0 <= a < b < songs_of_album(s, key).len(),
    ensures
        exists|ia: int, ib: int|
            0 <= ia < ib < s.len() && s[ia] == songs_of_album(s, key)[a] && s[ib] == songs_of_album(
                s,
                key,
            )[b],
    decreases s.len(),
{
    broadcast use vstd::seq::Seq::lemma_filter_push;

    let g = songs_of_album(s, key);
    let s0 = s.drop_last();
    let g0 = songs_of_album(s0, key);
    assert(s =~= s0.push(s.last()));
    assert(g == s0.push(s.last()).filter(album_key_pred(key)));
    if b < g0.len() {
        lemma_group_order_preserved(s0, key, a, b);
        let (ia, ib) = choose|ia: int, ib: int|
            0 <= ia < ib < s0.len() && s0[ia] == g0[a] && s0[ib] == g0[b];
        assert(s[ia] == g[a] && s[ib] == g[b]);
    } else {
        assert(g == g0.push(s.last()));
        assert(b == g0.len());
        lemma_filter_element_index(s0, key, a);
        let ia = choose|ia: int| 0 <= ia < s0.len() && s0[ia] == g0[a];
        let ib = s.len() - 1;
        assert(s[ia] == g[a] && s[ib] == g[b]);
    }
}

/// Groups a discography's tracks into albums: partitioned by `album_id`,
/// albums in first-seen order, tracks inside each album in their original
/// order. No re-sorting happens at this layer.
#[verifier::loop_isolation(false)]
pub fn group_by_album(songs: Vec<DiscographySong>) -> (r: Vec<DiscographyAlbum>)
    ensures
        r@.len() == album_keys(songs@).len(),
        forall|i: int|
            0 <= i < r@.len() ==> r@[i].songs@ == songs_of_album(songs@, album_keys(songs@)[i]),
        r@.map_values(|a: DiscographyAlbum| a.songs@) == grouped(songs@),
{
    let ghost all = songs@;
    let mut rest = songs;
    let mut groups: Vec<DiscographyAlbum> = Vec::new();
    let ghost mut k: int = 0;
    proof {
        assert(rest@ =~= all.skip(0));
        assert(all.take(0) =~= Seq::<DiscographySong>::empty());
    }
    while rest.len() > 0
        invariant
            0 <= k <= all.len(),
            rest@ == all.skip(k),
            groups@.len() == album_keys(all.take(k)).len(),
            forall|i: int| #![trigger groups@[i]]
                0 <= i < groups@.len() ==> groups@[i].songs@ == songs_of_album(
                    all.take(k),
                    album_keys(all.take(k))[i],
                ),
            forall|i: int| #![trigger groups@[i]]
                0 <= i < groups@.len() ==> groups@[i].songs@.len() > 0 && groups@[i].songs@[0].album_id@
                    == album_keys(all.take(k))[i],
        decreases rest@.len(),
    {
        let s = rest.remove(0);
        let ghost take0 = all.take(k);
        let ghost keys0 = album_keys(take0);
        let ghost key = s.album_id@;
        proof {
            assert(s == all[k]);
            assert(all.skip(k).remove(0) =~= all.skip(k + 1));
            assert(all.take(k + 1) =~= take0.push(all[k]));
            lemma_album_keys_push(take0, all[k]);
            lemma_album_keys_distinct(take0);
        }
        let glen = groups.len();
        let mut idx: usize = glen;
        for j in 0..glen
            invariant
                idx <= glen,
                idx == glen ==> forall|j2: int| 0 <= j2 < j ==> keys0[j2] != key,
                idx < glen ==> keys0[idx as int] == key,
        {
            if idx == glen {
                assert(groups@[j as int].songs@.len() > 0);
                if crate::json::str_eq(groups[j].songs[0].album_id.as_str(), s.album_id.as_str()) {
                    idx = j;
                }
            }
        }
        if idx < glen {
            proof {
                assert(keys0.contains(key));
                assert(album_keys(all.take(k + 1)) == keys0);
            }
            let ghost old_groups = groups@;
            let mut album = groups.remove(idx);
            album.songs.push(s);
            groups.insert(idx, album);
            proof {
                broadcast use vstd::seq::Seq::lemma_filter_push;

                assert(groups@ =~= old_groups.update(
                    idx as int,
                    DiscographyAlbum { songs: album.songs },
                ));
                assert forall|i: int|
                    0 <= i < groups@.len() implies groups@[i].songs@ == songs_of_album(
                    all.take(k + 1),
                    keys0[i],
                ) by {
                    assert(songs_of_album(all.take(k + 1), keys0[i]) == take0.push(
                        all[k],
                    ).filter(album_key_pred(keys0[i])));
                    if i == idx {
                        assert(album_key_pred(keys0[i])(all[k]));
                        assert(groups@[i].songs@ == old_groups[i].songs@.push(all[k]));
                    } else {
                        assert(!album_key_pred(keys0[i])(all[k]));
                    }
                }
                assert forall|i: int|
                    0 <= i < groups@.len() implies groups@[i].songs@.len() > 0
                    && groups@[i].songs@[0].album_id@ == keys0[i] by {
                    if i == idx {
                        assert(groups@[i].songs@ == old_groups[i].songs@.push(all[k]));
                        assert(groups@[i].songs@[0] == old_groups[i].songs@[0]);
                    }
                }
                k = k + 1;
            }
        } else {
            proof {
                if keys0.contains(key) {
                    let w = choose|w: int| 0 <= w < keys0.len() && keys0[w] == key;
                    assert(keys0[w] != key);
                }
                assert(album_keys(all.take(k + 1)) == keys0.push(key));
                lemma_album_keys_complete(take0, key);
                assert(take0.all(|y: DiscographySong| !album_key_pred(key)(y)));
                take0.lemma_all_neg_filter_empty(album_key_pred(key));
            }
            let mut only: Vec<DiscographySong> = Vec::new();
            only.push(s);
            let ghost old_groups = groups@;
            groups.push(DiscographyAlbum { songs: only });
            proof {
                broadcast use vstd::seq::Seq::lemma_filter_push;

                let keys1 = keys0.push(key);
                assert forall|i: int|
                    0 <= i < groups@.len() implies groups@[i].songs@ == songs_of_album(
                    all.take(k + 1),
                    keys1[i],
                ) by {
                    assert(songs_of_album(all.take(k + 1), keys1[i]) == take0.push(
                        all[k],
                    ).filter(album_key_pred(keys1[i])));
                    if i < old_groups.len() {
                        assert(keys1[i] == keys0[i]);
                        if keys0[i] == key {
                            assert(keys0.contains(key));
                        }
                        assert(!album_key_pred(keys0[i])(all[k]));
                    } else {
                        assert(album_key_pred(key)(all[k]));
                        assert(songs_of_album(take0, key).push(all[k]) =~= groups@[i].songs@);
                    }
                }
                assert forall|i: int|
                    0 <= i < groups@.len() implies groups@[i].songs@.len() > 0
                    && groups@[i].songs@[0].album_id@ == keys1[i] by {
                    if i == old_groups.len() {
                        assert(groups@[i].songs@[0] == all[k]);
                    }
                }
                k = k + 1;
            }
        }
    }
    proof {
        assert(k == all.len());
        assert(all.take(k) =~= all);
        assert(groups@.map_values(|a: DiscographyAlbum| a.songs@) =~= grouped(all));
    }
    groups
}

} // verus!
