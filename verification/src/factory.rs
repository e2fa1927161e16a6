//! The assets of the pairs that the factory lists, each named once.

use crate::asset::{asset_key, AssetInfo, AssetInfoView};
use vstd::prelude::*;

verus! {

/// The views of a list of assets.
pub open spec fn infos_view(assets: Seq<AssetInfo>) -> Seq<AssetInfoView> {
    assets.map_values(|a: AssetInfo| a@)
}

/// The assets of a list of pairs, pair after pair, each pair's two assets in their order.
pub open spec fn pair_assets(pairs: Seq<[AssetInfo; 2]>) -> Seq<AssetInfoView> {
    Seq::new((2 * pairs.len()) as nat, |k: int| pairs[k / 2]@[k % 2]@)
}

/// No two assets of `r` have the same name.
pub open spec fn keys_distinct(r: Seq<AssetInfoView>) -> bool {
    forall|i: int, j: int|
        0 <= i < r.len() && 0 <= j < r.len() && i != j ==> #[trigger] r[i].key() != #[trigger] r[j].key()
}

/// Some asset of `r` has the name `key`.
pub open spec fn names(r: Seq<AssetInfoView>, key: Seq<char>) -> bool {
    exists|i: int| 0 <= i < r.len() && #[trigger] r[i].key() == key
}

/// Every asset of `all` has its name in `r`.
pub open spec fn covers(all: Seq<AssetInfoView>, r: Seq<AssetInfoView>) -> bool {
    forall|k: int| 0 <= k < all.len() ==> #[trigger] names(r, all[k].key())
}

/// `all[k]` is the last asset of `all` with its name.
pub open spec fn last_of_name(all: Seq<AssetInfoView>, k: int) -> bool {
    &&& 0 <= k < all.len()
    &&& forall|k2: int| k < k2 < all.len() ==> (#[trigger] all[k2]).key() != all[k].key()
}

/// `v` is the last asset of `all` with its name.
pub open spec fn is_last_of_name(all: Seq<AssetInfoView>, v: AssetInfoView) -> bool {
    exists|k: int| last_of_name(all, k) && #[trigger] all[k] == v
}

/// Every asset of `r` is the last asset of `all` with its name.
pub open spec fn latest(all: Seq<AssetInfoView>, r: Seq<AssetInfoView>) -> bool {
    forall|i: int| 0 <= i < r.len() ==> #[trigger] is_last_of_name(all, r[i])
}

/// `r` names each asset of `all` once, with the last asset of `all` that has that name.
pub open spec fn deduplicated(all: Seq<AssetInfoView>, r: Seq<AssetInfoView>) -> bool {
    &&& keys_distinct(r)
    &&& covers(all, r)
    &&& latest(all, r)
}

/// `keys` holds the name of each asset of `r`.
spec fn keys_of(keys: Seq<String>, r: Seq<AssetInfo>) -> bool {
    &&& keys.len() == r.len()
    &&& forall|i: int| 0 <= i < r.len() ==> (#[trigger] keys[i])@ == r[i]@.key()
}

/// Adds `a` to the deduplicated list `r`: it replaces the asset with its name, if any,
/// and otherwise comes last.
fn insert_asset(r: &mut Vec<AssetInfo>, keys: &mut Vec<String>, a: AssetInfo, Ghost(all): Ghost<Seq<AssetInfoView>>)
    requires
        deduplicated(all, infos_view(old(r)@)),
        keys_of(old(keys)@, old(r)@),
    ensures
        deduplicated(all.push(a@), infos_view(final(r)@)),
        keys_of(final(keys)@, final(r)@),
{
    let ghost r0 = infos_view(r@);
    let ghost all1 = all.push(a@);
    let key = asset_key(&a);
    let mut i: usize = 0;
    while i < keys.len()
        invariant
            i <= keys.len(),
            keys_of(keys@, r@),
            r0 == infos_view(r@),
            deduplicated(all, r0),
            all1 == all.push(a@),
            key@ == a@.key(),
            forall|j: int| 0 <= j < i ==> (#[trigger] keys@[j])@ != key@,
        decreases keys.len() - i,
    {
        if keys[i] == key {
            let ghost ai = a@;
            r.set(i, a);
            let ghost r1 = infos_view(r@);
            assert(r1 =~= r0.update(i as int, ai));
            assert(r0[i as int].key() == ai.key());
            assert forall|x: int, y: int|
                0 <= x < r1.len() && 0 <= y < r1.len() && x != y implies #[trigger] r1[x].key() != #[trigger] r1[y].key() by {
                assert(r1[x].key() == r0[x].key());
                assert(r1[y].key() == r0[y].key());
            }
            assert forall|k: int| 0 <= k < all1.len() implies #[trigger] names(r1, all1[k].key()) by {
                if k == all.len() {
                    assert(r1[i as int].key() == all1[k].key());
                } else {
                    assert(all1[k] == all[k]);
                    assert(names(r0, all[k].key()));
                    let j = choose|j: int| 0 <= j < r0.len() && #[trigger] r0[j].key() == all[k].key();
                    assert(r1[j].key() == r0[j].key());
                }
            }
            assert forall|x: int| 0 <= x < r1.len() implies #[trigger] is_last_of_name(all1, r1[x]) by {
                if x == i {
                    assert(last_of_name(all1, all.len() as int));
                    assert(all1[all.len() as int] == r1[x]);
                } else {
                    assert(is_last_of_name(all, r0[x]));
                    let k = choose|k: int| last_of_name(all, k) && #[trigger] all[k] == r0[x];
                    assert(r0[x].key() != r0[i as int].key());
                    assert forall|k2: int| k < k2 < all1.len() implies (#[trigger] all1[k2]).key() != all1[k].key() by {
                        if k2 < all.len() {
                            assert(all1[k2] == all[k2]);
                        }
                    }
                    assert(last_of_name(all1, k));
                    assert(all1[k] == r1[x]);
                }
            }
            return;
        }
        i += 1;
    }
    let ghost ai = a@;
    r.push(a);
    keys.push(key);
    let ghost r1 = infos_view(r@);
    assert(r1 =~= r0.push(ai));
    assert forall|x: int| 0 <= x < r0.len() implies #[trigger] r0[x].key() != ai.key() by {
        assert(keys@[x]@ == r0[x].key());
    }
    assert forall|x: int, y: int|
        0 <= x < r1.len() && 0 <= y < r1.len() && x != y implies #[trigger] r1[x].key() != #[trigger] r1[y].key() by {
        if x == r0.len() {
            assert(r1[y] == r0[y]);
        } else if y == r0.len() {
            assert(r1[x] == r0[x]);
        } else {
            assert(r1[x] == r0[x]);
            assert(r1[y] == r0[y]);
        }
    }
    assert forall|k: int| 0 <= k < all1.len() implies #[trigger] names(r1, all1[k].key()) by {
        if k == all.len() {
            assert(r1[r0.len() as int].key() == all1[k].key());
        } else {
            assert(all1[k] == all[k]);
            assert(names(r0, all[k].key()));
                    let j = choose|j: int| 0 <= j < r0.len() && #[trigger] r0[j].key() == all[k].key();
            assert(r1[j] == r0[j]);
        }
    }
    assert forall|x: int| 0 <= x < r1.len() implies #[trigger] is_last_of_name(all1, r1[x]) by {
        if x == r0.len() {
            assert(last_of_name(all1, all.len() as int));
            assert(all1[all.len() as int] == r1[x]);
        } else {
            assert(is_last_of_name(all, r0[x]));
                    let k = choose|k: int| last_of_name(all, k) && #[trigger] all[k] == r0[x];
            assert(r1[x] == r0[x]);
            assert forall|k2: int| k < k2 < all1.len() implies (#[trigger] all1[k2]).key() != all1[k].key() by {
                if k2 < all.len() {
                    assert(all1[k2] == all[k2]);
                }
            }
            assert(last_of_name(all1, k));
            assert(all1[k] == r1[x]);
        }
    }
}

/// The assets of `pairs`, each name once: where two assets have the same name, the later one
/// stands for it.
pub fn assets_from_pairs(pairs: &Vec<[AssetInfo; 2]>) -> (r: Vec<AssetInfo>)
    ensures
        deduplicated(pair_assets(pairs@), infos_view(r@)),
{
    let mut r: Vec<AssetInfo> = Vec::new();
    let mut keys: Vec<String> = Vec::new();
    let mut n: usize = 0;
    assert(pair_assets(pairs@.take(0)) =~= Seq::<AssetInfoView>::empty());
    assert(infos_view(r@) =~= Seq::<AssetInfoView>::empty());
    while n < pairs.len()
        invariant
            n <= pairs.len(),
            deduplicated(pair_assets(pairs@.take(n as int)), infos_view(r@)),
            keys_of(keys@, r@),
        decreases pairs.len() - n,
    {
        let ghost before = pair_assets(pairs@.take(n as int));
        let first = pairs[n][0].clone();
        let second = pairs[n][1].clone();
        insert_asset(&mut r, &mut keys, first, Ghost(before));
        insert_asset(&mut r, &mut keys, second, Ghost(before.push(pairs@[n as int]@[0]@)));
        assert(pair_assets(pairs@.take(n + 1)) =~= before.push(pairs@[n as int]@[0]@).push(pairs@[n as int]@[1]@));
        n += 1;
    }
    assert(pairs@.take(pairs.len() as int) =~= pairs@);
    r
}

} // verus!
