use crate::prefabs::Prefab;
use slab::Slab;
use vstd::prelude::*;

verus! {

/// `slab::Slab`, the table of reusable slots that holds the batches.
#[verifier::external_type_specification]
#[verifier::external_body]
#[verifier::reject_recursive_types(T)]
pub struct ExSlab<T>(Slab<T>);

/// The occupied slots of a slab: each key in use, with the batch stored under it.
pub uninterp spec fn slab_entries(slab: Slab<Prefab>) -> Map<usize, Prefab>;

/// The key that the next insertion into a slab will be given.
pub uninterp spec fn slab_vacant_key(slab: Slab<Prefab>) -> usize;

/// The number of slots a slab is kept below, so that its storage stays
/// far from the largest allocation there can be.
pub const MAX_SLOTS: usize = 0x10_0000;

/// `Slab::new`: an empty slab, whose first insertion gets key 0.
#[verifier::external_body]
pub(crate) fn slab_new() -> (slab: Slab<Prefab>)
    ensures
        slab_entries(slab) == (Map::<usize, Prefab>::empty()),
        slab_vacant_key(slab) == 0,
{
    Slab::new()
}

/// `Slab::vacant_key`: the key that the next insertion will be given, a
/// key that is not in use.
#[verifier::external_body]
pub(crate) fn slab_vacant(slab: &Slab<Prefab>) -> (key: usize)
    ensures
        key == slab_vacant_key(*slab),
        !slab_entries(*slab).contains_key(key),
{
    slab.vacant_key()
}

/// `Slab::insert`: stores the batch under the vacant key, which was not in
/// use, and returns that key. Every other slot keeps its key and contents.
/// The key that is vacant afterwards is again one not in use.
///
/// The slab grows only when the vacant key lies past its last slot, and
/// fails only when its storage would exceed the largest allocation; with
/// the vacant key below `MAX_SLOTS` it cannot.
#[verifier::external_body]
pub(crate) fn slab_insert(slab: &mut Slab<Prefab>, prefab: Prefab) -> (key: usize)
    requires
        slab_vacant_key(*old(slab)) < MAX_SLOTS,
    ensures
        key == slab_vacant_key(*old(slab)),
        !slab_entries(*old(slab)).contains_key(key),
        slab_entries(*final(slab)) == slab_entries(*old(slab)).insert(key, prefab),
        !slab_entries(*final(slab)).contains_key(slab_vacant_key(*final(slab))),
{
    slab.insert(prefab)
}

/// `Slab::try_remove`: takes the batch stored under `key` out of the slab and
/// makes `key` the vacant key; a key not in use leaves the slab as it was.
#[verifier::external_body]
pub(crate) fn slab_try_remove(slab: &mut Slab<Prefab>, key: usize) -> (removed: Option<Prefab>)
    ensures
        removed is Some == slab_entries(*old(slab)).contains_key(key),
        removed matches Some(prefab) ==> prefab == slab_entries(*old(slab))[key] && slab_entries(
            *final(slab),
        ) == slab_entries(*old(slab)).remove(key) && slab_vacant_key(*final(slab)) == key,
        removed is None ==> slab_entries(*final(slab)) == slab_entries(*old(slab))
            && slab_vacant_key(*final(slab)) == slab_vacant_key(*old(slab)),
{
    slab.try_remove(key)
}

/// `Slab::clear`: empties the slab; its next insertion gets key 0.
#[verifier::external_body]
pub(crate) fn slab_clear(slab: &mut Slab<Prefab>)
    ensures
        slab_entries(*final(slab)) == (Map::<usize, Prefab>::empty()),
        slab_vacant_key(*final(slab)) == 0,
{
    slab.clear()
}

/// `Slab::get`: the batch stored under `key`, if the key is in use.
#[verifier::external_body]
pub(crate) fn slab_get(slab: &Slab<Prefab>, key: usize) -> (found: Option<&Prefab>)
    ensures
        found is Some == slab_entries(*slab).contains_key(key),
        found matches Some(prefab) ==> *prefab == slab_entries(*slab)[key],
{
    slab.get(key)
}

/// `Slab::get_mut`: the batch stored under `key`, if the key is in use, open
/// to change in place. Whatever the caller leaves there is what the slab
/// then holds under `key`; nothing else about the slab changes.
#[verifier::external_body]
pub(crate) fn slab_get_mut(slab: &mut Slab<Prefab>, key: usize) -> (found: Option<&mut Prefab>)
    ensures
        found is Some == slab_entries(*old(slab)).contains_key(key),
        found matches Some(prefab) ==> *prefab == slab_entries(*old(slab))[key] && slab_entries(
            *final(slab),
        ) == slab_entries(*old(slab)).insert(key, *final(prefab)),
        found is None ==> slab_entries(*final(slab)) == slab_entries(*old(slab)),
        slab_vacant_key(*final(slab)) == slab_vacant_key(*old(slab)),
{
    slab.get_mut(key)
}

/// `Slab::iter`, keys only: the keys in use, each once, in increasing order.
#[verifier::external_body]
pub(crate) fn slab_keys(slab: &Slab<Prefab>) -> (keys: Vec<usize>)
    ensures
        forall|i: int, j: int| 0 <= i < j < keys@.len() ==> keys@[i] < keys@[j],
        forall|key: usize| slab_entries(*slab).contains_key(key) <==> keys@.contains(key),
{
    slab.iter().map(|(key, _)| key).collect()
}

} // verus!
