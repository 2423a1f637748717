//! The fixed-capacity vectors of `heapless`, as the library uses them.
//!
//! Verus does not look inside a `heapless::Vec`. What such a vector holds is
//! given a name here, one per element type and capacity in use, and each
//! method that the library calls gets a small function whose contract says
//! what the method does to the contents. These contracts are believed, not
//! proved.
use vstd::prelude::*;

use crate::config::enums::Kc;
use crate::config::user_config::REGISTERED_KEYS_ARRAY_SIZE;
use crate::matrix::Key;

verus! {

/// `heapless::Vec`, of which Verus sees nothing but the name.
#[verifier::external_type_specification]
#[verifier::external_body]
#[verifier::reject_recursive_types(T)]
pub struct ExFixedVec<T, const N: usize>(heapless::Vec<T, N>);

/// The keys that a macro vector holds, first to last.
pub uninterp spec fn macro_contents(v: heapless::Vec<Kc, 16>) -> Seq<Kc>;

/// The keys that a combo vector holds, first to last.
pub uninterp spec fn combo_contents(v: heapless::Vec<Kc, 12>) -> Seq<Kc>;

/// The records that a table of registered keys holds, first to last.
pub uninterp spec fn key_records(v: heapless::Vec<Key, REGISTERED_KEYS_ARRAY_SIZE>) -> Seq<Key>;

/// `heapless::Vec::new`: a vector that holds nothing.
#[verifier::external_body]
pub(crate) fn records_new() -> (v: heapless::Vec<Key, REGISTERED_KEYS_ARRAY_SIZE>)
    ensures
        key_records(v) == Seq::<Key>::empty(),
{
    heapless::Vec::new()
}

/// `heapless::Vec::push`: the item is appended if the vector holds fewer
/// items than its capacity; a full vector is left as it is. The result says
/// whether the item went in.
#[verifier::external_body]
pub(crate) fn records_push(
    v: &mut heapless::Vec<Key, REGISTERED_KEYS_ARRAY_SIZE>,
    key: Key,
) -> (pushed: bool)
    ensures
        pushed == (key_records(*old(v)).len() < REGISTERED_KEYS_ARRAY_SIZE),
        pushed ==> key_records(*final(v)) == key_records(*old(v)).push(key),
        !pushed ==> key_records(*final(v)) == key_records(*old(v)),
{
    v.push(key).is_ok()
}

/// `heapless::Vec::len`, through its view as a slice: the number of items,
/// which never exceeds the capacity.
#[verifier::external_body]
pub(crate) fn records_len(v: &heapless::Vec<Key, REGISTERED_KEYS_ARRAY_SIZE>) -> (len: usize)
    ensures
        len == key_records(*v).len(),
        len <= REGISTERED_KEYS_ARRAY_SIZE,
{
    v.len()
}

/// Indexing a `heapless::Vec`, through its view as a slice: the item at
/// `index`. An index past the end would panic.
#[verifier::external_body]
pub(crate) fn records_get(
    v: &heapless::Vec<Key, REGISTERED_KEYS_ARRAY_SIZE>,
    index: usize,
) -> (key: Key)
    requires
        index < key_records(*v).len(),
    ensures
        key == key_records(*v)[index as int],
{
    v[index]
}

/// Assigning to an index of a `heapless::Vec`, through its view as a
/// mutable slice: the item at `index` is replaced, the others stay. An
/// index past the end would panic.
#[verifier::external_body]
pub(crate) fn records_set(
    v: &mut heapless::Vec<Key, REGISTERED_KEYS_ARRAY_SIZE>,
    index: usize,
    key: Key,
)
    requires
        index < key_records(*old(v)).len(),
    ensures
        key_records(*final(v)) == key_records(*old(v)).update(index as int, key),
{
    v[index] = key;
}

/// `heapless::Vec::remove`: the item at `index` is taken out and returned,
/// and the items behind it move up by one. An index past the end would
/// panic.
#[verifier::external_body]
pub(crate) fn records_remove(
    v: &mut heapless::Vec<Key, REGISTERED_KEYS_ARRAY_SIZE>,
    index: usize,
) -> (key: Key)
    requires
        index < key_records(*old(v)).len(),
    ensures
        key == key_records(*old(v))[index as int],
        key_records(*final(v)) == key_records(*old(v)).remove(index as int),
{
    v.remove(index)
}

/// `heapless::Vec::new`: a vector that holds nothing.
#[verifier::external_body]
pub(crate) fn macro_new() -> (v: heapless::Vec<Kc, 16>)
    ensures
        macro_contents(v) == Seq::<Kc>::empty(),
{
    heapless::Vec::new()
}

/// `heapless::Vec::push`: the item is appended if the vector holds fewer
/// items than its capacity; a full vector is left as it is. The result says
/// whether the item went in.
#[verifier::external_body]
pub(crate) fn macro_push(v: &mut heapless::Vec<Kc, 16>, key: Kc) -> (pushed: bool)
    ensures
        pushed == (macro_contents(*old(v)).len() < 16),
        pushed ==> macro_contents(*final(v)) == macro_contents(*old(v)).push(key),
        !pushed ==> macro_contents(*final(v)) == macro_contents(*old(v)),
{
    v.push(key).is_ok()
}

/// `heapless::Vec::len`, through its view as a slice: the number of items,
/// which never exceeds the capacity.
#[verifier::external_body]
pub(crate) fn macro_len(v: &heapless::Vec<Kc, 16>) -> (len: usize)
    ensures
        len == macro_contents(*v).len(),
        len <= 16,
{
    v.len()
}

/// Indexing a `heapless::Vec`, through its view as a slice: the item at
/// `index`. An index past the end would panic.
#[verifier::external_body]
pub(crate) fn macro_get(v: &heapless::Vec<Kc, 16>, index: usize) -> (key: Kc)
    requires
        index < macro_contents(*v).len(),
    ensures
        key == macro_contents(*v)[index as int],
{
    v[index]
}

/// `heapless::Vec::new`: a vector that holds nothing.
#[verifier::external_body]
pub(crate) fn combo_new() -> (v: heapless::Vec<Kc, 12>)
    ensures
        combo_contents(v) == Seq::<Kc>::empty(),
{
    heapless::Vec::new()
}

/// `heapless::Vec::push`: the item is appended if the vector holds fewer
/// items than its capacity; a full vector is left as it is. The result says
/// whether the item went in.
#[verifier::external_body]
pub(crate) fn combo_push(v: &mut heapless::Vec<Kc, 12>, key: Kc) -> (pushed: bool)
    ensures
        pushed == (combo_contents(*old(v)).len() < 12),
        pushed ==> combo_contents(*final(v)) == combo_contents(*old(v)).push(key),
        !pushed ==> combo_contents(*final(v)) == combo_contents(*old(v)),
{
    v.push(key).is_ok()
}

/// `heapless::Vec::len`, through its view as a slice: the number of items,
/// which never exceeds the capacity.
#[verifier::external_body]
pub(crate) fn combo_len(v: &heapless::Vec<Kc, 12>) -> (len: usize)
    ensures
        len == combo_contents(*v).len(),
        len <= 12,
{
    v.len()
}

/// Indexing a `heapless::Vec`, through its view as a slice: the item at
/// `index`. An index past the end would panic.
#[verifier::external_body]
pub(crate) fn combo_get(v: &heapless::Vec<Kc, 12>, index: usize) -> (key: Kc)
    requires
        index < combo_contents(*v).len(),
    ensures
        key == combo_contents(*v)[index as int],
{
    v[index]
}

} // verus!
