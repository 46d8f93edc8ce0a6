//! The durable key-value store that backs the registry, modelled as a map
//! from byte keys to byte values.
//!
//! The registry does not own the store: every operation takes a handle to a
//! host-supplied `cosmwasm_std::MemoryStorage`, whose contents are described
//! in contracts by the uninterpreted map [`store_contents`].

use vstd::prelude::*;

verus! {

#[verifier::external_type_specification]
#[verifier::external_body]
pub struct ExMemoryStorage(cosmwasm_std::MemoryStorage);

/// The contents of a store: the map that sends each key to the value
/// stored under it, with keys that hold no value absent from the map.
pub uninterp spec fn store_contents(storage: cosmwasm_std::MemoryStorage) -> Map<Seq<u8>, Seq<u8>>;

/// The contents of a store that holds no keys at all.
pub open spec fn empty_contents() -> Map<Seq<u8>, Seq<u8>> {
    Map::empty()
}

/// Relies on `cosmwasm_std::MemoryStorage::new`: a fresh in-memory store
/// holds no keys at all.
#[verifier::external_body]
pub fn new_store() -> (s: cosmwasm_std::MemoryStorage)
    ensures
        store_contents(s) == empty_contents(),
{
    cosmwasm_std::MemoryStorage::new()
}

/// Relies on `Storage::get` for `MemoryStorage`: it returns a copy of the
/// value stored under the key, or `None` when the key is absent.
#[verifier::external_body]
pub(crate) fn store_get(storage: &cosmwasm_std::MemoryStorage, key: &[u8]) -> (value: Option<
    Vec<u8>,
>)
    ensures
        match value {
            Some(v) => store_contents(*storage).contains_key(key@) && v@ == store_contents(
                *storage,
            )[key@],
            None => !store_contents(*storage).contains_key(key@),
        },
{
    cosmwasm_std::Storage::get(storage, key)
}

/// Relies on `Storage::set` for `MemoryStorage`: it stores a copy of the
/// value under the key, replacing any prior value, and leaves every other
/// key untouched. It panics on an empty value, so one is required out.
#[verifier::external_body]
pub(crate) fn store_set(storage: &mut cosmwasm_std::MemoryStorage, key: &[u8], value: &[u8])
    requires
        value@.len() > 0,
    ensures
        store_contents(*final(storage)) == store_contents(*old(storage)).insert(key@, value@),
{
    cosmwasm_std::Storage::set(storage, key, value)
}

} // verus!
