//! The durable key-value store behind the registry: near_sdk's
//! `UnorderedMap`, a persistent map that serializes keys and values into the
//! host's storage under a prefix of its own. The registry must be the sole
//! user of that prefix; the contracts below describe the map's contents under
//! that discipline, through the uninterpreted `stored_map`.

use vstd::prelude::*;

use crate::model::{list_fits_codec, str_fits_codec};
use near_sdk::collections::UnorderedMap;

verus! {

#[verifier::external_type_specification]
#[verifier::external_body]
#[verifier::reject_recursive_types(K)]
#[verifier::reject_recursive_types(V)]
pub struct ExUnorderedMap<K, V>(UnorderedMap<K, V>);

/// The contents of the durable map, as a map from account identifier to the
/// sequence of strings stored under it.
pub uninterp spec fn stored_map(m: UnorderedMap<String, Vec<String>>) -> Map<Seq<char>, Seq<Seq<char>>>;

/// Relies on near_sdk::collections::UnorderedMap::new: a freshly created map,
/// reading and writing storage only under the given prefix, holds no entries.
#[verifier::external_body]
pub(crate) fn store_new(prefix: Vec<u8>) -> (m: UnorderedMap<String, Vec<String>>)
    ensures
        stored_map(m) =~= Map::empty(),
{
    UnorderedMap::new(prefix)
}

/// Relies on near_sdk::collections::UnorderedMap::get: returns the value
/// stored under the key, or `None` when the key holds nothing. The key bound
/// keeps its serialized form inside the codec's 32-bit length prefix, where
/// the store would abort the call instead of returning.
#[verifier::external_body]
pub(crate) fn store_get(m: &UnorderedMap<String, Vec<String>>, key: &String) -> (r: Option<
    Vec<String>,
>)
    requires
        str_fits_codec(key@),
    ensures
        match r {
            Some(v) => stored_map(*m).contains_key(key@) && v.deep_view() == stored_map(*m)[key@],
            None => !stored_map(*m).contains_key(key@),
        },
{
    m.get(key)
}

/// Relies on near_sdk::collections::UnorderedMap::insert: stores the value
/// under the key, replacing whatever the key held before and leaving every
/// other key untouched. The bounds keep the serialized key and value inside
/// the codec's 32-bit length prefixes, where the store would abort the call
/// instead of returning.
#[verifier::external_body]
pub(crate) fn store_insert(
    m: &mut UnorderedMap<String, Vec<String>>,
    key: &String,
    value: &Vec<String>,
)
    requires
        str_fits_codec(key@),
        list_fits_codec(value.deep_view()),
    ensures
        stored_map(*final(m)) == stored_map(*old(m)).insert(key@, value.deep_view()),
{
    m.insert(key, value);
}

} // verus!
