//! The insertion-ordered map of sources, as far as the decoder and the
//! validator use it.

use vstd::prelude::*;
use indexmap::IndexMap;
use crate::schema::{SourceConnector, SourceModel};

verus! {

/// `indexmap::IndexMap`, a hash map that hands its entries out in the order
/// in which their keys were first inserted. Verus sees nothing inside it.
#[verifier::external_type_specification]
#[verifier::external_body]
#[verifier::reject_recursive_types(K)]
#[verifier::reject_recursive_types(V)]
#[verifier::reject_recursive_types(S)]
pub struct ExIndexMap<K, V, S>(IndexMap<K, V, S>);

/// What a map of sources holds: its keys with their connectors, in the order
/// in which the map hands them out.
pub uninterp spec fn source_entries(m: IndexMap<String, SourceConnector>) -> Seq<(Seq<char>, SourceModel)>;

/// Whether `key` names one of `entries`.
pub open spec fn has_key(entries: Seq<(Seq<char>, SourceModel)>, key: Seq<char>) -> bool {
    exists|i: int| 0 <= i < entries.len() && (#[trigger] entries[i]).0 == key
}

/// `IndexMap::new`: the map it returns holds nothing.
#[verifier::external_body]
pub(crate) fn empty_sources() -> (m: IndexMap<String, SourceConnector>)
    ensures
        source_entries(m) == Seq::<(Seq<char>, SourceModel)>::empty(),
{
    IndexMap::new()
}

/// `IndexMap::insert`: a key that the map does not hold yet goes last, with
/// its value, and nothing is returned; for a key that it holds, the value at
/// that key's place is replaced and the former value is returned. No other
/// entry changes.
#[verifier::external_body]
pub(crate) fn insert_source(
    m: &mut IndexMap<String, SourceConnector>,
    key: String,
    value: SourceConnector,
) -> (former: Option<SourceConnector>)
    ensures
        !has_key(source_entries(*old(m)), key@) ==> former is None && source_entries(*final(m))
            == source_entries(*old(m)).push((key@, value@)),
        has_key(source_entries(*old(m)), key@) ==> former is Some && exists|i: int|
            0 <= i < source_entries(*old(m)).len() && (#[trigger] source_entries(*old(m))[i]).0
                == key@ && source_entries(*old(m))[i].1 == former->0@ && source_entries(*final(m))
                == source_entries(*old(m)).update(i, (key@, value@)),
{
    m.insert(key, value)
}

/// `IndexMap::is_empty`: whether the map holds no entry.
#[verifier::external_body]
pub(crate) fn sources_is_empty(m: &IndexMap<String, SourceConnector>) -> (r: bool)
    ensures
        r == (source_entries(*m).len() == 0),
{
    m.is_empty()
}

} // verus!
