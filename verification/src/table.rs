//! The ordered table of a student's test scores, kept in an `indexmap::IndexMap`.
//!
//! Verus does not look inside the map. The functions here state what the map's
//! methods do to its entries; those statements are taken on trust from the
//! documentation and source of `indexmap`.

use crate::models::{TestResult, TestScore};
use indexmap::IndexMap;
use vstd::prelude::*;

verus! {

/// `indexmap::IndexMap`, a map that keeps its entries in the order in which
/// their keys were first inserted. Nothing inside it is visible here.
#[verifier::external_type_specification]
#[verifier::external_body]
#[verifier::reject_recursive_types(K)]
#[verifier::reject_recursive_types(V)]
#[verifier::reject_recursive_types(S)]
pub struct ExIndexMap<K, V, S>(IndexMap<K, V, S>);

/// The entries of a score table in the order the map keeps them: each key with
/// what its value says.
pub uninterp spec fn entries(m: IndexMap<String, TestResult>) -> Seq<(Seq<char>, TestScore)>;

/// The keys of a table, in the table's order: the names of its columns.
pub open spec fn names_of(e: Seq<(Seq<char>, TestScore)>) -> Seq<Seq<char>> {
    Seq::new(e.len(), |i: int| e[i].0)
}

/// Index of the entry of `e` under `key`, or `-1` when there is none.
pub open spec fn key_index(e: Seq<(Seq<char>, TestScore)>, key: Seq<char>) -> int
    decreases e.len(),
{
    if e.len() == 0 {
        -1
    } else if key_index(e.drop_last(), key) >= 0 {
        key_index(e.drop_last(), key)
    } else if e.last().0 == key {
        e.len() - 1
    } else {
        -1
    }
}

/// The entries after `value` is stored under `key`: an entry already under that
/// key keeps its place and takes the new value, otherwise a new entry comes last.
pub open spec fn inserted(e: Seq<(Seq<char>, TestScore)>, key: Seq<char>, value: TestScore) -> Seq<
    (Seq<char>, TestScore),
> {
    let i = key_index(e, key);
    if i >= 0 {
        e.update(i, (key, value))
    } else {
        e.push((key, value))
    }
}

/// `IndexMap::new`: the new table has no entry.
#[verifier::external_body]
pub(crate) fn table_new() -> (m: IndexMap<String, TestResult>)
    ensures
        entries(m) == Seq::<(Seq<char>, TestScore)>::empty(),
{
    IndexMap::new()
}

/// `IndexMap::insert`: an equal key keeps its place in the order and gets the
/// new value; a key that was not there is added last.
#[verifier::external_body]
pub(crate) fn table_insert(m: &mut IndexMap<String, TestResult>, key: String, value: TestResult)
    ensures
        entries(*final(m)) == inserted(entries(*old(m)), key@, value@),
{
    m.insert(key, value);
}

/// `Clone::clone` of an `IndexMap`: the copy holds the same entries in the same order.
#[verifier::external_body]
pub(crate) fn table_clone(m: &IndexMap<String, TestResult>) -> (c: IndexMap<String, TestResult>)
    ensures
        entries(c) == entries(*m),
{
    m.clone()
}

/// `IndexMap::len`: the number of entries.
#[verifier::external_body]
pub(crate) fn table_len(m: &IndexMap<String, TestResult>) -> (n: usize)
    ensures
        n == entries(*m).len(),
{
    m.len()
}

/// `IndexMap::get_index`: the key and the value of the entry at position `i` in
/// the order, and nothing when `i` is not below the number of entries.
#[verifier::external_body]
pub(crate) fn table_entry_at(m: &IndexMap<String, TestResult>, i: usize) -> (r: Option<
    (&String, &TestResult),
>)
    ensures
        match r {
            Some(kv) => i < entries(*m).len() && kv.0@ == entries(*m)[i as int].0 && kv.1@
                == entries(*m)[i as int].1,
            None => i >= entries(*m).len(),
        },
{
    m.get_index(i)
}

/// `IndexMap::get`: the value of the entry under `key`, and nothing when no
/// entry is under it.
#[verifier::external_body]
pub(crate) fn table_get<'a>(m: &'a IndexMap<String, TestResult>, key: &str) -> (r: Option<
    &'a TestResult,
>)
    ensures
        match r {
            Some(t) => key_index(entries(*m), key@) >= 0 && t@ == entries(*m)[key_index(
                entries(*m),
                key@,
            )].1,
            None => key_index(entries(*m), key@) < 0,
        },
{
    m.get(key)
}

} // verus!
