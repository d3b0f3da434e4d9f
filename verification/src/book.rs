//! The position book: the concurrent map that records a share count under
//! each symbol, and the few calls that the ledger makes into it.
//!
//! Nothing in this file is proved. Each function states what the map's own
//! method does, over [`book_entries`], and the ledger is verified against
//! those statements.

use dashmap::DashMap;
use vstd::prelude::*;

verus! {

/// `dashmap::DashMap`, carried as a value whose inside is not looked at.
#[verifier::external_type_specification]
#[verifier::external_body]
#[verifier::reject_recursive_types(K)]
#[verifier::reject_recursive_types(V)]
#[verifier::reject_recursive_types(S)]
pub struct ExDashMap<K, V, S>(DashMap<K, V, S>);

/// What a `DashMap` of counts holds: the count stored under each symbol that
/// has an entry.
pub uninterp spec fn book_entries(book: DashMap<String, u64>) -> Map<Seq<char>, u64>;

/// `pairs` lists `entries`: every pair is an entry, no symbol comes twice,
/// and every entry is among the pairs. The order is left open.
pub open spec fn lists(pairs: Seq<(String, u64)>, entries: Map<Seq<char>, u64>) -> bool {
    &&& forall|i: int|
        0 <= i < pairs.len() ==> entries.contains_key((#[trigger] pairs[i]).0@) && entries[pairs[i].0@]
            == pairs[i].1
    &&& forall|i: int, j: int|
        0 <= i < j < pairs.len() ==> (#[trigger] pairs[i]).0@ != (#[trigger] pairs[j]).0@
    &&& forall|symbol: Seq<char>| #[trigger]
        entries.contains_key(symbol) ==> exists|i: int|
            0 <= i < pairs.len() && (#[trigger] pairs[i]).0@ == symbol
}

/// `DashMap::new`: the new map has no entry.
#[verifier::external_body]
pub(crate) fn book_new() -> (book: DashMap<String, u64>)
    ensures
        forall|symbol: Seq<char>| !book_entries(book).contains_key(symbol),
{
    DashMap::new()
}

/// `DashMap::get`: the count stored under `symbol`, or `None` where the map
/// has no entry for it. Symbols are compared as strings, character by
/// character.
#[verifier::external_body]
pub(crate) fn book_get(book: &DashMap<String, u64>, symbol: &str) -> (found: Option<u64>)
    ensures
        found == (if book_entries(*book).contains_key(symbol@) {
            Some(book_entries(*book)[symbol@])
        } else {
            None
        }),
{
    book.get(symbol).map(|entry| *entry.value())
}

/// `DashMap::insert`: afterwards `symbol` stores `quantity`, in place of what
/// it stored before if it had an entry; every other entry is as it was.
#[verifier::external_body]
pub(crate) fn book_insert(book: &mut DashMap<String, u64>, symbol: String, quantity: u64)
    ensures
        book_entries(*final(book)) == book_entries(*old(book)).insert(symbol@, quantity),
{
    book.insert(symbol, quantity);
}

/// `DashMap::iter`, drained into a vector: each entry of the map once, as a
/// copy of its symbol and its count, in whatever order the map walks them.
#[verifier::external_body]
pub(crate) fn book_list(book: &DashMap<String, u64>) -> (pairs: Vec<(String, u64)>)
    ensures
        lists(pairs@, book_entries(*book)),
{
    book.iter().map(|entry| (entry.key().clone(), *entry.value())).collect()
}

} // verus!
