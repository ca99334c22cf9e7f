//! The contract of a workload: the rows it writes and the keys it reads.

use vstd::prelude::*;

verus! {

/// A row that a writer inserts.
pub trait WritePayload: Send + Sync + 'static {
    /// The key sets that the rows draw their keys from.
    type Keys;

    /// The text of the statement that inserts a row.
    spec fn insert_text() -> Seq<char>;

    /// What holds of every row that is generated over `keys`.
    spec fn generated(keys: &Self::Keys, row: &Self) -> bool;

    /// The statement that inserts a row, with one marker per column.
    fn insert_query() -> (query: &'static str)
        ensures
            query@ == Self::insert_text(),
    ;

    /// Generates a row, its keys picked from `keys`.
    fn insert_values(keys: &Self::Keys) -> (row: Self) where Self: Sized
        ensures
            Self::generated(keys, &row),
    ;
}

/// The values that a reader selects rows by.
pub trait ReadPayload: Send + Sync + 'static {
    /// The key sets that the values draw their keys from.
    type Keys;

    /// The text of the statement that selects rows.
    spec fn select_text() -> Seq<char>;

    /// What holds of all values that are generated over `keys`.
    spec fn generated(keys: &Self::Keys, values: &Self) -> bool;

    /// The statement that selects rows, with one marker per value.
    fn select_query() -> (query: &'static str)
        ensures
            query@ == Self::select_text(),
    ;

    /// Generates the values of one read, its keys picked from `keys`.
    fn select_values(keys: &Self::Keys) -> (values: Self) where Self: Sized
        ensures
            Self::generated(keys, &values),
    ;
}

} // verus!
