//! The statements that set up a workload's schema, made from its template.

use crate::connection::{schema, spec_schema, spec_tablets_enabled, tablets_enabled};
use crate::tasks::PayloadKind;
use crate::text::{
    decimal, decimal_digits, replace_all, replaced, signed_decimal, signed_decimal_digits, split,
    split_at, spec_starts_with, starts_with, texts_of, trim, trimmed,
};
use vstd::prelude::*;

verus! {

/// A template with its markers filled in: the white space at both ends
/// goes, each line feed becomes a space, `<RF>` becomes the replication
/// factor, `<TABLETS>` the number of tablets and `<TABLETS_ENABLED>` whether
/// there are any.
pub open spec fn spec_filled(template: Seq<char>, replication_factor: i32, tablets: usize) -> Seq<
    char,
> {
    let on_one_line = replaced(trimmed(template), "\n"@, " "@);
    let with_factor = replaced(
        on_one_line,
        "<RF>"@,
        signed_decimal_digits(replication_factor as int),
    );
    let with_tablets = replaced(with_factor, "<TABLETS>"@, decimal_digits(tablets as nat));
    replaced(with_tablets, "<TABLETS_ENABLED>"@, spec_tablets_enabled(tablets))
}

/// Whether a statement is run: comments and empty statements are not.
pub open spec fn is_run(statement: Seq<char>) -> bool {
    !spec_starts_with(statement, "--"@) && statement.len() > 1
}

/// The statements that are run, out of the pieces between the semicolons:
/// each piece with its semicolon back at the end.
pub open spec fn spec_statements(pieces: Seq<Seq<char>>) -> Seq<Seq<char>>
    decreases pieces.len(),
{
    if pieces.len() == 0 {
        Seq::empty()
    } else {
        let before = spec_statements(pieces.drop_last());
        let statement = pieces.last() + ";"@;
        if is_run(statement) {
            before.push(statement)
        } else {
            before
        }
    }
}

/// The statements that set up a schema from a template, in order.
pub open spec fn spec_migration(template: Seq<char>, replication_factor: i32, tablets: usize) -> Seq<
    Seq<char>,
> {
    spec_statements(split(spec_filled(template, replication_factor, tablets), ';'))
}

/// Fills in the markers of a template.
pub fn fill(template: &str, replication_factor: i32, tablets: usize) -> (filled: String)
    ensures
        filled@ == spec_filled(template@, replication_factor, tablets),
{
    let factor: String = signed_decimal(replication_factor as i64);
    let count: String = decimal(tablets as u64);
    let on_one_line: String = replace_all(trim(template), "\n", " ");
    let with_factor: String = replace_all(on_one_line.as_str(), "<RF>", factor.as_str());
    let with_tablets: String = replace_all(with_factor.as_str(), "<TABLETS>", count.as_str());
    replace_all(with_tablets.as_str(), "<TABLETS_ENABLED>", tablets_enabled(tablets))
}

/// The statements that are run, out of the pieces between the semicolons.
pub fn statements(pieces: &Vec<String>) -> (queries: Vec<String>)
    ensures
        texts_of(queries@) == spec_statements(texts_of(pieces@)),
{
    let mut queries: Vec<String> = Vec::new();
    let mut i: usize = 0;
    assert(texts_of(queries@) =~= spec_statements(texts_of(pieces@).take(0)));
    while i < pieces.len()
        invariant
            i <= pieces.len(),
            texts_of(queries@) == spec_statements(texts_of(pieces@).take(i as int)),
        decreases pieces.len() - i,
    {
        let ghost done = texts_of(queries@);
        proof {
            assert(texts_of(pieces@).take(i + 1).drop_last() =~= texts_of(pieces@).take(i as int));
            assert(texts_of(pieces@).take(i + 1).last() == pieces@[i as int]@);
        }
        let mut query: String = pieces[i].clone();
        query.append(";");
        if !starts_with(query.as_str(), "--") && query.as_str().unicode_len() > 1 {
            queries.push(query);
            assert(texts_of(queries@) =~= done.push(query@));
        }
        i += 1;
    }
    assert(texts_of(pieces@).take(i as int) =~= texts_of(pieces@));
    queries
}

/// The statements that set up a schema from a template, in order.
pub fn migration_statements(template: &str, replication_factor: i32, tablets: usize) -> (queries:
    Vec<String>)
    ensures
        texts_of(queries@) == spec_migration(template@, replication_factor, tablets),
{
    let filled: String = fill(template, replication_factor, tablets);
    let pieces: Vec<String> = split_at(filled.as_str(), ';');
    statements(&pieces)
}

/// The statements that set up the schema of a workload, in order.
pub fn migration_queries(payload: PayloadKind, replication_factor: i32, tablets: usize) -> (queries:
    Vec<String>)
    ensures
        texts_of(queries@) == spec_migration(spec_schema(payload), replication_factor, tablets),
{
    migration_statements(schema(payload), replication_factor, tablets)
}

} // verus!
