//! The sources of randomness that the workload draws on. What is said of
//! the generators is not proved: it is what their documentation and source
//! promise of every outcome.

use rand::distributions::{Alphanumeric, DistString, Distribution, WeightedIndex};
use rand::Rng;
use uuid::Uuid;
use vstd::prelude::*;

verus! {

/// A `WeightedIndex` of rand over integer weights: a table for drawing an
/// index with a chance in proportion to its weight.
#[verifier::external_body]
pub struct WeightedTable {
    index: WeightedIndex<usize>,
}

/// The weights that a weighted table was made from, in their order.
pub uninterp spec fn table_weights(table: WeightedTable) -> Seq<usize>;

/// Sum of the weights.
pub open spec fn total_weight(weights: Seq<usize>) -> nat
    decreases weights.len(),
{
    if weights.len() == 0 {
        0
    } else {
        total_weight(weights.drop_last()) + weights.last() as nat
    }
}

/// Whether 128 bits are an identifier of version four: the version's four
/// bits say four, the variant's two bits say two.
pub open spec fn is_random_key(key: u128) -> bool {
    (key >> 76) & 0xf == 4 && (key >> 62) & 0x3 == 2
}

/// ASCII letters and digits.
pub open spec fn is_alphanumeric(c: char) -> bool {
    ('a' <= c && c <= 'z') || ('A' <= c && c <= 'Z') || ('0' <= c && c <= '9')
}

/// `WeightedIndex::new` of rand. The table is made if there is a weight and
/// not all weights are zero, and it then stands for exactly these weights.
/// The sum of the weights has to fit the integer type, since rand adds them
/// up.
#[verifier::external_body]
pub(crate) fn weighted_table(weights: &Vec<usize>) -> (table: Option<WeightedTable>)
    requires
        total_weight(weights@) <= usize::MAX,
    ensures
        table.is_some() == (weights@.len() > 0 && total_weight(weights@) > 0),
        table.is_some() ==> table_weights(table.unwrap()) == weights@,
{
    WeightedIndex::new(weights).ok().map(|index| WeightedTable { index })
}

/// `WeightedIndex::sample` of rand, on the thread's generator: an index into
/// the weights, never one whose weight is zero.
#[verifier::external_body]
pub(crate) fn weighted_pick(table: &WeightedTable) -> (index: usize)
    ensures
        index < table_weights(*table).len(),
        table_weights(*table)[index as int] > 0,
{
    table.index.sample(&mut rand::thread_rng())
}

/// `Rng::gen_range` of rand over `0..bound`, on the thread's generator: a
/// number below `bound`. rand panics on an empty range.
#[verifier::external_body]
pub(crate) fn uniform_below(bound: u64) -> (number: u64)
    requires
        bound > 0,
    ensures
        number < bound,
{
    rand::thread_rng().gen_range(0..bound)
}

/// A random index below `len`.
pub(crate) fn uniform_index(len: usize) -> (index: usize)
    requires
        len > 0,
    ensures
        index < len,
{
    uniform_below(len as u64) as usize
}

/// A random number from `low` up to, not including, `high`.
pub(crate) fn uniform_between(low: i64, high: i64) -> (value: i64)
    requires
        low < high,
    ensures
        low <= value < high,
{
    value_at(low, uniform_below(span(low, high)))
}

/// A random number of 32 bits.
pub(crate) fn random_u32() -> (number: u32) {
    uniform_below(0x1_0000_0000) as u32
}

/// Number of values from `low` up to, not including, `high`.
pub(crate) fn span(low: i64, high: i64) -> (width: u64)
    requires
        low < high,
    ensures
        width == high - low,
{
    (high as i128 - low as i128) as u64
}

/// The value at the place `draw` of a range that begins at `low`.
pub(crate) fn value_at(low: i64, draw: u64) -> (value: i64)
    requires
        low + draw <= i64::MAX,
    ensures
        value == low + draw,
{
    (low as i128 + draw as i128) as i64
}

/// `Alphanumeric.sample_string` of rand, on the thread's generator: `len`
/// characters, each an ASCII letter or digit.
#[verifier::external_body]
pub(crate) fn alphanumeric_string(len: usize) -> (text: String)
    ensures
        text@.len() == len,
        forall|i: int| 0 <= i < text@.len() ==> is_alphanumeric(#[trigger] text@[i]),
{
    Alphanumeric.sample_string(&mut rand::thread_rng(), len)
}

/// `Uuid::new_v4` of uuid, as its 128 bits: a random identifier of version
/// four, which fixes the version's four bits and the variant's two.
#[verifier::external_body]
pub(crate) fn random_key() -> (key: u128)
    ensures
        is_random_key(key),
{
    Uuid::new_v4().as_u128()
}

} // verus!
