//! Figures read out of the text that the store's metrics endpoint serves:
//! the highest latency of each operation, and the reads and writes that
//! clients caused.

use crate::pattern::{captures, compile, compiles, group_texts, leftmost_match, pattern_text};
use crate::text::{lines, lines_of, parse_i64, parsed_i64, texts_of};
use regex::Regex;
use vstd::prelude::*;

verus! {

/// A line with the 99th percentile of an operation's latency on one shard:
/// the operation, the shard and the latency.
pub const MAX_LATENCY_PATTERN: &'static str =
    "scylla_storage_proxy_coordinator_(\\w+)_latency_summary\\{quantile=\"0\\.990000\",.*,shard=\"(\\d+)\"\\} (\\d+)";

/// A line with the reads of one shard: the shard and the count.
pub const TOTAL_READS_PATTERN: &'static str = "scylla_cql_reads\\{shard=\"(\\d+)\"\\} (\\d+)";

/// A line with the reads that the store itself made on one shard.
pub const INTERNAL_READS_PATTERN: &'static str =
    "scylla_cql_reads_per_ks\\{ks=\"system\", shard=\"(\\d+)\", who=\"internal\"\\} (\\d+)";

/// A line with the inserts of one shard: the shard and the count.
pub const TOTAL_WRITES_PATTERN: &'static str =
    "scylla_cql_inserts\\{conditional.+?shard=\"(\\d+)\"\\} (\\d+)";

/// A line with the inserts that the store itself made on one shard.
pub const INTERNAL_WRITES_PATTERN: &'static str =
    "scylla_cql_inserts_per_ks\\{conditional.+?ks=\"system\", shard=\"(\\d+)\", who=\"internal\"\\} (\\d+)";

/// Why no figure could be read.
#[derive(Clone, Copy, Debug, PartialEq, Eq, Structural)]
pub enum ScrapeError {
    /// A pattern did not compile.
    BadPattern,
    /// No line held a latency.
    NoLatencyData,
    /// The count does not fit 64 bits with a sign.
    OutOfRange,
}

/// The capture group at `index`, if there is one and it took part in the
/// match.
pub open spec fn group_at(groups: Seq<Option<Seq<char>>>, index: int) -> Option<Seq<char>> {
    if 0 <= index < groups.len() {
        groups[index]
    } else {
        None
    }
}

/// The number that a text denotes, or zero where it denotes none that fits.
pub open spec fn number_or_zero(text: Seq<char>) -> i64 {
    match parsed_i64(text) {
        Some(number) => number,
        None => 0,
    }
}

/// The operation and the latency that a line holds, if it holds one: the
/// first and the third group of the pattern's match.
pub open spec fn spec_latency_sample(pattern: Seq<char>, line: Seq<char>) -> Option<
    (Seq<char>, i64),
> {
    match leftmost_match(pattern, line) {
        Some(groups) => match (group_at(groups, 1), group_at(groups, 3)) {
            (Some(operation), Some(latency)) => Some((operation, number_or_zero(latency))),
            _ => None,
        },
        None => None,
    }
}

/// The latencies that the lines hold, in the order of the lines.
pub open spec fn spec_latency_samples(pattern: Seq<char>, lines: Seq<Seq<char>>) -> Seq<
    (Seq<char>, i64),
>
    decreases lines.len(),
{
    if lines.len() == 0 {
        Seq::empty()
    } else {
        let before = spec_latency_samples(pattern, lines.drop_last());
        match spec_latency_sample(pattern, lines.last()) {
            Some(sample) => before.push(sample),
            None => before,
        }
    }
}

/// The highest latency among the samples of an operation, if it has one.
pub open spec fn highest(samples: Seq<(Seq<char>, i64)>, operation: Seq<char>) -> Option<i64>
    decreases samples.len(),
{
    if samples.len() == 0 {
        None
    } else {
        let before = highest(samples.drop_last(), operation);
        let last = samples.last();
        if last.0 != operation {
            before
        } else {
            match before {
                Some(latency) if latency >= last.1 => Some(latency),
                _ => Some(last.1),
            }
        }
    }
}

/// Whether a table lists each operation of the samples once, with its
/// highest latency, and nothing else.
pub open spec fn is_highest_table(
    table: Seq<(String, i64)>,
    samples: Seq<(Seq<char>, i64)>,
) -> bool {
    &&& forall|i: int|
        0 <= i < table.len() ==> highest(samples, (#[trigger] table[i]).0@) == Some(table[i].1)
    &&& forall|i: int, j: int|
        0 <= i < j < table.len() ==> (#[trigger] table[i]).0@ != (#[trigger] table[j]).0@
    &&& forall|operation: Seq<char>|
        (#[trigger] highest(samples, operation)) is Some ==> exists|i: int|
            0 <= i < table.len() && (#[trigger] table[i]).0@ == operation
}

/// What a line counts.
#[derive(Clone, Copy, Debug, PartialEq, Eq, Structural)]
pub enum Counted {
    /// So many of all.
    Total(i64),
    /// So many of the store's own.
    Internal(i64),
    /// The line counts nothing.
    Nothing,
}

/// The count in a capture group, or zero where the group is missing.
pub open spec fn count_in(group: Option<Seq<char>>) -> i64 {
    match group {
        Some(text) => number_or_zero(text),
        None => 0,
    }
}

/// What a line counts: a line that matches `total` counts towards all with
/// its second group, and else a line that matches `internal` counts towards
/// the store's own with its second group.
pub open spec fn spec_counted(total: Seq<char>, internal: Seq<char>, line: Seq<char>) -> Counted {
    match leftmost_match(total, line) {
        Some(groups) => Counted::Total(count_in(group_at(groups, 2))),
        None => match leftmost_match(internal, line) {
            Some(groups) => Counted::Internal(count_in(group_at(groups, 2))),
            None => Counted::Nothing,
        },
    }
}

/// What each of the lines counts.
pub open spec fn spec_counted_lines(
    total: Seq<char>,
    internal: Seq<char>,
    lines: Seq<Seq<char>>,
) -> Seq<Counted> {
    lines.map_values(|line: Seq<char>| spec_counted(total, internal, line))
}

/// What clients caused: all that is counted, less the store's own.
pub open spec fn net_of(counted: Seq<Counted>) -> int
    decreases counted.len(),
{
    if counted.len() == 0 {
        0
    } else {
        net_of(counted.drop_last()) + match counted.last() {
            Counted::Total(count) => count as int,
            Counted::Internal(count) => -(count as int),
            Counted::Nothing => 0,
        }
    }
}

/// What clients caused, as it is reported: the number itself where it fits
/// 64 bits with a sign.
pub open spec fn spec_net(counted: Seq<Counted>) -> Result<i64, ScrapeError> {
    let number = net_of(counted);
    if i64::MIN <= number <= i64::MAX {
        Ok(number as i64)
    } else {
        Err(ScrapeError::OutOfRange)
    }
}

/// What clients caused according to a response, as it is reported.
pub open spec fn spec_reported(
    total: Seq<char>,
    internal: Seq<char>,
    response: Seq<char>,
) -> Result<i64, ScrapeError> {
    if !compiles(total) || !compiles(internal) {
        Err(ScrapeError::BadPattern)
    } else {
        spec_net(spec_counted_lines(total, internal, lines_of(response)))
    }
}

/// The text of the capture group at `index`.
fn group(groups: &Vec<Option<String>>, index: usize) -> (text: Option<&String>)
    ensures
        match text {
            Some(text) => group_at(group_texts(groups@), index as int) == Some(text@),
            None => group_at(group_texts(groups@), index as int) is None,
        },
{
    if index < groups.len() {
        match &groups[index] {
            Some(text) => Some(text),
            None => None,
        }
    } else {
        None
    }
}

/// The number that a text denotes, or zero where it denotes none that fits.
fn count(text: &str) -> (number: i64)
    ensures
        number == number_or_zero(text@),
{
    match parse_i64(text) {
        Some(number) => number,
        None => 0,
    }
}

/// The operation and the latency that a line holds, if it holds one.
fn latency_sample(pattern: &Regex, line: &str) -> (sample: Option<(String, i64)>)
    ensures
        match sample {
            Some(sample) => spec_latency_sample(pattern_text(*pattern), line@) == Some(
                (sample.0@, sample.1),
            ),
            None => spec_latency_sample(pattern_text(*pattern), line@) is None,
        },
{
    match captures(pattern, line) {
        Some(groups) => match (group(&groups, 1), group(&groups, 3)) {
            (Some(operation), Some(latency)) => Some((operation.clone(), count(latency.as_str()))),
            _ => None,
        },
        None => None,
    }
}

/// One more sample leaves the highest latency of every other operation as
/// it was and raises that of its own operation to itself, if it is higher.
proof fn lemma_highest_push(samples: Seq<(Seq<char>, i64)>, sample: (Seq<char>, i64))
    ensures
        forall|operation: Seq<char>|
            operation != sample.0 ==> #[trigger] highest(samples.push(sample), operation)
                == highest(samples, operation),
        highest(samples.push(sample), sample.0) == match highest(samples, sample.0) {
            Some(latency) if latency >= sample.1 => Some(latency),
            _ => Some(sample.1),
        },
{
    assert(samples.push(sample).drop_last() =~= samples);
}

/// Takes a sample into the table of highest latencies.
fn record(
    table: &mut Vec<(String, i64)>,
    operation: String,
    latency: i64,
    Ghost(samples): Ghost<Seq<(Seq<char>, i64)>>,
)
    requires
        is_highest_table(old(table)@, samples),
    ensures
        is_highest_table(final(table)@, samples.push((operation@, latency))),
        final(table)@.len() > 0,
{
    let ghost before = table@;
    let ghost after = samples.push((operation@, latency));
    let mut i: usize = 0;
    while i < table.len()
        invariant
            i <= table.len(),
            table@ == before,
            is_highest_table(before, samples),
            after == samples.push((operation@, latency)),
            forall|k: int| 0 <= k < i ==> (#[trigger] table@[k]).0@ != operation@,
        decreases table.len() - i,
    {
        if table[i].0 == operation {
            if table[i].1 < latency {
                table.set(i, (operation, latency));
            }
            proof {
                let found = i as int;
                lemma_highest_push(samples, (operation@, latency));
                assert(before[found].0@ == operation@);
                assert(highest(samples, before[found].0@) == Some(before[found].1));
                assert forall|k: int| 0 <= k < table@.len() implies highest(
                    after,
                    (#[trigger] table@[k]).0@,
                ) == Some(table@[k].1) by {
                    if k < found {
                        assert(table@[k] == before[k]);
                        assert(before[k].0@ != before[found].0@);
                    } else if k > found {
                        assert(table@[k] == before[k]);
                        assert(before[found].0@ != before[k].0@);
                    }
                }
                assert forall|k: int, j: int| 0 <= k < j < table@.len() implies (
                #[trigger] table@[k]).0@ != (#[trigger] table@[j]).0@ by {
                    assert(before[k].0@ == table@[k].0@);
                    assert(before[j].0@ == table@[j].0@);
                }
                assert forall|other: Seq<char>| (#[trigger] highest(after, other)) is Some implies exists|
                    k: int,
                | 0 <= k < table@.len() && (#[trigger] table@[k]).0@ == other by {
                    if other == operation@ {
                        assert(table@[found].0@ == other);
                    } else {
                        assert(highest(samples, other) is Some);
                        let k = choose|k: int|
                            0 <= k < before.len() && (#[trigger] before[k]).0@ == other;
                        assert(table@[k].0@ == other);
                    }
                }
            }
            return ;
        }
        i += 1;
    }
    proof {
        lemma_highest_push(samples, (operation@, latency));
        if highest(samples, operation@) is Some {
            let k = choose|k: int| 0 <= k < before.len() && (#[trigger] before[k]).0@ == operation@;
            assert(table@[k].0@ != operation@);
        }
    }
    table.push((operation, latency));
    proof {
        let last = table@.len() - 1;
        assert forall|k: int| 0 <= k < table@.len() implies highest(
            after,
            (#[trigger] table@[k]).0@,
        ) == Some(table@[k].1) by {
            if k != last {
                assert(table@[k] == before[k]);
            }
        }
        assert forall|k: int, j: int| 0 <= k < j < table@.len() implies (#[trigger] table@[k]).0@
            != (#[trigger] table@[j]).0@ by {
            assert(table@[k] == before[k]);
            if j != last {
                assert(table@[j] == before[j]);
            }
        }
        assert forall|other: Seq<char>| (#[trigger] highest(after, other)) is Some implies exists|
            k: int,
        | 0 <= k < table@.len() && (#[trigger] table@[k]).0@ == other by {
            if other == operation@ {
                assert(table@[last].0@ == other);
            } else {
                assert(highest(samples, other) is Some);
                let k = choose|k: int| 0 <= k < before.len() && (#[trigger] before[k]).0@ == other;
                assert(table@[k] == before[k]);
            }
        }
    }
}

/// The operations and latencies of a list of samples, as texts.
pub open spec fn sample_texts(samples: Seq<(String, i64)>) -> Seq<(Seq<char>, i64)> {
    samples.map_values(|sample: (String, i64)| (sample.0@, sample.1))
}

/// The highest latency of each operation among the samples, each operation
/// once.
pub fn highest_latencies(samples: Vec<(String, i64)>) -> (table: Vec<(String, i64)>)
    ensures
        is_highest_table(table@, sample_texts(samples@)),
        table@.len() == 0 <==> samples@.len() == 0,
{
    let ghost all = sample_texts(samples@);
    let mut table: Vec<(String, i64)> = Vec::new();
    for sample in it: samples
        invariant
            it.seq() == samples@,
            all == sample_texts(samples@),
            is_highest_table(table@, all.take(it.index() as int)),
            table@.len() == 0 <==> it.index() == 0,
    {
        proof {
            assert(all.take(it.index() + 1) =~= all.take(it.index() as int).push(
                (sample.0@, sample.1),
            ));
        }
        let (operation, latency) = sample;
        record(&mut table, operation, latency, Ghost(all.take(it.index() as int)));
    }
    proof {
        assert(all.take(samples@.len() as int) =~= all);
    }
    table
}

/// The latencies that the lines hold, in the order of the lines.
fn latency_samples(pattern: &Regex, lines: &Vec<String>) -> (samples: Vec<(String, i64)>)
    ensures
        sample_texts(samples@) == spec_latency_samples(pattern_text(*pattern), texts_of(lines@)),
{
    let mut samples: Vec<(String, i64)> = Vec::new();
    let mut i: usize = 0;
    assert(sample_texts(samples@) =~= spec_latency_samples(
        pattern_text(*pattern),
        texts_of(lines@).take(0),
    ));
    while i < lines.len()
        invariant
            i <= lines.len(),
            sample_texts(samples@) == spec_latency_samples(
                pattern_text(*pattern),
                texts_of(lines@).take(i as int),
            ),
        decreases lines.len() - i,
    {
        let ghost before = sample_texts(samples@);
        proof {
            assert(texts_of(lines@).take(i + 1).drop_last() =~= texts_of(lines@).take(i as int));
            assert(texts_of(lines@).take(i + 1).last() == lines@[i as int]@);
        }
        match latency_sample(pattern, lines[i].as_str()) {
            Some(sample) => {
                samples.push(sample);
                assert(sample_texts(samples@) =~= before.push((sample.0@, sample.1)));
            },
            None => {},
        }
        i += 1;
    }
    proof {
        assert(texts_of(lines@).take(i as int) =~= texts_of(lines@));
    }
    samples
}

/// What is reported of the latencies in a response: the table of the
/// highest latency of each operation, or why there is none.
pub open spec fn is_latency_report(
    result: Result<Vec<(String, i64)>, ScrapeError>,
    pattern: Seq<char>,
    response: Seq<char>,
) -> bool {
    match result {
        Ok(table) => {
            &&& compiles(pattern)
            &&& table@.len() > 0
            &&& is_highest_table(table@, spec_latency_samples(pattern, lines_of(response)))
        },
        Err(ScrapeError::BadPattern) => !compiles(pattern),
        Err(ScrapeError::NoLatencyData) => {
            &&& compiles(pattern)
            &&& spec_latency_samples(pattern, lines_of(response)).len() == 0
        },
        Err(ScrapeError::OutOfRange) => false,
    }
}

/// The highest latency of each operation in a response, where a line holds
/// a latency if `pattern` matches it, the operation in the first group and
/// the latency in the third.
pub fn highest_latencies_matching(pattern: &str, response: &str) -> (result: Result<
    Vec<(String, i64)>,
    ScrapeError,
>)
    ensures
        is_latency_report(result, pattern@, response@),
{
    let pattern: Regex = match compile(pattern) {
        Some(pattern) => pattern,
        None => {
            return Err(ScrapeError::BadPattern);
        },
    };
    let lines: Vec<String> = lines(response);
    let samples: Vec<(String, i64)> = latency_samples(&pattern, &lines);
    let table: Vec<(String, i64)> = highest_latencies(samples);
    if table.len() == 0 {
        Err(ScrapeError::NoLatencyData)
    } else {
        Ok(table)
    }
}

/// The highest latency of each operation that the response holds a latency
/// of, each operation once.
pub fn max_latency_metrics(response: &str) -> (result: Result<Vec<(String, i64)>, ScrapeError>)
    ensures
        is_latency_report(result, MAX_LATENCY_PATTERN@, response@),
{
    highest_latencies_matching(MAX_LATENCY_PATTERN, response)
}

/// The count in the second capture group of a match.
fn matched_count(groups: &Vec<Option<String>>) -> (number: i64)
    ensures
        number == count_in(group_at(group_texts(groups@), 2)),
{
    match group(groups, 2) {
        Some(text) => count(text.as_str()),
        None => 0,
    }
}

/// What a line counts.
fn counted(total: &Regex, internal: &Regex, line: &str) -> (counted: Counted)
    ensures
        counted == spec_counted(pattern_text(*total), pattern_text(*internal), line@),
{
    match captures(total, line) {
        Some(groups) => Counted::Total(matched_count(&groups)),
        None => match captures(internal, line) {
            Some(groups) => Counted::Internal(matched_count(&groups)),
            None => Counted::Nothing,
        },
    }
}

/// What each of the lines counts.
fn counted_lines(total: &Regex, internal: &Regex, lines: &Vec<String>) -> (counted: Vec<Counted>)
    ensures
        counted@ == spec_counted_lines(
            pattern_text(*total),
            pattern_text(*internal),
            texts_of(lines@),
        ),
{
    let mut all: Vec<Counted> = Vec::new();
    let mut i: usize = 0;
    while i < lines.len()
        invariant
            i <= lines.len(),
            all@ == spec_counted_lines(
                pattern_text(*total),
                pattern_text(*internal),
                texts_of(lines@),
            ).take(i as int),
        decreases lines.len() - i,
    {
        let ghost before = all@;
        let one: Counted = counted(total, internal, lines[i].as_str());
        all.push(one);
        proof {
            let whole = spec_counted_lines(
                pattern_text(*total),
                pattern_text(*internal),
                texts_of(lines@),
            );
            assert(whole[i as int] == one);
            assert(all@ =~= whole.take(i + 1));
        }
        i += 1;
    }
    proof {
        let whole = spec_counted_lines(
            pattern_text(*total),
            pattern_text(*internal),
            texts_of(lines@),
        );
        assert(whole.take(i as int) =~= whole);
    }
    all
}

/// What clients caused: all that is counted, less the store's own.
pub fn net(counted: &Vec<Counted>) -> (result: Result<i64, ScrapeError>)
    ensures
        result == spec_net(counted@),
{
    let mut number: i128 = 0;
    let mut i: usize = 0;
    while i < counted.len()
        invariant
            i <= counted.len(),
            number == net_of(counted@.take(i as int)),
            -0x8000_0000_0000_0000 * i <= number <= 0x8000_0000_0000_0000 * i,
        decreases counted.len() - i,
    {
        proof {
            assert(counted@.take(i + 1).drop_last() =~= counted@.take(i as int));
        }
        match counted[i] {
            Counted::Total(count) => {
                number = number + count as i128;
            },
            Counted::Internal(count) => {
                number = number - count as i128;
            },
            Counted::Nothing => {},
        }
        i += 1;
    }
    proof {
        assert(counted@.take(i as int) =~= counted@);
    }
    if number < i64::MIN as i128 || number > i64::MAX as i128 {
        Err(ScrapeError::OutOfRange)
    } else {
        Ok(number as i64)
    }
}

/// What clients caused according to a response, where a line counts
/// towards all if `total` matches it and else towards the store's own if
/// `internal` matches it, with the count in the second group.
pub fn net_matching(total: &str, internal: &str, response: &str) -> (result: Result<
    i64,
    ScrapeError,
>)
    ensures
        result == spec_reported(total@, internal@, response@),
{
    let total: Regex = match compile(total) {
        Some(pattern) => pattern,
        None => {
            return Err(ScrapeError::BadPattern);
        },
    };
    let internal: Regex = match compile(internal) {
        Some(pattern) => pattern,
        None => {
            return Err(ScrapeError::BadPattern);
        },
    };
    let lines: Vec<String> = lines(response);
    let counted: Vec<Counted> = counted_lines(&total, &internal, &lines);
    net(&counted)
}

/// The reads that clients caused: all reads that the response counts, less
/// those that it counts as the store's own.
pub fn total_read_metrics(response: &str) -> (result: Result<i64, ScrapeError>)
    ensures
        result == spec_reported(TOTAL_READS_PATTERN@, INTERNAL_READS_PATTERN@, response@),
{
    net_matching(TOTAL_READS_PATTERN, INTERNAL_READS_PATTERN, response)
}

/// The writes that clients caused: all inserts that the response counts,
/// less those that it counts as the store's own.
pub fn total_write_metrics(response: &str) -> (result: Result<i64, ScrapeError>)
    ensures
        result == spec_reported(TOTAL_WRITES_PATTERN@, INTERNAL_WRITES_PATTERN@, response@),
{
    net_matching(TOTAL_WRITES_PATTERN, INTERNAL_WRITES_PATTERN, response)
}

} // verus!
