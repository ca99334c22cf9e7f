use skylar::scrape::{
    highest_latencies, highest_latencies_matching, max_latency_metrics, net, net_matching,
    total_read_metrics, total_write_metrics, Counted, ScrapeError,
};

fn latency(operation: &str, shard: u32, value: &str) -> String {
    format!(
        "scylla_storage_proxy_coordinator_{}_latency_summary{{quantile=\"0.990000\",scheduling_group_name=\"sl:default\",shard=\"{}\"}} {}",
        operation, shard, value
    )
}

fn sorted(mut table: Vec<(String, i64)>) -> Vec<(String, i64)> {
    table.sort();
    table
}

#[test]
fn highest_latency_per_operation() {
    let response = [
        "# HELP scylla_storage_proxy_coordinator_read_latency_summary Read latency summary".to_string(),
        latency("read", 0, "120"),
        latency("write", 0, "80"),
        latency("read", 1, "450"),
        latency("write", 1, "60"),
        latency("read", 2, "300"),
        "scylla_cql_reads{shard=\"0\"} 7".to_string(),
    ]
    .join("\n");
    let table = max_latency_metrics(&response).unwrap();
    assert_eq!(sorted(table), vec![("read".to_string(), 450), ("write".to_string(), 80)]);
}

#[test]
fn operations_come_once_in_the_order_they_are_first_seen() {
    let response = [latency("write", 0, "5"), latency("read", 0, "9"), latency("write", 1, "7")].join("\n");
    assert_eq!(
        max_latency_metrics(&response),
        Ok(vec![("write".to_string(), 7), ("read".to_string(), 9)])
    );
}

#[test]
fn only_the_99th_percentile_counts() {
    let other = "scylla_storage_proxy_coordinator_read_latency_summary{quantile=\"0.500000\",scheduling_group_name=\"x\",shard=\"0\"} 999";
    let response = format!("{}\n{}", other, latency("read", 0, "3"));
    assert_eq!(max_latency_metrics(&response), Ok(vec![("read".to_string(), 3)]));
}

#[test]
fn a_latency_that_does_not_fit_counts_as_zero() {
    let response = [latency("read", 0, "99999999999999999999"), latency("write", 0, "4")].join("\r\n");
    assert_eq!(
        sorted(max_latency_metrics(&response).unwrap()),
        vec![("read".to_string(), 0), ("write".to_string(), 4)]
    );
}

#[test]
fn no_latency_is_an_error() {
    assert_eq!(max_latency_metrics(""), Err(ScrapeError::NoLatencyData));
    assert_eq!(max_latency_metrics("scylla_cql_reads{shard=\"0\"} 7\n"), Err(ScrapeError::NoLatencyData));
}

#[test]
fn reads_of_clients_are_all_reads_less_the_internal_ones() {
    let response = "\
scylla_cql_reads{shard=\"0\"} 100
scylla_cql_reads{shard=\"1\"} 250
scylla_cql_reads_per_ks{ks=\"system\", shard=\"0\", who=\"internal\"} 40
scylla_cql_reads_per_ks{ks=\"system\", shard=\"1\", who=\"internal\"} 10
scylla_cql_reads_per_ks{ks=\"skylar\", shard=\"1\", who=\"user\"} 5000
scylla_cql_inserts{conditional=\"no\", shard=\"0\"} 77
";
    assert_eq!(total_read_metrics(response), Ok(300));
}

#[test]
fn writes_of_clients_are_all_inserts_less_the_internal_ones() {
    let response = "\
scylla_cql_inserts{conditional=\"no\", shard=\"0\"} 500
scylla_cql_inserts{conditional=\"yes\", shard=\"0\"} 11
scylla_cql_inserts_per_ks{conditional=\"no\", ks=\"system\", shard=\"0\", who=\"internal\"} 20
scylla_cql_inserts_per_ks{conditional=\"no\", ks=\"skylar\", shard=\"0\", who=\"user\"} 9999
scylla_cql_reads{shard=\"0\"} 100
";
    assert_eq!(total_write_metrics(response), Ok(491));
}

#[test]
fn nothing_counted_is_zero() {
    assert_eq!(total_read_metrics(""), Ok(0));
    assert_eq!(total_write_metrics("# nothing here\n"), Ok(0));
}

#[test]
fn more_internal_than_total_is_negative() {
    let response = "scylla_cql_reads_per_ks{ks=\"system\", shard=\"0\", who=\"internal\"} 40\n";
    assert_eq!(total_read_metrics(response), Ok(-40));
}

#[test]
fn a_count_beyond_64_bits_is_out_of_range() {
    let response = "\
scylla_cql_reads{shard=\"0\"} 9223372036854775807
scylla_cql_reads{shard=\"1\"} 1
";
    assert_eq!(total_read_metrics(response), Err(ScrapeError::OutOfRange));
    let response = "\
scylla_cql_reads{shard=\"0\"} 9223372036854775807
scylla_cql_reads{shard=\"1\"} 1
scylla_cql_reads_per_ks{ks=\"system\", shard=\"0\", who=\"internal\"} 1
";
    assert_eq!(total_read_metrics(response), Ok(i64::MAX));
}

#[test]
fn highest_latencies_of_given_samples() {
    let samples = vec![
        ("read".to_string(), 5),
        ("write".to_string(), 9),
        ("read".to_string(), 7),
        ("read".to_string(), 6),
        ("scan".to_string(), -1),
        ("write".to_string(), 9),
    ];
    assert_eq!(
        highest_latencies(samples),
        vec![("read".to_string(), 7), ("write".to_string(), 9), ("scan".to_string(), -1)]
    );
    assert_eq!(highest_latencies(Vec::new()), Vec::new());
}

#[test]
fn net_of_given_counts() {
    assert_eq!(net(&Vec::new()), Ok(0));
    assert_eq!(
        net(&vec![Counted::Total(10), Counted::Nothing, Counted::Internal(4), Counted::Total(1)]),
        Ok(7)
    );
    assert_eq!(net(&vec![Counted::Internal(i64::MIN)]), Err(ScrapeError::OutOfRange));
    assert_eq!(net(&vec![Counted::Total(i64::MIN)]), Ok(i64::MIN));
    assert_eq!(
        net(&vec![Counted::Total(i64::MAX), Counted::Total(i64::MAX), Counted::Internal(i64::MAX)]),
        Ok(i64::MAX)
    );
    assert_eq!(
        net(&vec![Counted::Total(i64::MIN), Counted::Total(-1)]),
        Err(ScrapeError::OutOfRange)
    );
}

#[test]
fn a_pattern_that_does_not_compile_is_an_error() {
    assert_eq!(highest_latencies_matching("(unclosed", "a 1"), Err(ScrapeError::BadPattern));
    assert_eq!(net_matching("(unclosed", "x", "a 1"), Err(ScrapeError::BadPattern));
    assert_eq!(net_matching("x", "[", "a 1"), Err(ScrapeError::BadPattern));
}

#[test]
fn figures_by_patterns_of_the_caller() {
    let response = "up a 1 5\nup b 1 7\nup a 2 9\ndown a 1 3\n";
    assert_eq!(
        highest_latencies_matching("up (\\w+) (\\d+) (\\d+)", response),
        Ok(vec![("a".to_string(), 9), ("b".to_string(), 7)])
    );
    // A pattern with one group matches but holds no latency.
    assert_eq!(
        highest_latencies_matching("up (\\w+)", response),
        Err(ScrapeError::NoLatencyData)
    );
    assert_eq!(net_matching("up (\\w+) \\d+ (\\d+)", "down (\\w+) \\d+ (\\d+)", response), Ok(18));
    // A line that matches both counts towards all only.
    assert_eq!(net_matching("(\\w+) (\\w+)", "down (\\w+) \\d+ (\\d+)", response), Ok(0));
}

#[test]
fn long_responses_are_read_line_by_line() {
    let mut response = String::new();
    for shard in 0..20_000u32 {
        response.push_str(&latency("read", shard, &shard.to_string()));
        response.push('\n');
        response.push_str(&format!("scylla_cql_reads{{shard=\"{}\"}} 3\r\n", shard));
    }
    assert_eq!(max_latency_metrics(&response), Ok(vec![("read".to_string(), 19_999)]));
    assert_eq!(total_read_metrics(&response), Ok(60_000));
}
