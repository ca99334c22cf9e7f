use skylar::cache::DDL_CACHE;
use skylar::connection::{schema, tablets_enabled, Consistency};
use skylar::migration::{fill, migration_queries, migration_statements, statements};
use skylar::tasks::PayloadKind;
use skylar::timeseries::DDL_TIMESERIES;

#[test]
fn consistency_levels_by_name() {
    assert_eq!(Consistency::from_name("ONE"), Consistency::One);
    assert_eq!(Consistency::from_name("TWO"), Consistency::Two);
    assert_eq!(Consistency::from_name("THREE"), Consistency::Three);
    assert_eq!(Consistency::from_name("QUORUM"), Consistency::Quorum);
    assert_eq!(Consistency::from_name("ALL"), Consistency::All);
    assert_eq!(Consistency::from_name("LOCAL_QUORUM"), Consistency::LocalQuorum);
    assert_eq!(Consistency::from_name("EACH_QUORUM"), Consistency::EachQuorum);
    assert_eq!(Consistency::from_name("SERIAL"), Consistency::Serial);
    assert_eq!(Consistency::from_name("LOCAL_SERIAL"), Consistency::LocalSerial);
    assert_eq!(Consistency::from_name("LOCAL_ONE"), Consistency::LocalOne);
}

#[test]
fn consistency_names_in_any_case() {
    assert_eq!(Consistency::from_name("one"), Consistency::One);
    assert_eq!(Consistency::from_name("Local_One"), Consistency::LocalOne);
    assert_eq!(Consistency::from_name("each_quorum"), Consistency::EachQuorum);
    assert_eq!(Consistency::from_name("sErIaL"), Consistency::Serial);
}

#[test]
fn unknown_consistency_is_local_quorum() {
    assert_eq!(Consistency::from_name(""), Consistency::LocalQuorum);
    assert_eq!(Consistency::from_name("ANY"), Consistency::LocalQuorum);
    assert_eq!(Consistency::from_name(" ONE"), Consistency::LocalQuorum);
    assert_eq!(Consistency::from_name("LOCAL-ONE"), Consistency::LocalQuorum);
}

#[test]
fn upper_case_names_are_taken_as_they_are() {
    assert_eq!(Consistency::from_upper("ALL"), Consistency::All);
    assert_eq!(Consistency::from_upper("all"), Consistency::LocalQuorum);
}

#[test]
fn each_workload_has_its_schema() {
    assert_eq!(schema(PayloadKind::Timeseries), DDL_TIMESERIES);
    assert_eq!(schema(PayloadKind::Cache), DDL_CACHE);
}

#[test]
fn tablets_are_enabled_unless_there_are_none() {
    assert_eq!(tablets_enabled(0), "false");
    assert_eq!(tablets_enabled(1), "true");
    assert_eq!(tablets_enabled(3000), "true");
}

#[test]
fn template_is_filled_in() {
    let template = "\n  A <RF>;\n  B <TABLETS> <TABLETS_ENABLED>\n";
    assert_eq!(fill(template, 3, 3000), "A 3;   B 3000 true");
    assert_eq!(fill(template, -1, 0), "A -1;   B 0 false");
    assert_eq!(fill("", 3, 1), "");
    assert_eq!(fill("<RF><RF>", 12, 1), "1212");
}

#[test]
fn comments_and_empty_statements_are_not_run() {
    let pieces: Vec<String> =
        vec!["USE x", "", "-- note", " -- kept", "--", "-", " "].into_iter().map(String::from).collect();
    assert_eq!(statements(&pieces), vec!["USE x;", " -- kept;", "-;", " ;"]);
    assert_eq!(statements(&Vec::new()), Vec::<String>::new());
}

#[test]
fn statements_are_split_at_semicolons() {
    assert_eq!(
        migration_statements(" USE a;\nCREATE b (<RF>);; ", 2, 0),
        vec!["USE a;", " CREATE b (2);"]
    );
    assert_eq!(migration_statements("", 2, 0), Vec::<String>::new());
    assert_eq!(migration_statements(";", 2, 0), Vec::<String>::new());
}

#[test]
fn cache_schema_takes_three_statements() {
    let queries = migration_queries(PayloadKind::Cache, 3, 0);
    assert_eq!(queries.len(), 3);
    assert_eq!(
        queries[0],
        "CREATE KEYSPACE IF NOT EXISTS skylar WITH replication =     \
         {'class': 'NetworkTopologyStrategy', 'replication_factor': 3};"
    );
    assert_eq!(queries[1], "      USE skylar;");
    assert!(queries[2].trim_start().starts_with("CREATE TABLE IF NOT EXISTS skylar.cache"));
    assert!(queries[2].ends_with(");"));
    for query in queries {
        assert!(!query.contains('\n'));
        assert!(!query.contains('<'));
    }
}

#[test]
fn timeseries_schema_fills_in_the_tablets() {
    let queries = migration_queries(PayloadKind::Timeseries, 1, 3000);
    assert_eq!(queries.len(), 3);
    assert!(queries[0].contains("'replication_factor': 1}"));
    assert!(queries[0].contains("tablets = {'enabled': true, 'initial': 3000};"));
    let queries = migration_queries(PayloadKind::Timeseries, 5, 0);
    assert!(queries[0].contains("'replication_factor': 5}"));
    assert!(queries[0].contains("tablets = {'enabled': false, 'initial': 0};"));
}

#[test]
fn migration_agrees_with_the_standard_library() {
    for (ddl, payload) in [(DDL_TIMESERIES, PayloadKind::Timeseries), (DDL_CACHE, PayloadKind::Cache)] {
        let filled = ddl
            .trim()
            .replace('\n', " ")
            .replace("<RF>", "3")
            .replace("<TABLETS>", "16")
            .replace("<TABLETS_ENABLED>", "true");
        let mut expected = Vec::new();
        for piece in filled.split(';') {
            let query = piece.to_owned() + ";";
            if !query.starts_with("--") && query.len() > 1 {
                expected.push(query);
            }
        }
        assert_eq!(migration_queries(payload, 3, 16), expected);
    }
}
