use roxigraph::registry::StoreRegistry;
use roxigraph::projector::{QueryOutcome, Table};
use roxigraph::error::RdfError;

fn seeded() -> (StoreRegistry, usize) {
    let mut reg = StoreRegistry::new();
    let h = reg.store_new();
    reg.store_insert(h, "<http://ex/s>", "<http://ex/p>", "\"v\"", None).unwrap();
    (reg, h)
}

fn cell(t: &Table, col: usize, row: usize) -> Option<String> {
    t.columns[col][row].clone()
}

#[test]
fn select_yields_one_column_one_row() {
    let (reg, h) = seeded();
    let out = reg
        .store_query(h, "SELECT ?o WHERE { <http://ex/s> <http://ex/p> ?o }")
        .unwrap();
    match out {
        QueryOutcome::Table(t) => {
            assert_eq!(t.names.len(), 1);
            assert_eq!(t.names[0], "o");
            assert_eq!(t.columns.len(), 1);
            assert_eq!(t.rows(), 1);
            assert_eq!(cell(&t, 0, 0), Some("\"v\"".to_string()));
        }
        _ => panic!("SELECT must yield a table"),
    }
}

#[test]
fn ask_yields_only_a_boolean() {
    let (reg, h) = seeded();
    match reg.store_query(h, "ASK { <http://ex/s> <http://ex/p> \"v\" }").unwrap() {
        QueryOutcome::Bool(b) => assert!(b),
        _ => panic!("ASK must yield a boolean, never a table"),
    }
    match reg.store_query(h, "ASK { <http://ex/s> <http://ex/p> \"absent\" }").unwrap() {
        QueryOutcome::Bool(b) => assert!(!b),
        _ => panic!("ASK must yield a boolean, never a table"),
    }
}

#[test]
fn unbound_variables_are_absent_not_empty() {
    let (mut reg, h) = seeded();
    reg.store_insert(h, "<http://ex/s2>", "<http://ex/p>", "\"w\"", None).unwrap();
    reg.store_insert(h, "<http://ex/s2>", "<http://ex/extra>", "\"x\"", None).unwrap();
    let out = reg
        .store_query(
            h,
            "SELECT ?s ?z WHERE { ?s <http://ex/p> ?o . \
             OPTIONAL { ?s <http://ex/extra> ?z } } ORDER BY ?s",
        )
        .unwrap();
    match out {
        QueryOutcome::Table(t) => {
            assert_eq!(t.names, vec!["s".to_string(), "z".to_string()]);
            assert_eq!(t.rows(), 2);
            assert_eq!(cell(&t, 0, 0), Some("<http://ex/s>".to_string()));
            assert_eq!(cell(&t, 1, 0), None);
            assert_eq!(cell(&t, 0, 1), Some("<http://ex/s2>".to_string()));
            assert_eq!(cell(&t, 1, 1), Some("\"x\"".to_string()));
        }
        _ => panic!("SELECT must yield a table"),
    }
}

#[test]
fn typed_and_tagged_literals_serialize_in_cells() {
    let (mut reg, h) = seeded();
    reg.store_insert(h, "<http://ex/n>", "<http://ex/p>", "\"5\"^^<http://www.w3.org/2001/XMLSchema#integer>", None)
        .unwrap();
    reg.store_insert(h, "<http://ex/l>", "<http://ex/p>", "\"bonjour\"@fr", None).unwrap();
    let out = reg
        .store_query(h, "SELECT ?o WHERE { <http://ex/n> <http://ex/p> ?o }")
        .unwrap();
    match out {
        QueryOutcome::Table(t) => {
            assert_eq!(
                cell(&t, 0, 0),
                Some("\"5\"^^<http://www.w3.org/2001/XMLSchema#integer>".to_string())
            );
        }
        _ => panic!("SELECT must yield a table"),
    }
    let out = reg
        .store_query(h, "SELECT ?o WHERE { <http://ex/l> <http://ex/p> ?o }")
        .unwrap();
    match out {
        QueryOutcome::Table(t) => {
            assert_eq!(cell(&t, 0, 0), Some("\"bonjour\"@fr".to_string()));
        }
        _ => panic!("SELECT must yield a table"),
    }
}

#[test]
fn construct_yields_the_three_column_table() {
    let (reg, h) = seeded();
    let out = reg
        .store_query(
            h,
            "CONSTRUCT { ?s <http://ex/made> ?o } WHERE { ?s <http://ex/p> ?o }",
        )
        .unwrap();
    match out {
        QueryOutcome::Triples(t) => {
            assert_eq!(
                t.names,
                vec!["subject".to_string(), "predicate".to_string(), "object".to_string()]
            );
            assert_eq!(t.rows(), 1);
            assert_eq!(cell(&t, 0, 0), Some("<http://ex/s>".to_string()));
            assert_eq!(cell(&t, 1, 0), Some("<http://ex/made>".to_string()));
            assert_eq!(cell(&t, 2, 0), Some("\"v\"".to_string()));
        }
        _ => panic!("CONSTRUCT must yield a triple table"),
    }
}

#[test]
fn select_with_no_matches_has_columns_but_no_rows() {
    let (reg, h) = seeded();
    let out = reg
        .store_query(h, "SELECT ?s ?o WHERE { ?s <http://ex/absent> ?o }")
        .unwrap();
    match out {
        QueryOutcome::Table(t) => {
            assert_eq!(t.names.len(), 2);
            assert_eq!(t.rows(), 0);
        }
        _ => panic!("SELECT must yield a table"),
    }
}

#[test]
fn query_errors_are_distinguished() {
    let (reg, h) = seeded();
    assert!(matches!(
        reg.store_query(h, "SELECT WHERE THIS IS BROKEN"),
        Err(RdfError::QueryParseError(_))
    ));
}

#[test]
fn failing_evaluation_is_an_execution_error() {
    // a federated SERVICE clause parses but cannot be evaluated in this
    // build, so the failure surfaces at execution time
    let (reg, h) = seeded();
    assert!(matches!(
        reg.store_query(
            h,
            "SELECT ?s WHERE { SERVICE <http://ex/sparql> { ?s ?p ?o } }",
        ),
        Err(RdfError::QueryExecutionError(_))
    ));
}

#[test]
fn error_kinds_have_stable_names() {
    let (mut reg, h) = seeded();
    let e = reg.store_size(h + 9).unwrap_err();
    assert_eq!(e.kind(), "InvalidHandle");
    let e = reg.store_dump(h, "bogus").unwrap_err();
    assert_eq!(e.kind(), "UnknownFormat");
    let e = reg.store_open("x").unwrap_err();
    assert_eq!(e.kind(), "StorageUnavailable");
}
