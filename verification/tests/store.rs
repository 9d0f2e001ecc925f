use roxigraph::registry::StoreRegistry;
use roxigraph::error::RdfError;

#[test]
fn new_store_is_empty() {
    let mut reg = StoreRegistry::new();
    let h = reg.store_new();
    assert_eq!(h, 0);
    assert_eq!(reg.store_size(h).unwrap(), 0);
}

#[test]
fn handles_are_issued_in_order() {
    let mut reg = StoreRegistry::new();
    assert_eq!(reg.store_new(), 0);
    assert_eq!(reg.store_new(), 1);
    assert_eq!(reg.store_new(), 2);
    assert_eq!(reg.registry_size(), 3);
    // each store is independent
    reg.store_insert(1, "<http://ex/s>", "<http://ex/p>", "\"v\"", None).unwrap();
    assert_eq!(reg.store_size(0).unwrap(), 0);
    assert_eq!(reg.store_size(1).unwrap(), 1);
    assert_eq!(reg.store_size(2).unwrap(), 0);
}

#[test]
fn insert_then_size_is_one() {
    let mut reg = StoreRegistry::new();
    let h = reg.store_new();
    reg.store_insert(h, "<http://ex/s>", "<http://ex/p>", "\"v\"", None).unwrap();
    assert_eq!(reg.store_size(h).unwrap(), 1);
}

#[test]
fn size_tracks_insert_duplicate_and_remove() {
    let mut reg = StoreRegistry::new();
    let h = reg.store_new();
    reg.store_insert(h, "<http://ex/s>", "<http://ex/p>", "\"v\"", None).unwrap();
    assert_eq!(reg.store_size(h).unwrap(), 1);
    // inserting the same quad again does not change the size
    reg.store_insert(h, "<http://ex/s>", "<http://ex/p>", "\"v\"", None).unwrap();
    assert_eq!(reg.store_size(h).unwrap(), 1);
    // a second, distinct quad grows the store by one
    reg.store_insert(h, "<http://ex/s>", "<http://ex/p2>", "\"w\"", None).unwrap();
    assert_eq!(reg.store_size(h).unwrap(), 2);
    // removing a present quad shrinks the store by one
    reg.store_remove(h, "<http://ex/s>", "<http://ex/p>", "\"v\"", None).unwrap();
    assert_eq!(reg.store_size(h).unwrap(), 1);
    // removing an absent quad changes nothing
    reg.store_remove(h, "<http://ex/s>", "<http://ex/p>", "\"v\"", None).unwrap();
    assert_eq!(reg.store_size(h).unwrap(), 1);
}

#[test]
fn plain_and_typed_string_literals_coincide() {
    // the engine stores a literal typed with the plain-string datatype as a
    // plain literal, so the two spellings denote the same quad
    let mut reg = StoreRegistry::new();
    let h = reg.store_new();
    reg.store_insert(h, "<http://ex/s>", "<http://ex/p>", "\"v\"", None).unwrap();
    reg.store_insert(
        h,
        "<http://ex/s>",
        "<http://ex/p>",
        "\"v\"^^<http://www.w3.org/2001/XMLSchema#string>",
        None,
    )
    .unwrap();
    assert_eq!(reg.store_size(h).unwrap(), 1);
}

#[test]
fn language_tags_are_case_insensitive() {
    let mut reg = StoreRegistry::new();
    let h = reg.store_new();
    reg.store_insert(h, "<http://ex/s>", "<http://ex/p>", "\"v\"@EN", None).unwrap();
    reg.store_insert(h, "<http://ex/s>", "<http://ex/p>", "\"v\"@en", None).unwrap();
    assert_eq!(reg.store_size(h).unwrap(), 1);
}

#[test]
fn named_graph_argument() {
    let mut reg = StoreRegistry::new();
    let h = reg.store_new();
    reg.store_insert(h, "<http://ex/s>", "<http://ex/p>", "\"v\"", Some("<http://ex/g>"))
        .unwrap();
    reg.store_insert(h, "<http://ex/s>", "<http://ex/p>", "\"v\"", None).unwrap();
    // same triple in two graphs: two quads
    assert_eq!(reg.store_size(h).unwrap(), 2);
}

#[test]
fn invalid_handles_always_fail_with_invalid_handle() {
    let mut reg = StoreRegistry::new();
    let h = reg.store_new();
    let bad = h + 7;
    assert!(matches!(reg.store_size(bad), Err(RdfError::InvalidHandle(b)) if b == bad));
    assert!(matches!(
        reg.store_insert(bad, "<http://ex/s>", "<http://ex/p>", "\"v\"", None),
        Err(RdfError::InvalidHandle(_))
    ));
    assert!(matches!(
        reg.store_remove(bad, "<http://ex/s>", "<http://ex/p>", "\"v\"", None),
        Err(RdfError::InvalidHandle(_))
    ));
    assert!(matches!(
        reg.store_load(bad, "", "turtle", None),
        Err(RdfError::InvalidHandle(_))
    ));
    assert!(matches!(reg.store_dump(bad, "turtle"), Err(RdfError::InvalidHandle(_))));
    assert!(matches!(reg.store_query(bad, "ASK { ?s ?p ?o }"), Err(RdfError::InvalidHandle(_))));
    assert!(matches!(
        reg.store_update(bad, "INSERT DATA { <http://ex/s> <http://ex/p> 1 }"),
        Err(RdfError::InvalidHandle(_))
    ));
}

#[test]
fn persistent_backing_is_unavailable() {
    let mut reg = StoreRegistry::new();
    assert!(matches!(reg.store_open("/tmp/somewhere"), Err(RdfError::StorageUnavailable)));
    assert_eq!(reg.registry_size(), 0);
}

#[test]
fn insert_rejects_bad_input() {
    let mut reg = StoreRegistry::new();
    let h = reg.store_new();
    // a literal subject is refused before touching the engine
    assert!(matches!(
        reg.store_insert(h, "\"v\"", "<http://ex/p>", "\"v\"", None),
        Err(RdfError::InvalidSubjectKind(_))
    ));
    // a blank-node predicate is refused
    assert!(matches!(
        reg.store_insert(h, "<http://ex/s>", "_:b", "\"v\"", None),
        Err(RdfError::InvalidPredicateKind(_))
    ));
    // a malformed literal object is a grammar error
    assert!(matches!(
        reg.store_insert(h, "<http://ex/s>", "<http://ex/p>", "\"v", None),
        Err(RdfError::TermGrammarError(_))
    ));
    // a relative IRI is rejected by the engine's validator
    assert!(matches!(
        reg.store_insert(h, "<not absolute>", "<http://ex/p>", "\"v\"", None),
        Err(RdfError::InvalidIri(_))
    ));
    // an invalid language tag is rejected by the engine's validator
    assert!(matches!(
        reg.store_insert(h, "<http://ex/s>", "<http://ex/p>", "\"v\"@12345678910", None),
        Err(RdfError::TermGrammarError(_))
    ));
    // a bad graph IRI is rejected
    assert!(matches!(
        reg.store_insert(h, "<http://ex/s>", "<http://ex/p>", "\"v\"", Some("not an iri")),
        Err(RdfError::InvalidIri(_))
    ));
    // nothing was inserted by any failing call
    assert_eq!(reg.store_size(h).unwrap(), 0);
}

#[test]
fn load_then_size() {
    let mut reg = StoreRegistry::new();
    let h = reg.store_new();
    reg.store_insert(h, "<http://ex/s>", "<http://ex/p>", "\"v\"", None).unwrap();
    reg.store_load(h, "<http://ex/s> <http://ex/p2> \"w\" .", "ntriples", None).unwrap();
    assert_eq!(reg.store_size(h).unwrap(), 2);
}

#[test]
fn load_failures() {
    let mut reg = StoreRegistry::new();
    let h = reg.store_new();
    assert!(matches!(
        reg.store_load(h, "", "no-such-format", None),
        Err(RdfError::UnknownFormat(t)) if t == "no-such-format"
    ));
    assert!(matches!(
        reg.store_load(h, "this is not turtle at all {{{", "turtle", None),
        Err(RdfError::RdfParseError(_))
    ));
    assert!(matches!(
        reg.store_load(h, "<s> <p> \"v\" .", "turtle", Some("::bad base::")),
        Err(RdfError::InvalidIri(_))
    ));
}

#[test]
fn dump_load_round_trip_preserves_the_quad_set() {
    let mut reg = StoreRegistry::new();
    let h = reg.store_new();
    reg.store_insert(h, "<http://ex/s>", "<http://ex/p>", "\"v\"", None).unwrap();
    reg.store_load(h, "<http://ex/s> <http://ex/p2> \"w\" .", "ntriples", None).unwrap();
    reg.store_insert(h, "<http://ex/s>", "<http://ex/p>", "\"g\"", Some("<http://ex/g>"))
        .unwrap();
    // dumping upgrades single-graph tokens to their quad-capable supersets,
    // so the reload uses the resolved output format
    for (dump_as, load_as) in [
        ("turtle", "trig"),
        ("ttl", "trig"),
        ("ntriples", "nquads"),
        ("nquads", "nquads"),
        ("trig", "trig"),
    ] {
        let dumped = reg.store_dump(h, dump_as).unwrap();
        let fresh = reg.store_new();
        reg.store_load(fresh, &dumped, load_as, None).unwrap();
        assert_eq!(reg.store_size(fresh).unwrap(), 3);
        // every quad of the source store is present in the reloaded one
        let check = reg.store_query(
            fresh,
            "ASK { <http://ex/s> <http://ex/p> \"v\" . \
                   <http://ex/s> <http://ex/p2> \"w\" . \
                   GRAPH <http://ex/g> { <http://ex/s> <http://ex/p> \"g\" } }",
        );
        match check.unwrap() {
            roxigraph::projector::QueryOutcome::Bool(b) => assert!(b),
            _ => panic!("ASK must yield a boolean"),
        }
    }
}

#[test]
fn dump_turtle_is_loadable_as_trig() {
    // output resolution upgrades turtle to TriG, so the dump must load back
    // under either token
    let mut reg = StoreRegistry::new();
    let h = reg.store_new();
    reg.store_insert(h, "<http://ex/s>", "<http://ex/p>", "\"v\"", None).unwrap();
    let dumped = reg.store_dump(h, "turtle").unwrap();
    let fresh = reg.store_new();
    reg.store_load(fresh, &dumped, "trig", None).unwrap();
    assert_eq!(reg.store_size(fresh).unwrap(), 1);
}

#[test]
fn dump_rejects_unknown_format_naming_the_token() {
    let mut reg = StoreRegistry::new();
    let h = reg.store_new();
    assert!(matches!(
        reg.store_dump(h, "csv"),
        Err(RdfError::UnknownFormat(t)) if t == "csv"
    ));
}

#[test]
fn dump_rdfxml_cannot_represent_datasets() {
    // the engine's RDF/XML serializer cannot represent datasets, so a dump in
    // that format is reported as a serialization failure
    let mut reg = StoreRegistry::new();
    let h = reg.store_new();
    reg.store_insert(h, "<http://ex/s>", "<http://ex/p>", "\"v\"", None).unwrap();
    assert!(matches!(reg.store_dump(h, "rdfxml"), Err(RdfError::SerializationError(_))));
}

#[test]
fn update_inserts_and_fails_loudly() {
    let mut reg = StoreRegistry::new();
    let h = reg.store_new();
    reg.store_update(h, "INSERT DATA { <http://ex/s> <http://ex/p> \"v\" }").unwrap();
    assert_eq!(reg.store_size(h).unwrap(), 1);
    reg.store_update(h, "DELETE DATA { <http://ex/s> <http://ex/p> \"v\" }").unwrap();
    assert_eq!(reg.store_size(h).unwrap(), 0);
    assert!(matches!(
        reg.store_update(h, "THIS IS NOT SPARQL"),
        Err(RdfError::UpdateError(_))
    ));
}
