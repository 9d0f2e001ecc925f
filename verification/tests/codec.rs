use roxigraph::term::{RdfTerm, LiteralTag, RdfGraphName, parse_term, parse_subject,
    parse_predicate, parse_graph, serialize};
use roxigraph::format::{resolve_input, resolve_output, InputFormat, OutputFormat};
use roxigraph::error::RdfError;

fn iri(s: &str) -> RdfTerm {
    RdfTerm::Iri(s.to_string())
}

fn blank(s: &str) -> RdfTerm {
    RdfTerm::BlankNode(s.to_string())
}

fn plain(v: &str) -> RdfTerm {
    RdfTerm::Literal(v.to_string(), LiteralTag::PlainString)
}

fn lang(v: &str, l: &str) -> RdfTerm {
    RdfTerm::Literal(v.to_string(), LiteralTag::LanguageTagged(l.to_string()))
}

fn typed(v: &str, d: &str) -> RdfTerm {
    RdfTerm::Literal(v.to_string(), LiteralTag::Typed(d.to_string()))
}

#[test]
fn serialize_forms() {
    assert_eq!(serialize(&iri("http://ex/s")), "<http://ex/s>");
    assert_eq!(serialize(&blank("b1")), "_:b1");
    assert_eq!(serialize(&plain("v")), "\"v\"");
    assert_eq!(serialize(&lang("hello", "en")), "\"hello\"@en");
    assert_eq!(
        serialize(&typed("5", "http://www.w3.org/2001/XMLSchema#integer")),
        "\"5\"^^<http://www.w3.org/2001/XMLSchema#integer>"
    );
}

#[test]
fn parse_forms() {
    assert_eq!(parse_term("<http://ex/s>").unwrap(), iri("http://ex/s"));
    assert_eq!(parse_term("_:b1").unwrap(), blank("b1"));
    assert_eq!(parse_term("\"v\"").unwrap(), plain("v"));
    assert_eq!(parse_term("\"hello\"@en").unwrap(), lang("hello", "en"));
    assert_eq!(
        parse_term("\"5\"^^<http://www.w3.org/2001/XMLSchema#integer>").unwrap(),
        typed("5", "http://www.w3.org/2001/XMLSchema#integer")
    );
    // lenient fallback: bare text is taken as an IRI
    assert_eq!(parse_term("http://ex/s").unwrap(), iri("http://ex/s"));
}

#[test]
fn parse_serialize_round_trip() {
    let cases = vec![
        iri("http://ex/s"),
        iri(""),
        blank("b1"),
        blank(""),
        plain("v"),
        plain(""),
        lang("hello world", "en-US"),
        typed("5", "http://www.w3.org/2001/XMLSchema#integer"),
        typed("", "http://ex/dt"),
    ];
    for t in cases {
        assert_eq!(parse_term(&serialize(&t)).unwrap(), t);
    }
}

#[test]
fn parse_malformed_literals() {
    assert!(matches!(parse_term("\"v"), Err(RdfError::TermGrammarError(_))));
    assert!(matches!(parse_term("\""), Err(RdfError::TermGrammarError(_))));
    assert!(matches!(parse_term("\"@en"), Err(RdfError::TermGrammarError(_))));
}

#[test]
fn subject_and_predicate_restrictions() {
    assert_eq!(parse_subject("<http://ex/s>").unwrap(), iri("http://ex/s"));
    assert_eq!(parse_subject("_:b").unwrap(), blank("b"));
    assert!(matches!(parse_subject("\"v\""), Err(RdfError::InvalidSubjectKind(_))));
    assert_eq!(parse_predicate("<http://ex/p>").unwrap(), iri("http://ex/p"));
    assert!(matches!(parse_predicate("_:b"), Err(RdfError::InvalidPredicateKind(_))));
    assert!(matches!(parse_predicate("\"v\""), Err(RdfError::InvalidPredicateKind(_))));
}

#[test]
fn graph_argument() {
    assert_eq!(parse_graph(None), RdfGraphName::DefaultGraph);
    assert_eq!(
        parse_graph(Some("<http://ex/g>")),
        RdfGraphName::Named("http://ex/g".to_string())
    );
    assert_eq!(
        parse_graph(Some("http://ex/g")),
        RdfGraphName::Named("http://ex/g".to_string())
    );
}

#[test]
fn input_formats_resolve_case_insensitively() {
    assert!(matches!(resolve_input("turtle"), Ok(InputFormat::Turtle)));
    assert!(matches!(resolve_input("TTL"), Ok(InputFormat::Turtle)));
    assert!(matches!(resolve_input("NTriples"), Ok(InputFormat::NTriples)));
    assert!(matches!(resolve_input("nt"), Ok(InputFormat::NTriples)));
    assert!(matches!(resolve_input("rdfxml"), Ok(InputFormat::RdfXml)));
    assert!(matches!(resolve_input("RDF"), Ok(InputFormat::RdfXml)));
    assert!(matches!(resolve_input("xml"), Ok(InputFormat::RdfXml)));
    assert!(matches!(resolve_input("nquads"), Ok(InputFormat::NQuads)));
    assert!(matches!(resolve_input("NQ"), Ok(InputFormat::NQuads)));
    assert!(matches!(resolve_input("TriG"), Ok(InputFormat::TriG)));
}

#[test]
fn output_formats_upgrade_to_quad_capable() {
    assert!(matches!(resolve_output("turtle"), Ok(OutputFormat::TriG)));
    assert!(matches!(resolve_output("ttl"), Ok(OutputFormat::TriG)));
    assert!(matches!(resolve_output("ntriples"), Ok(OutputFormat::NQuads)));
    assert!(matches!(resolve_output("NT"), Ok(OutputFormat::NQuads)));
    assert!(matches!(resolve_output("nquads"), Ok(OutputFormat::NQuads)));
    assert!(matches!(resolve_output("rdfxml"), Ok(OutputFormat::RdfXml)));
    assert!(matches!(resolve_output("trig"), Ok(OutputFormat::TriG)));
}

#[test]
fn unknown_format_tokens_fail_naming_the_token() {
    match resolve_input("json") {
        Err(RdfError::UnknownFormat(tok)) => assert_eq!(tok, "json"),
        other => panic!("expected UnknownFormat, got {:?}", other.is_ok()),
    }
    match resolve_output("JSON-LD") {
        Err(RdfError::UnknownFormat(tok)) => assert_eq!(tok, "JSON-LD"),
        other => panic!("expected UnknownFormat, got {:?}", other.is_ok()),
    }
}
