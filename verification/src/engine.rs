//! The narrow contract with the storage/query engine. Every item here either
//! declares an engine type opaquely, names what an engine value denotes, or
//! wraps one engine operation behind a contract that Verus believes; all the
//! logic around these calls is verified.

use vstd::prelude::*;
use crate::term::{RdfTerm, LiteralTag, RdfGraphName, TermV, TagV, GraphV, Quad, QuadV};
use crate::format::{InputFormat, OutputFormat};
use oxigraph::model::{NamedNode, BlankNode, Literal};
use oxigraph::model::Term as OxTerm;
use oxigraph::model::GraphName as OxGraphName;
use oxigraph::model::NamedOrBlankNode as OxNode;

verus! {

#[verifier::external_type_specification]
#[verifier::external_body]
pub struct ExStore(oxigraph::store::Store);

#[verifier::external_type_specification]
#[verifier::external_body]
pub struct ExNamedOrBlankNode(oxigraph::model::NamedOrBlankNode);

#[verifier::external_type_specification]
#[verifier::external_body]
pub struct ExNamedNode(oxigraph::model::NamedNode);

#[verifier::external_type_specification]
#[verifier::external_body]
pub struct ExTerm(oxigraph::model::Term);

#[verifier::external_type_specification]
#[verifier::external_body]
pub struct ExGraphName(oxigraph::model::GraphName);

#[verifier::external_type_specification]
#[verifier::external_body]
pub struct ExRdfFormat(oxigraph::io::RdfFormat);

#[verifier::external_type_specification]
#[verifier::external_body]
pub struct ExQuerySolutionIter<'a>(oxigraph::sparql::QuerySolutionIter<'a>);

#[verifier::external_type_specification]
#[verifier::external_body]
pub struct ExQuerySolution(oxigraph::sparql::QuerySolution);

#[verifier::external_type_specification]
#[verifier::external_body]
pub struct ExQueryTripleIter<'a>(oxigraph::sparql::QueryTripleIter<'a>);

#[verifier::external_type_specification]
#[verifier::external_body]
pub struct ExTriple(oxigraph::model::Triple);

#[verifier::external_type_specification]
#[verifier::external_body]
pub struct ExQueryEvaluationError(oxigraph::sparql::QueryEvaluationError);

/// The set of quads an engine store holds.
pub uninterp spec fn store_quads(s: oxigraph::store::Store) -> Set<QuadV>;

/// The subject term an engine subject node denotes.
pub uninterp spec fn nb_model(n: oxigraph::model::NamedOrBlankNode) -> TermV;

/// The IRI text an engine IRI node denotes.
pub uninterp spec fn nn_model(n: oxigraph::model::NamedNode) -> Seq<char>;

/// The term an engine term denotes.
pub uninterp spec fn term_model(t: oxigraph::model::Term) -> TermV;

/// The graph position an engine graph name denotes.
pub uninterp spec fn graph_model(g: oxigraph::model::GraphName) -> GraphV;

/// Whether the engine accepts this text as an IRI.
pub uninterp spec fn iri_ok(s: Seq<char>) -> bool;

/// Whether the engine accepts this text as a blank node label.
pub uninterp spec fn blank_ok(s: Seq<char>) -> bool;

/// Whether the engine accepts this text as a language tag.
pub uninterp spec fn lang_ok(s: Seq<char>) -> bool;

/// A term the engine accepts in subject position.
pub open spec fn node_valid(t: TermV) -> bool {
    match t {
        TermV::Iri(i) => iri_ok(i),
        TermV::BlankNode(b) => blank_ok(b),
        TermV::Literal(_, _) => false,
    }
}

/// A term the engine accepts in object position.
pub open spec fn object_valid(t: TermV) -> bool {
    match t {
        TermV::Iri(i) => iri_ok(i),
        TermV::BlankNode(b) => blank_ok(b),
        TermV::Literal(_, TagV::PlainString) => true,
        TermV::Literal(_, TagV::LanguageTagged(l)) => lang_ok(l),
        TermV::Literal(_, TagV::Typed(d)) => iri_ok(d),
    }
}

/// A graph position the engine accepts.
pub open spec fn graph_valid(g: GraphV) -> bool {
    match g {
        GraphV::DefaultGraph => true,
        GraphV::Named(i) => iri_ok(i),
    }
}

/// A quad whose every component the engine accepts.
pub open spec fn quad_valid(q: QuadV) -> bool {
    &&& node_valid(q.subject)
    &&& q.predicate matches TermV::Iri(i) && iri_ok(i)
    &&& object_valid(q.object)
    &&& graph_valid(q.graph)
}

/// Relies on NamedNode::new: it returns Ok exactly on the IRI texts the
/// engine accepts, which is what `iri_ok` names.
#[verifier::external_body]
pub(crate) fn check_iri(s: &str) -> (r: bool)
    ensures
        r == iri_ok(s@),
{
    oxigraph::model::NamedNode::new(s).is_ok()
}

/// Relies on BlankNode::new: it returns Ok exactly on the labels the engine
/// accepts, which is what `blank_ok` names.
#[verifier::external_body]
pub(crate) fn check_blank(s: &str) -> (r: bool)
    ensures
        r == blank_ok(s@),
{
    oxigraph::model::BlankNode::new(s).is_ok()
}

/// Relies on Literal::new_language_tagged_literal: it returns Ok exactly on
/// the language tags the engine accepts, which is what `lang_ok` names.
#[verifier::external_body]
pub(crate) fn check_lang(s: &str) -> (r: bool)
    ensures
        r == lang_ok(s@),
{
    oxigraph::model::Literal::new_language_tagged_literal("", s).is_ok()
}

/// Relies on NamedNode::new and BlankNode::new: each wraps its accepted text
/// unchanged. The `requires` admits only subjects those constructors accept;
/// the literal arm is never reached.
#[verifier::external_body]
fn build_node(t: &RdfTerm) -> (r: oxigraph::model::NamedOrBlankNode)
    requires
        node_valid(t@),
    ensures
        nb_model(r) == t@,
{
    match t {
        RdfTerm::Iri(i) => NamedNode::new(i.as_str()).unwrap().into(),
        RdfTerm::BlankNode(b) => BlankNode::new(b.as_str()).unwrap().into(),
        RdfTerm::Literal(v, _) => NamedNode::new(v.as_str()).unwrap().into(),
    }
}

/// Relies on NamedNode::new: wraps its accepted IRI text unchanged. The
/// `requires` admits only IRI predicates; the other arm is never reached.
#[verifier::external_body]
fn build_predicate(t: &RdfTerm) -> (r: oxigraph::model::NamedNode)
    requires
        t@ matches TermV::Iri(i) && iri_ok(i),
    ensures
        t@ matches TermV::Iri(i) ==> nn_model(r) == i,
{
    match t {
        RdfTerm::Iri(i) => NamedNode::new(i.as_str()).unwrap(),
        RdfTerm::BlankNode(b) => NamedNode::new(b.as_str()).unwrap(),
        RdfTerm::Literal(v, _) => NamedNode::new(v.as_str()).unwrap(),
    }
}

/// Relies on the engine term constructors (NamedNode::new, BlankNode::new,
/// Literal::new_simple_literal / new_language_tagged_literal /
/// new_typed_literal): each wraps its accepted pieces unchanged. The
/// `requires` admits only canonical terms: the language tag is already ASCII
/// lower case as the engine would store it, and a typed tag never carries the
/// plain-string datatype, which the engine would silently drop.
#[verifier::external_body]
fn build_object(t: &RdfTerm) -> (r: oxigraph::model::Term)
    requires
        object_valid(t@),
        crate::term::spec_canon_term(t@) == t@,
    ensures
        term_model(r) == t@,
{
    match t {
        RdfTerm::Iri(i) => NamedNode::new(i.as_str()).unwrap().into(),
        RdfTerm::BlankNode(b) => BlankNode::new(b.as_str()).unwrap().into(),
        RdfTerm::Literal(v, LiteralTag::PlainString) => Literal::new_simple_literal(v.as_str()).into(),
        RdfTerm::Literal(v, LiteralTag::LanguageTagged(l)) => Literal::new_language_tagged_literal(v.as_str(), l.as_str()).unwrap().into(),
        RdfTerm::Literal(v, LiteralTag::Typed(d)) => Literal::new_typed_literal(v.as_str(), NamedNode::new(d.as_str()).unwrap()).into(),
    }
}

/// Relies on the engine's graph-name enum and NamedNode::new: wraps the
/// accepted IRI text unchanged.
#[verifier::external_body]
fn build_graph(g: &RdfGraphName) -> (r: oxigraph::model::GraphName)
    requires
        graph_valid(g@),
    ensures
        graph_model(r) == g@,
{
    match g {
        RdfGraphName::DefaultGraph => OxGraphName::DefaultGraph,
        RdfGraphName::Named(i) => OxGraphName::NamedNode(NamedNode::new(i.as_str()).unwrap()),
    }
}

/// Relies on Store::new: creates an empty in-memory store; with the memory
/// backend this cannot fail.
#[verifier::external_body]
pub(crate) fn engine_store_new() -> (s: oxigraph::store::Store)
    ensures
        store_quads(s) == Set::<QuadV>::empty(),
{
    oxigraph::store::Store::new().unwrap()
}

/// Relies on Store::len: the number of quads in the store; with the memory
/// backend this cannot fail.
#[verifier::external_body]
pub(crate) fn engine_store_len(s: &oxigraph::store::Store) -> (n: usize)
    ensures
        n == store_quads(*s).len(),
{
    s.len().unwrap()
}

/// Relies on Store::insert: adds exactly this quad to the store's quad set;
/// with the memory backend this cannot fail.
#[verifier::external_body]
fn engine_store_insert(
    s: &mut oxigraph::store::Store,
    subj: &oxigraph::model::NamedOrBlankNode,
    pred: &oxigraph::model::NamedNode,
    obj: &oxigraph::model::Term,
    g: &oxigraph::model::GraphName,
)
    ensures
        store_quads(*final(s)) == store_quads(*old(s)).insert(
            QuadV {
                subject: nb_model(*subj),
                predicate: TermV::Iri(nn_model(*pred)),
                object: term_model(*obj),
                graph: graph_model(*g),
            },
        ),
{
    let q = oxigraph::model::Quad::new(subj.clone(), pred.clone(), obj.clone(), g.clone());
    s.insert(&q).unwrap();
}

/// Relies on Store::remove: removes exactly this quad from the store's quad
/// set; with the memory backend this cannot fail.
#[verifier::external_body]
fn engine_store_remove(
    s: &mut oxigraph::store::Store,
    subj: &oxigraph::model::NamedOrBlankNode,
    pred: &oxigraph::model::NamedNode,
    obj: &oxigraph::model::Term,
    g: &oxigraph::model::GraphName,
)
    ensures
        store_quads(*final(s)) == store_quads(*old(s)).remove(
            QuadV {
                subject: nb_model(*subj),
                predicate: TermV::Iri(nn_model(*pred)),
                object: term_model(*obj),
                graph: graph_model(*g),
            },
        ),
{
    let q = oxigraph::model::Quad::new(subj.clone(), pred.clone(), obj.clone(), g.clone());
    s.remove(&q).unwrap();
}

/// Inserts a parsed, validated, canonical quad into a store.
pub(crate) fn store_insert_quad(s: &mut oxigraph::store::Store, q: &Quad)
    requires
        quad_valid(q@),
        crate::term::spec_canon_term(q@.object) == q@.object,
    ensures
        store_quads(*final(s)) == store_quads(*old(s)).insert(q@),
{
    let subj = build_node(&q.subject);
    let pred = build_predicate(&q.predicate);
    let obj = build_object(&q.object);
    let g = build_graph(&q.graph);
    engine_store_insert(s, &subj, &pred, &obj, &g);
}

/// Removes a parsed, validated, canonical quad from a store.
pub(crate) fn store_remove_quad(s: &mut oxigraph::store::Store, q: &Quad)
    requires
        quad_valid(q@),
        crate::term::spec_canon_term(q@.object) == q@.object,
    ensures
        store_quads(*final(s)) == store_quads(*old(s)).remove(q@),
{
    let subj = build_node(&q.subject);
    let pred = build_predicate(&q.predicate);
    let obj = build_object(&q.object);
    let g = build_graph(&q.graph);
    engine_store_remove(s, &subj, &pred, &obj, &g);
}

/// What went wrong while loading serialized data.
pub enum LoadFault {
    BadBase(String),
    BadSyntax(String),
}

/// Relies on the engine's format enum: maps each input format to it.
#[verifier::external_body]
fn rdf_format_of_input(f: &InputFormat) -> (r: oxigraph::io::RdfFormat) {
    match f {
        InputFormat::Turtle => oxigraph::io::RdfFormat::Turtle,
        InputFormat::NTriples => oxigraph::io::RdfFormat::NTriples,
        InputFormat::RdfXml => oxigraph::io::RdfFormat::RdfXml,
        InputFormat::NQuads => oxigraph::io::RdfFormat::NQuads,
        InputFormat::TriG => oxigraph::io::RdfFormat::TriG,
    }
}

/// Relies on the engine's format enum: maps each output format to it.
#[verifier::external_body]
fn rdf_format_of_output(f: &OutputFormat) -> (r: oxigraph::io::RdfFormat) {
    match f {
        OutputFormat::RdfXml => oxigraph::io::RdfFormat::RdfXml,
        OutputFormat::NQuads => oxigraph::io::RdfFormat::NQuads,
        OutputFormat::TriG => oxigraph::io::RdfFormat::TriG,
    }
}

/// Relies on RdfParser::from_format / with_base_iri / for_slice and
/// Store::insert: parses `data` and inserts each resulting quad in stream
/// order, stopping at the first malformed item; quads inserted before a
/// failure remain in the store, so the old quad set is kept either way.
#[verifier::external_body]
fn engine_store_load(
    s: &mut oxigraph::store::Store,
    fmt: oxigraph::io::RdfFormat,
    data: &str,
    base: Option<&str>,
) -> (r: Result<(), LoadFault>)
    ensures
        store_quads(*old(s)).subset_of(store_quads(*final(s))),
        store_quads(*old(s)).finite() ==> store_quads(*final(s)).finite(),
{
    let mut parser = oxigraph::io::RdfParser::from_format(fmt);
    if let Some(b) = base {
        parser = match parser.with_base_iri(b) {
            Ok(p) => p,
            Err(e) => return Err(LoadFault::BadBase(e.to_string())),
        };
    }
    for item in parser.for_slice(data.as_bytes()) {
        match item {
            Ok(q) => s.insert(&q).unwrap(),
            Err(e) => return Err(LoadFault::BadSyntax(e.to_string())),
        }
    }
    Ok(())
}

/// Loads serialized data into a store, resolving the engine format first.
pub(crate) fn store_load_data(
    s: &mut oxigraph::store::Store,
    fmt: &InputFormat,
    data: &str,
    base: Option<&str>,
) -> (r: Result<(), LoadFault>)
    ensures
        store_quads(*old(s)).subset_of(store_quads(*final(s))),
        store_quads(*old(s)).finite() ==> store_quads(*final(s)).finite(),
{
    let code = rdf_format_of_input(fmt);
    engine_store_load(s, code, data, base)
}

/// Relies on Store::dump_to_writer: serializes the full quad set in the given
/// format; it fails when the format cannot represent datasets.
#[verifier::external_body]
fn engine_store_dump(s: &oxigraph::store::Store, fmt: oxigraph::io::RdfFormat) -> (r: Result<
    String,
    String,
>) {
    match s.dump_to_writer(fmt, Vec::new()) {
        Ok(buf) => Ok(String::from_utf8(buf).unwrap_or_default()),
        Err(e) => Err(e.to_string()),
    }
}

/// Serializes the full quad set of a store, resolving the engine format first.
pub(crate) fn store_dump_data(s: &oxigraph::store::Store, fmt: &OutputFormat) -> (r: Result<
    String,
    String,
>) {
    let code = rdf_format_of_output(fmt);
    engine_store_dump(s, code)
}

/// What went wrong while running a query.
pub enum QueryFault {
    Parse(String),
    Exec(String),
}

/// The three shapes a query evaluation can produce.
pub enum EngineResults {
    Solutions(oxigraph::sparql::QuerySolutionIter<'static>),
    Boolean(bool),
    Graph(oxigraph::sparql::QueryTripleIter<'static>),
}

/// Relies on SparqlEvaluator::parse_query, on_store and execute, and on the
/// shape of QueryResults: evaluates the query against a snapshot of the store
/// and passes each result variant through unchanged.
#[verifier::external_body]
pub(crate) fn engine_store_query(s: &oxigraph::store::Store, q: &str) -> (r: Result<
    EngineResults,
    QueryFault,
>) {
    let prepared = match oxigraph::sparql::SparqlEvaluator::new().parse_query(q) {
        Ok(p) => p,
        Err(e) => return Err(QueryFault::Parse(e.to_string())),
    };
    match prepared.on_store(s).execute() {
        Ok(oxigraph::sparql::QueryResults::Solutions(it)) => Ok(EngineResults::Solutions(it)),
        Ok(oxigraph::sparql::QueryResults::Boolean(b)) => Ok(EngineResults::Boolean(b)),
        Ok(oxigraph::sparql::QueryResults::Graph(it)) => Ok(EngineResults::Graph(it)),
        Err(e) => Err(QueryFault::Exec(e.to_string())),
    }
}

/// A query-result term copied out of the engine as plain text pieces: an IRI,
/// a blank node label, or a literal as value, optional language tag and
/// datatype IRI.
pub enum RawTerm {
    Named(String),
    Blank(String),
    Lit(String, Option<String>, String),
}

/// Spec-level image of `RawTerm`.
pub enum RawTermV {
    Named(Seq<char>),
    Blank(Seq<char>),
    Lit(Seq<char>, Option<Seq<char>>, Seq<char>),
}

impl View for RawTerm {
    type V = RawTermV;

    open spec fn view(&self) -> RawTermV {
        match self {
            RawTerm::Named(i) => RawTermV::Named(i@),
            RawTerm::Blank(b) => RawTermV::Blank(b@),
            RawTerm::Lit(v, l, d) => RawTermV::Lit(
                v@,
                match l {
                    Some(x) => Some(x@),
                    None => None,
                },
                d@,
            ),
        }
    }
}

/// One triple of a graph-construction result, as raw text pieces.
pub struct RawTriple {
    pub subject: RawTerm,
    pub predicate: String,
    pub object: RawTerm,
}

/// Relies on the engine term accessors (NamedNode::as_str, BlankNode::as_str,
/// Literal::value / language / datatype): copies the pieces out unchanged.
#[verifier::external_body]
fn term_to_raw(t: &oxigraph::model::Term) -> (r: RawTerm) {
    match t {
        OxTerm::NamedNode(n) => RawTerm::Named(n.as_str().to_string()),
        OxTerm::BlankNode(b) => RawTerm::Blank(b.as_str().to_string()),
        OxTerm::Literal(l) => RawTerm::Lit(l.value().to_string(), l.language().map(|x| x.to_string()), l.datatype().as_str().to_string()),
    }
}

/// Relies on QuerySolutionIter::variables and Variable::as_str: the solution
/// variables, in the order the engine reports them.
#[verifier::external_body]
pub(crate) fn solutions_variables(it: &oxigraph::sparql::QuerySolutionIter<'static>) -> (r: Vec<String>) {
    it.variables().iter().map(|v| v.as_str().to_string()).collect()
}

/// Relies on QuerySolutionIter::next: the next solution row, if any.
#[verifier::external_body]
pub(crate) fn solutions_next(it: &mut oxigraph::sparql::QuerySolutionIter<'static>) -> (r: Option<
    Result<oxigraph::sparql::QuerySolution, String>,
>) {
    it.next().map(|x| x.map_err(|e| e.to_string()))
}

/// Relies on QuerySolution::get: the term bound to the variable in this row,
/// or absence when the variable is unbound there.
#[verifier::external_body]
pub(crate) fn solution_get(sol: &oxigraph::sparql::QuerySolution, var: &str) -> (r: Option<RawTerm>) {
    sol.get(var).map(term_to_raw)
}

/// Relies on QueryTripleIter::next and the Triple fields: the next
/// constructed triple, copied out as raw text pieces.
#[verifier::external_body]
pub(crate) fn triples_next(it: &mut oxigraph::sparql::QueryTripleIter<'static>) -> (r: Option<
    Result<RawTriple, String>,
>) {
    it.next().map(|x|
        x.map(|t| RawTriple {
            subject: match &t.subject {
                OxNode::NamedNode(n) => RawTerm::Named(n.as_str().to_string()),
                OxNode::BlankNode(b) => RawTerm::Blank(b.as_str().to_string()),
            },
            predicate: t.predicate.as_str().to_string(),
            object: term_to_raw(&t.object),
        }).map_err(|e| e.to_string()),
    )
}

/// Relies on SparqlEvaluator::parse_update, on_store and execute: runs the
/// update against the store; whatever it did, the store remains a finite
/// quad set.
#[verifier::external_body]
pub(crate) fn engine_store_update(s: &mut oxigraph::store::Store, u: &str) -> (r: Result<(), String>)
    ensures
        store_quads(*old(s)).finite() ==> store_quads(*final(s)).finite(),
{
    let prepared = match oxigraph::sparql::SparqlEvaluator::new().parse_update(u) {
        Ok(p) => p,
        Err(e) => return Err(e.to_string()),
    };
    match prepared.on_store(s).execute() {
        Ok(()) => Ok(()),
        Err(e) => Err(e.to_string()),
    }
}

} // verus!
