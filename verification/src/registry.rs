//! The store registry: a growable table of engine stores indexed by integer
//! handle, with every exposed operation of the access layer as a method. A
//! handle, once issued, stays valid for the registry's lifetime; slots are
//! never reused or removed.

use vstd::prelude::*;
use crate::error::RdfError;
use crate::term::{
    RdfTerm, TermV, RdfGraphName, GraphV, Quad, QuadV, spec_parse, spec_canon_term,
    spec_trim_angles, parse_subject, parse_predicate, parse_term, parse_graph, canon_term,
    serialize, lemma_canon_idem,
};
use crate::format::{spec_resolve_input, spec_resolve_output, resolve_input, resolve_output};
use crate::engine::{
    store_quads, quad_valid, check_iri, check_blank, check_lang, engine_store_new,
    engine_store_len, store_insert_quad, store_remove_quad, store_load_data, store_dump_data,
    engine_store_query, engine_store_update, LoadFault, QueryFault, EngineResults,
    solutions_variables,
};
use crate::projector::{
    QueryData, QueryOutcome, outcome_wf, project, drain_solutions, drain_triples,
};

verus! {

/// The subject is no literal and the predicate is an IRI: what the term
/// grammar's subject and predicate restrictions guarantee.
pub open spec fn quad_kinds_ok(q: QuadV) -> bool {
    !(q.subject matches TermV::Literal(_, _)) && q.predicate matches TermV::Iri(_)
}

/// Checks every component of a parsed quad against the engine's own
/// validators, returning the error that identifies the offending piece.
pub fn validate_quad(q: &Quad) -> (r: Result<(), RdfError>)
    ensures
        r is Ok <==> quad_valid(q@),
        quad_kinds_ok(q@) ==> (r matches Err(e) ==> (e matches RdfError::InvalidIri(_) || e
            matches RdfError::TermGrammarError(_))),
{
    match &q.subject {
        RdfTerm::Iri(i) => {
            if !check_iri(i.as_str()) {
                return Err(RdfError::InvalidIri(i.clone()));
            }
        }
        RdfTerm::BlankNode(b) => {
            if !check_blank(b.as_str()) {
                return Err(RdfError::TermGrammarError(b.clone()));
            }
        }
        RdfTerm::Literal(_, _) => {
            return Err(RdfError::InvalidSubjectKind(serialize(&q.subject)));
        }
    }
    match &q.predicate {
        RdfTerm::Iri(i) => {
            if !check_iri(i.as_str()) {
                return Err(RdfError::InvalidIri(i.clone()));
            }
        }
        _ => {
            return Err(RdfError::InvalidPredicateKind(serialize(&q.predicate)));
        }
    }
    match &q.object {
        RdfTerm::Iri(i) => {
            if !check_iri(i.as_str()) {
                return Err(RdfError::InvalidIri(i.clone()));
            }
        }
        RdfTerm::BlankNode(b) => {
            if !check_blank(b.as_str()) {
                return Err(RdfError::TermGrammarError(b.clone()));
            }
        }
        RdfTerm::Literal(_, crate::term::LiteralTag::PlainString) => {}
        RdfTerm::Literal(_, crate::term::LiteralTag::LanguageTagged(l)) => {
            if !check_lang(l.as_str()) {
                return Err(RdfError::TermGrammarError(l.clone()));
            }
        }
        RdfTerm::Literal(_, crate::term::LiteralTag::Typed(d)) => {
            if !check_iri(d.as_str()) {
                return Err(RdfError::InvalidIri(d.clone()));
            }
        }
    }
    match &q.graph {
        RdfGraphName::DefaultGraph => {}
        RdfGraphName::Named(i) => {
            if !check_iri(i.as_str()) {
                return Err(RdfError::InvalidIri(i.clone()));
            }
        }
    }
    Ok(())
}

/// The graph position an optional textual graph argument denotes.
pub open spec fn spec_graph_arg(g: Option<Seq<char>>) -> GraphV {
    match g {
        None => GraphV::DefaultGraph,
        Some(t) => GraphV::Named(spec_trim_angles(t)),
    }
}

/// How the four textual arguments of a single-quad mutation parse, before
/// engine validation: the first failing step in grammar order, or the parsed
/// quad with its object in canonical form.
pub enum QuadArgs {
    SubjGrammar,
    SubjKind,
    PredGrammar,
    PredKind,
    ObjGrammar,
    Parsed(QuadV),
}

pub open spec fn spec_quad_args(
    s: Seq<char>,
    p: Seq<char>,
    o: Seq<char>,
    g: Option<Seq<char>>,
) -> QuadArgs {
    match spec_parse(s) {
        None => QuadArgs::SubjGrammar,
        Some(st) => if st matches TermV::Literal(_, _) {
            QuadArgs::SubjKind
        } else {
            match spec_parse(p) {
                None => QuadArgs::PredGrammar,
                Some(pt) => if !(pt matches TermV::Iri(_)) {
                    QuadArgs::PredKind
                } else {
                    match spec_parse(o) {
                        None => QuadArgs::ObjGrammar,
                        Some(ot) => QuadArgs::Parsed(
                            QuadV {
                                subject: st,
                                predicate: pt,
                                object: spec_canon_term(ot),
                                graph: spec_graph_arg(g),
                            },
                        ),
                    }
                },
            }
        },
    }
}

/// What a single-quad mutation did: the slot update applied on success, the
/// exact parse error otherwise, and no change to any other slot either way.
pub open spec fn mutation_post(
    pre: Seq<Set<QuadV>>,
    post: Seq<Set<QuadV>>,
    h: usize,
    s: Seq<char>,
    p: Seq<char>,
    o: Seq<char>,
    g: Option<Seq<char>>,
    r: Result<(), RdfError>,
    insert: bool,
) -> bool {
    match spec_quad_args(s, p, o, g) {
        QuadArgs::SubjGrammar => (r matches Err(RdfError::TermGrammarError(m)) && m@ == s) && post
            == pre,
        QuadArgs::SubjKind => (r matches Err(RdfError::InvalidSubjectKind(m)) && m@ == s) && post
            == pre,
        QuadArgs::PredGrammar => (r matches Err(RdfError::TermGrammarError(m)) && m@ == p) && post
            == pre,
        QuadArgs::PredKind => (r matches Err(RdfError::InvalidPredicateKind(m)) && m@ == p) && post
            == pre,
        QuadArgs::ObjGrammar => (r matches Err(RdfError::TermGrammarError(m)) && m@ == o) && post
            == pre,
        QuadArgs::Parsed(q) => if quad_valid(q) {
            r is Ok && post == pre.update(
                h as int,
                if insert {
                    pre[h as int].insert(q)
                } else {
                    pre[h as int].remove(q)
                },
            )
        } else {
            (r matches Err(e) && (e matches RdfError::InvalidIri(_) || e matches
            RdfError::TermGrammarError(_))) && post == pre
        },
    }
}

/// The registry of engine stores. It owns the table; every operation takes a
/// handle and fails with `InvalidHandle` exactly when the handle is outside
/// the issued range.
pub struct StoreRegistry {
    stores: Vec<oxigraph::store::Store>,
}

impl StoreRegistry {
    /// The quad set of each registered store, by handle.
    pub closed spec fn slots(self) -> Seq<Set<QuadV>> {
        self.stores@.map(|i: int, s: oxigraph::store::Store| store_quads(s))
    }

    /// Every registered store holds finitely many quads.
    pub closed spec fn wf(self) -> bool {
        forall|i: int|
            0 <= i < self.stores@.len() ==> (#[trigger] store_quads(self.stores@[i])).finite()
    }

    /// A well-formed registry's slots are all finite quad sets. This opens
    /// `wf()` far enough for a caller to discharge the finiteness
    /// precondition of `lemma_mutation_size` on any slot.
    pub proof fn lemma_slot_finite(self, i: int)
        requires
            self.wf(),
            0 <= i < self.slots().len(),
        ensures
            self.slots()[i].finite(),
    {
        assert(self.slots()[i] == store_quads(self.stores@[i]));
    }

    /// An empty registry.
    pub fn new() -> (r: StoreRegistry)
        ensures
            r.slots() =~= Seq::<Set<QuadV>>::empty(),
            r.wf(),
    {
        StoreRegistry { stores: Vec::new() }
    }

    /// The number of registered stores: handles `0 .. registry_size()` are
    /// exactly the valid ones.
    pub fn registry_size(&self) -> (n: usize)
        ensures
            n == self.slots().len(),
    {
        self.stores.len()
    }

    /// Creates a fresh in-memory store, registers it, and returns its
    /// handle. The new store is empty; no existing slot changes.
    pub fn store_new(&mut self) -> (h: usize)
        requires
            old(self).wf(),
        ensures
            final(self).wf(),
            final(self).slots() == old(self).slots().push(Set::<QuadV>::empty()),
            h == old(self).slots().len(),
    {
        let s = engine_store_new();
        let h = self.stores.len();
        self.stores.push(s);
        proof {
            assert(final(self).slots() =~= old(self).slots().push(Set::<QuadV>::empty()));
        }
        h
    }

    /// Opens a persistent store. Persistent backing is not compiled into
    /// this build, so this always fails with `StorageUnavailable` and the
    /// registry is unchanged.
    pub fn store_open(&mut self, _path: &str) -> (r: Result<usize, RdfError>)
        ensures
            *final(self) == *old(self),
            r == Err::<usize, RdfError>(RdfError::StorageUnavailable),
    {
        Err(RdfError::StorageUnavailable)
    }

    /// The number of quads in the store a handle denotes.
    pub fn store_size(&self, h: usize) -> (r: Result<usize, RdfError>)
        requires
            self.wf(),
        ensures
            h < self.slots().len() ==> (r matches Ok(n) && n == self.slots()[h as int].len()),
            h >= self.slots().len() ==> r == Err::<usize, RdfError>(RdfError::InvalidHandle(h)),
    {
        if h < self.stores.len() {
            Ok(engine_store_len(&self.stores[h]))
        } else {
            Err(RdfError::InvalidHandle(h))
        }
    }

    /// Parses the textual pieces of a quad, validates them with the engine's
    /// own constructors, and inserts the quad into the store `h` denotes.
    pub fn store_insert(
        &mut self,
        h: usize,
        subject: &str,
        predicate: &str,
        object: &str,
        graph: Option<&str>,
    ) -> (r: Result<(), RdfError>)
        requires
            old(self).wf(),
        ensures
            final(self).wf(),
            h >= old(self).slots().len() ==> r == Err::<(), RdfError>(RdfError::InvalidHandle(h))
                && *final(self) == *old(self),
            h < old(self).slots().len() ==> mutation_post(
                old(self).slots(),
                final(self).slots(),
                h,
                subject@,
                predicate@,
                object@,
                match graph {
                    None => None,
                    Some(g) => Some(g@),
                },
                r,
                true,
            ),
    {
        if h >= self.stores.len() {
            return Err(RdfError::InvalidHandle(h));
        }
        let subj = match parse_subject(subject) {
            Ok(t) => t,
            Err(e) => {
                return Err(e);
            }
        };
        let pred = match parse_predicate(predicate) {
            Ok(t) => t,
            Err(e) => {
                return Err(e);
            }
        };
        let obj0 = match parse_term(object) {
            Ok(t) => t,
            Err(e) => {
                return Err(e);
            }
        };
        let obj = canon_term(obj0);
        let g = parse_graph(graph);
        let q = Quad { subject: subj, predicate: pred, object: obj, graph: g };
        match validate_quad(&q) {
            Ok(()) => {}
            Err(e) => {
                return Err(e);
            }
        }
        proof {
            lemma_canon_idem(
                match spec_parse(object@) {
                    Some(t) => t,
                    None => q@.object,
                },
            );
        }
        let st = &mut self.stores[h];
        store_insert_quad(st, &q);
        proof {
            assert(final(self).slots() =~= old(self).slots().update(
                h as int,
                old(self).slots()[h as int].insert(q@),
            ));
            assert forall|i: int| 0 <= i < final(self).stores@.len() implies (#[trigger] store_quads(
                final(self).stores@[i],
            )).finite() by {
                if i == h {
                    vstd::set_lib::lemma_set_insert_finite_iff(
                        store_quads(old(self).stores@[i]),
                        q@,
                    );
                }
            }
        }
        Ok(())
    }

    /// Parses the textual pieces of a quad, validates them, and removes the
    /// quad from the store `h` denotes.
    pub fn store_remove(
        &mut self,
        h: usize,
        subject: &str,
        predicate: &str,
        object: &str,
        graph: Option<&str>,
    ) -> (r: Result<(), RdfError>)
        requires
            old(self).wf(),
        ensures
            final(self).wf(),
            h >= old(self).slots().len() ==> r == Err::<(), RdfError>(RdfError::InvalidHandle(h))
                && *final(self) == *old(self),
            h < old(self).slots().len() ==> mutation_post(
                old(self).slots(),
                final(self).slots(),
                h,
                subject@,
                predicate@,
                object@,
                match graph {
                    None => None,
                    Some(g) => Some(g@),
                },
                r,
                false,
            ),
    {
        if h >= self.stores.len() {
            return Err(RdfError::InvalidHandle(h));
        }
        let subj = match parse_subject(subject) {
            Ok(t) => t,
            Err(e) => {
                return Err(e);
            }
        };
        let pred = match parse_predicate(predicate) {
            Ok(t) => t,
            Err(e) => {
                return Err(e);
            }
        };
        let obj0 = match parse_term(object) {
            Ok(t) => t,
            Err(e) => {
                return Err(e);
            }
        };
        let obj = canon_term(obj0);
        let g = parse_graph(graph);
        let q = Quad { subject: subj, predicate: pred, object: obj, graph: g };
        match validate_quad(&q) {
            Ok(()) => {}
            Err(e) => {
                return Err(e);
            }
        }
        proof {
            lemma_canon_idem(
                match spec_parse(object@) {
                    Some(t) => t,
                    None => q@.object,
                },
            );
        }
        let st = &mut self.stores[h];
        store_remove_quad(st, &q);
        proof {
            assert(final(self).slots() =~= old(self).slots().update(
                h as int,
                old(self).slots()[h as int].remove(q@),
            ));
            assert forall|i: int| 0 <= i < final(self).stores@.len() implies (#[trigger] store_quads(
                final(self).stores@[i],
            )).finite() by {
                if i == h {
                    vstd::set_lib::lemma_set_remove_finite_iff(
                        store_quads(old(self).stores@[i]),
                        q@,
                    );
                }
            }
        }
        Ok(())
    }

    /// Parses serialized data in the resolved input format and inserts every
    /// resulting quad into the store `h` denotes. A failing load keeps the
    /// quads inserted before the failure: the slot only ever grows, and no
    /// other slot changes.
    pub fn store_load(
        &mut self,
        h: usize,
        data: &str,
        format: &str,
        base: Option<&str>,
    ) -> (r: Result<(), RdfError>)
        requires
            old(self).wf(),
        ensures
            final(self).wf(),
            h >= old(self).slots().len() ==> r == Err::<(), RdfError>(RdfError::InvalidHandle(h))
                && *final(self) == *old(self),
            h < old(self).slots().len() ==> match spec_resolve_input(format@) {
                None => (r matches Err(RdfError::UnknownFormat(m)) && m@ == format@) && *final(self)
                    == *old(self),
                Some(_) => {
                    &&& final(self).slots().len() == old(self).slots().len()
                    &&& forall|i: int|
                        0 <= i < old(self).slots().len() && i != h ==> final(self).slots()[i] == old(
                            self,
                        ).slots()[i]
                    &&& old(self).slots()[h as int].subset_of(final(self).slots()[h as int])
                    &&& (r matches Err(e) ==> (e matches RdfError::InvalidIri(_) || e matches
                        RdfError::RdfParseError(_)))
                },
            },
    {
        if h >= self.stores.len() {
            return Err(RdfError::InvalidHandle(h));
        }
        let fmt = match resolve_input(format) {
            Ok(f) => f,
            Err(e) => {
                return Err(e);
            }
        };
        let st = &mut self.stores[h];
        let res = store_load_data(st, &fmt, data, base);
        proof {
            assert(final(self).slots().len() == old(self).slots().len());
            assert forall|i: int|
                0 <= i < old(self).slots().len() && i != h implies final(self).slots()[i] == old(
                self,
            ).slots()[i] by {}
        }
        match res {
            Ok(()) => Ok(()),
            Err(LoadFault::BadBase(m)) => Err(RdfError::InvalidIri(m)),
            Err(LoadFault::BadSyntax(m)) => Err(RdfError::RdfParseError(m)),
        }
    }

    /// Serializes the full quad set of the store `h` denotes, in the
    /// resolved output format. The registry is never changed.
    pub fn store_dump(&self, h: usize, format: &str) -> (r: Result<String, RdfError>)
        ensures
            h >= self.slots().len() ==> r == Err::<String, RdfError>(RdfError::InvalidHandle(h)),
            h < self.slots().len() ==> match spec_resolve_output(format@) {
                None => r matches Err(RdfError::UnknownFormat(m)) && m@ == format@,
                Some(_) => r is Ok || (r matches Err(e) && e matches RdfError::SerializationError(
                    _,
                )),
            },
    {
        if h >= self.stores.len() {
            return Err(RdfError::InvalidHandle(h));
        }
        let fmt = match resolve_output(format) {
            Ok(f) => f,
            Err(e) => {
                return Err(e);
            }
        };
        match store_dump_data(&self.stores[h], &fmt) {
            Ok(s) => Ok(s),
            Err(m) => Err(RdfError::SerializationError(m)),
        }
    }

    /// Executes a query against the store `h` denotes and projects the
    /// result: a table for solutions, a bare boolean for a boolean result,
    /// the three-column table for constructed triples.
    pub fn store_query(&self, h: usize, query: &str) -> (r: Result<QueryOutcome, RdfError>)
        ensures
            h >= self.slots().len() ==> r == Err::<QueryOutcome, RdfError>(
                RdfError::InvalidHandle(h),
            ),
            h < self.slots().len() ==> (r matches Err(e) ==> (e matches RdfError::QueryParseError(
                _,
            ) || e matches RdfError::QueryExecutionError(_))),
            r matches Ok(out) ==> outcome_wf(out),
    {
        if h >= self.stores.len() {
            return Err(RdfError::InvalidHandle(h));
        }
        match engine_store_query(&self.stores[h], query) {
            Err(QueryFault::Parse(m)) => Err(RdfError::QueryParseError(m)),
            Err(QueryFault::Exec(m)) => Err(RdfError::QueryExecutionError(m)),
            Ok(EngineResults::Boolean(b)) => Ok(project(QueryData::Boolean(b))),
            Ok(EngineResults::Solutions(mut it)) => {
                let vars = solutions_variables(&it);
                match drain_solutions(&mut it, &vars) {
                    Err(e) => Err(e),
                    Ok(rows) => Ok(project(QueryData::Solutions(vars, rows))),
                }
            }
            Ok(EngineResults::Graph(mut it)) => {
                match drain_triples(&mut it) {
                    Err(e) => Err(e),
                    Ok(ts) => Ok(project(QueryData::Triples(ts))),
                }
            }
        }
    }

    /// Executes a mutating update against the store `h` denotes. Whatever
    /// the update did, only slot `h` can change and it stays a finite quad
    /// set; a failure is reported as `UpdateError`.
    pub fn store_update(&mut self, h: usize, update: &str) -> (r: Result<(), RdfError>)
        requires
            old(self).wf(),
        ensures
            final(self).wf(),
            h >= old(self).slots().len() ==> r == Err::<(), RdfError>(RdfError::InvalidHandle(h))
                && *final(self) == *old(self),
            h < old(self).slots().len() ==> {
                &&& final(self).slots().len() == old(self).slots().len()
                &&& forall|i: int|
                    0 <= i < old(self).slots().len() && i != h ==> final(self).slots()[i] == old(
                        self,
                    ).slots()[i]
                &&& (r matches Err(e) ==> e matches RdfError::UpdateError(_))
            },
    {
        if h >= self.stores.len() {
            return Err(RdfError::InvalidHandle(h));
        }
        let st = &mut self.stores[h];
        let res = engine_store_update(st, update);
        proof {
            assert forall|i: int|
                0 <= i < old(self).slots().len() && i != h implies final(self).slots()[i] == old(
                self,
            ).slots()[i] by {}
        }
        match res {
            Ok(()) => Ok(()),
            Err(m) => Err(RdfError::UpdateError(m)),
        }
    }
}

/// Size behavior of single-quad mutation on a store's quad set: inserting an
/// absent quad grows the set by exactly one, inserting a present quad
/// changes nothing, removing a present quad shrinks it by exactly one, and
/// removing an absent quad changes nothing.
pub proof fn lemma_mutation_size(s: Set<QuadV>, q: QuadV)
    requires
        s.finite(),
    ensures
        !s.contains(q) ==> s.insert(q).len() == s.len() + 1,
        s.contains(q) ==> s.insert(q).len() == s.len(),
        s.contains(q) ==> s.remove(q).len() == s.len() - 1,
        !s.contains(q) ==> s.remove(q).len() == s.len(),
{
    vstd::set::axiom_set_insert_len(s, q);
    vstd::set::axiom_set_remove_len(s, q);
}

} // verus!
