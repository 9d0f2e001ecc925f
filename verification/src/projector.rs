//! The result projector: converts the three possible query-result shapes
//! (row solutions, boolean, triple stream) into a uniform tabular structure
//! with explicit null handling.

use vstd::prelude::*;
use vstd::string::*;
use crate::error::RdfError;
use crate::term::{RdfTerm, TermV, LiteralTag, TagV, spec_serialize, serialize, xsd_string_iri};
use crate::engine::{RawTerm, RawTermV, RawTriple, solutions_next, solution_get, triples_next};

verus! {

/// The term a raw engine result piece denotes. A literal with a language tag
/// is language-tagged; one whose datatype is the plain-string IRI is plain;
/// any other is typed.
pub open spec fn spec_raw_term(r: RawTermV) -> TermV {
    match r {
        RawTermV::Named(i) => TermV::Iri(i),
        RawTermV::Blank(b) => TermV::BlankNode(b),
        RawTermV::Lit(v, Some(l), _) => TermV::Literal(v, TagV::LanguageTagged(l)),
        RawTermV::Lit(v, None, d) => if d == xsd_string_iri() {
            TermV::Literal(v, TagV::PlainString)
        } else {
            TermV::Literal(v, TagV::Typed(d))
        },
    }
}

/// Rebuilds a term from the raw pieces a query result carries.
pub fn raw_to_term(r: &RawTerm) -> (t: RdfTerm)
    ensures
        t@ == spec_raw_term(r@),
{
    match r {
        RawTerm::Named(i) => RdfTerm::Iri(i.clone()),
        RawTerm::Blank(b) => RdfTerm::BlankNode(b.clone()),
        RawTerm::Lit(v, Some(l), _) => RdfTerm::Literal(
            v.clone(),
            LiteralTag::LanguageTagged(l.clone()),
        ),
        RawTerm::Lit(v, None, d) => {
            if crate::format::str_eq(d.as_str(), "http://www.w3.org/2001/XMLSchema#string") {
                RdfTerm::Literal(v.clone(), LiteralTag::PlainString)
            } else {
                RdfTerm::Literal(v.clone(), LiteralTag::Typed(d.clone()))
            }
        }
    }
}

/// The serialized text a bound result term shows in a table cell.
pub open spec fn spec_cell(r: RawTermV) -> Seq<char> {
    spec_serialize(spec_raw_term(r))
}

/// A tabular query result: one named column per variable; a row entry is the
/// serialized term, or absence for an unbound variable — never an empty
/// string, so "unbound" stays distinguishable from "bound to empty string".
pub struct Table {
    pub names: Vec<String>,
    pub columns: Vec<Vec<Option<String>>>,
}

impl Table {
    /// The number of rows: defined as zero when there are no columns.
    pub open spec fn spec_rows(self) -> nat {
        if self.columns@.len() == 0 {
            0
        } else {
            self.columns@[0]@.len()
        }
    }

    /// One column per name, and every column has one entry per row.
    pub open spec fn wf(self) -> bool {
        self.columns@.len() == self.names@.len() && forall|j: int|
            0 <= j < self.columns@.len() ==> (#[trigger] self.columns@[j])@.len()
                == self.spec_rows()
    }

    /// The number of rows.
    pub fn rows(&self) -> (n: usize)
        ensures
            n == self.spec_rows(),
    {
        if self.columns.len() == 0 {
            0
        } else {
            self.columns[0].len()
        }
    }
}

/// Whether a table cell shows exactly the raw entry: the serialized term when
/// bound, absence when unbound.
pub open spec fn cell_matches(c: Option<String>, r: Option<RawTerm>) -> bool {
    match r {
        Some(rt) => c matches Some(s) && s@ == spec_cell(rt@),
        None => c is None,
    }
}

/// Projects solution rows into a table: one column per variable, in the
/// order the engine reported; each entry the bound term's canonical text or
/// absence. With zero variables the table has zero columns, and its row
/// count is zero by definition.
pub fn project_solutions(variables: Vec<String>, rows: &Vec<Vec<Option<RawTerm>>>) -> (t: Table)
    requires
        forall|i: int| 0 <= i < rows@.len() ==> (#[trigger] rows@[i])@.len() == variables@.len(),
    ensures
        t.wf(),
        t.names@ == variables@,
        t.columns@.len() == variables@.len(),
        variables@.len() > 0 ==> t.spec_rows() == rows@.len(),
        forall|j: int, i: int|
            0 <= j < t.columns@.len() && 0 <= i < rows@.len() ==> cell_matches(
                #[trigger] t.columns@[j]@[i],
                rows@[i]@[j],
            ),
{
    let nv = variables.len();
    let nr = rows.len();
    let mut columns: Vec<Vec<Option<String>>> = Vec::new();
    let mut j: usize = 0;
    while j < nv
        invariant
            j <= nv,
            nv == variables@.len(),
            nr == rows@.len(),
            forall|i: int| 0 <= i < rows@.len() ==> (#[trigger] rows@[i])@.len() == variables@.len(),
            columns@.len() == j,
            forall|jj: int| 0 <= jj < j ==> (#[trigger] columns@[jj])@.len() == nr,
            forall|jj: int, i: int|
                0 <= jj < j && 0 <= i < nr ==> cell_matches(
                    #[trigger] columns@[jj]@[i],
                    rows@[i]@[jj],
                ),
        decreases nv - j,
    {
        let mut col: Vec<Option<String>> = Vec::new();
        let mut i: usize = 0;
        while i < nr
            invariant
                i <= nr,
                j < nv,
                nv == variables@.len(),
                nr == rows@.len(),
                forall|ii: int|
                    0 <= ii < rows@.len() ==> (#[trigger] rows@[ii])@.len() == variables@.len(),
                col@.len() == i,
                forall|ii: int| 0 <= ii < i ==> cell_matches(#[trigger] col@[ii], rows@[ii]@[j as int]),
            decreases nr - i,
        {
            let cell: Option<String> = match &rows[i][j] {
                Some(rt) => Some(serialize(&raw_to_term(rt))),
                None => None,
            };
            col.push(cell);
            i = i + 1;
        }
        columns.push(col);
        j = j + 1;
    }
    Table { names: variables, columns }
}

/// Projects constructed triples into the fixed three-column table `subject`,
/// `predicate`, `object`, with every cell bound.
pub fn project_triples(triples: &Vec<RawTriple>) -> (t: Table)
    ensures
        t.wf(),
        t.names@.len() == 3,
        t.names@[0]@ == "subject"@,
        t.names@[1]@ == "predicate"@,
        t.names@[2]@ == "object"@,
        t.spec_rows() == triples@.len(),
        forall|i: int| #![trigger triples@[i]]
            0 <= i < triples@.len() ==> {
                &&& t.columns@[0]@[i] matches Some(s) && s@ == spec_cell(triples@[i].subject@)
                &&& t.columns@[1]@[i] matches Some(s) && s@ == spec_cell(
                    RawTermV::Named(triples@[i].predicate@),
                )
                &&& t.columns@[2]@[i] matches Some(s) && s@ == spec_cell(triples@[i].object@)
            },
{
    let n = triples.len();
    let mut subs: Vec<Option<String>> = Vec::new();
    let mut preds: Vec<Option<String>> = Vec::new();
    let mut objs: Vec<Option<String>> = Vec::new();
    let mut i: usize = 0;
    while i < n
        invariant
            i <= n,
            n == triples@.len(),
            subs@.len() == i,
            preds@.len() == i,
            objs@.len() == i,
            forall|k: int|
                0 <= k < i ==> ((#[trigger] subs@[k]) matches Some(s) && s@ == spec_cell(
                    triples@[k].subject@,
                )),
            forall|k: int|
                0 <= k < i ==> ((#[trigger] preds@[k]) matches Some(s) && s@ == spec_cell(
                    RawTermV::Named(triples@[k].predicate@),
                )),
            forall|k: int|
                0 <= k < i ==> ((#[trigger] objs@[k]) matches Some(s) && s@ == spec_cell(
                    triples@[k].object@,
                )),
        decreases n - i,
    {
        let tr = &triples[i];
        subs.push(Some(serialize(&raw_to_term(&tr.subject))));
        preds.push(Some(serialize(&RdfTerm::Iri(tr.predicate.clone()))));
        objs.push(Some(serialize(&raw_to_term(&tr.object))));
        i = i + 1;
    }
    let mut names: Vec<String> = Vec::new();
    names.push(String::from_str("subject"));
    names.push(String::from_str("predicate"));
    names.push(String::from_str("object"));
    let mut columns: Vec<Vec<Option<String>>> = Vec::new();
    columns.push(subs);
    columns.push(preds);
    columns.push(objs);
    Table { names, columns }
}

/// A drained query result, as plain values.
pub enum QueryData {
    Solutions(Vec<String>, Vec<Vec<Option<RawTerm>>>),
    Boolean(bool),
    Triples(Vec<RawTriple>),
}

/// What a query yields after projection: a table of solutions, a bare
/// boolean, or a triple table.
pub enum QueryOutcome {
    Table(Table),
    Bool(bool),
    Triples(Table),
}

/// A projected outcome is well formed: tables are rectangular, a zero-column
/// table has zero rows, and a triple table has its three fixed columns.
pub open spec fn outcome_wf(o: QueryOutcome) -> bool {
    match o {
        QueryOutcome::Table(t) => t.wf() && (t.names@.len() == 0 ==> t.spec_rows() == 0),
        QueryOutcome::Bool(_) => true,
        QueryOutcome::Triples(t) => t.wf() && t.names@.len() == 3,
    }
}

/// Projects a drained query result into its uniform outcome shape. A boolean
/// result yields exactly a boolean — never a table; solutions yield a table;
/// constructed triples yield the three-column triple table.
pub fn project(d: QueryData) -> (r: QueryOutcome)
    requires
        d matches QueryData::Solutions(vars, rows) ==> forall|i: int|
            0 <= i < rows@.len() ==> (#[trigger] rows@[i])@.len() == vars@.len(),
    ensures
        outcome_wf(r),
        match d {
            QueryData::Boolean(b) => r == QueryOutcome::Bool(b),
            QueryData::Solutions(vars, rows) => r matches QueryOutcome::Table(t) && t.wf()
                && t.names@ == vars@ && (vars@.len() > 0 ==> t.spec_rows() == rows@.len()) && (
            vars@.len() == 0 ==> t.spec_rows() == 0) && forall|j: int, i: int|
                0 <= j < t.columns@.len() && 0 <= i < rows@.len() ==> cell_matches(
                    #[trigger] t.columns@[j]@[i],
                    rows@[i]@[j],
                ),
            QueryData::Triples(ts) => r matches QueryOutcome::Triples(t) && t.wf()
                && t.spec_rows() == ts@.len() && forall|i: int| #![trigger ts@[i]]
                0 <= i < ts@.len() ==> {
                    &&& t.columns@[0]@[i] matches Some(s) && s@ == spec_cell(ts@[i].subject@)
                    &&& t.columns@[1]@[i] matches Some(s) && s@ == spec_cell(
                        RawTermV::Named(ts@[i].predicate@),
                    )
                    &&& t.columns@[2]@[i] matches Some(s) && s@ == spec_cell(ts@[i].object@)
                },
        },
{
    match d {
        QueryData::Boolean(b) => QueryOutcome::Bool(b),
        QueryData::Solutions(vars, rows) => QueryOutcome::Table(project_solutions(vars, &rows)),
        QueryData::Triples(ts) => QueryOutcome::Triples(project_triples(&ts)),
    }
}

/// Drains every solution row out of the engine iterator; each row carries one
/// entry per variable, in the variables' order.
pub(crate) fn drain_solutions(
    it: &mut oxigraph::sparql::QuerySolutionIter<'static>,
    vars: &Vec<String>,
) -> (r: Result<Vec<Vec<Option<RawTerm>>>, RdfError>)
    ensures
        r matches Ok(rows) ==> forall|i: int|
            0 <= i < rows@.len() ==> (#[trigger] rows@[i])@.len() == vars@.len(),
        r matches Err(e) ==> e matches RdfError::QueryExecutionError(_),
{
    let mut rows: Vec<Vec<Option<RawTerm>>> = Vec::new();
    let mut budget: usize = usize::MAX;
    loop
        invariant
            forall|i: int| 0 <= i < rows@.len() ==> (#[trigger] rows@[i])@.len() == vars@.len(),
        decreases budget,
    {
        if budget == 0 {
            return Err(RdfError::QueryExecutionError(String::from_str("result stream too long")));
        }
        budget = budget - 1;
        match solutions_next(it) {
            None => {
                return Ok(rows);
            }
            Some(item) => {
                match item {
                    Err(e) => {
                        return Err(RdfError::QueryExecutionError(e));
                    }
                    Ok(sol) => {
                        let mut row: Vec<Option<RawTerm>> = Vec::new();
                        let mut j: usize = 0;
                        while j < vars.len()
                            invariant
                                j <= vars@.len(),
                                row@.len() == j,
                            decreases vars@.len() - j,
                        {
                            row.push(solution_get(&sol, vars[j].as_str()));
                            j = j + 1;
                        }
                        rows.push(row);
                    }
                }
            }
        }
    }
}

/// Drains every constructed triple out of the engine iterator.
pub(crate) fn drain_triples(it: &mut oxigraph::sparql::QueryTripleIter<'static>) -> (r: Result<
    Vec<RawTriple>,
    RdfError,
>)
    ensures
        r matches Err(e) ==> e matches RdfError::QueryExecutionError(_),
{
    let mut ts: Vec<RawTriple> = Vec::new();
    let mut budget: usize = usize::MAX;
    loop
        decreases budget,
    {
        if budget == 0 {
            return Err(RdfError::QueryExecutionError(String::from_str("result stream too long")));
        }
        budget = budget - 1;
        match triples_next(it) {
            None => {
                return Ok(ts);
            }
            Some(item) => {
                match item {
                    Err(e) => {
                        return Err(RdfError::QueryExecutionError(e));
                    }
                    Ok(t) => {
                        ts.push(t);
                    }
                }
            }
        }
    }
}

} // verus!
