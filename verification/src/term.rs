//! The textual term codec: a compact grammar for IRIs, blank nodes and
//! literals, with `serialize` and `parse` as each other's inverse on
//! serial-clean terms.

use vstd::prelude::*;
use vstd::string::*;
use crate::error::RdfError;

verus! {

/// How a literal is tagged: plain string, language-tagged, or typed.
/// Exactly one of language tag or datatype may be present; absence of both
/// means the plain-string datatype.
#[derive(Debug)]
pub enum LiteralTag {
    PlainString,
    LanguageTagged(String),
    Typed(String),
}

/// A single RDF term in its textual data model.
#[derive(Debug)]
pub enum RdfTerm {
    Iri(String),
    BlankNode(String),
    Literal(String, LiteralTag),
}

/// Spec-level image of `LiteralTag`.
pub enum TagV {
    PlainString,
    LanguageTagged(Seq<char>),
    Typed(Seq<char>),
}

/// Spec-level image of `RdfTerm`.
pub enum TermV {
    Iri(Seq<char>),
    BlankNode(Seq<char>),
    Literal(Seq<char>, TagV),
}

impl View for LiteralTag {
    type V = TagV;

    open spec fn view(&self) -> TagV {
        match self {
            LiteralTag::PlainString => TagV::PlainString,
            LiteralTag::LanguageTagged(l) => TagV::LanguageTagged(l@),
            LiteralTag::Typed(d) => TagV::Typed(d@),
        }
    }
}

impl View for RdfTerm {
    type V = TermV;

    open spec fn view(&self) -> TermV {
        match self {
            RdfTerm::Iri(i) => TermV::Iri(i@),
            RdfTerm::BlankNode(b) => TermV::BlankNode(b@),
            RdfTerm::Literal(v, t) => TermV::Literal(v@, t@),
        }
    }
}

impl PartialEq for LiteralTag {
    fn eq(&self, other: &LiteralTag) -> (r: bool) {
        match (self, other) {
            (LiteralTag::PlainString, LiteralTag::PlainString) => true,
            (LiteralTag::LanguageTagged(a), LiteralTag::LanguageTagged(b)) => *a == *b,
            (LiteralTag::Typed(a), LiteralTag::Typed(b)) => *a == *b,
            _ => false,
        }
    }
}

impl vstd::std_specs::cmp::PartialEqSpecImpl for LiteralTag {
    open spec fn obeys_eq_spec() -> bool {
        true
    }

    open spec fn eq_spec(&self, other: &LiteralTag) -> bool {
        self@ == other@
    }
}

impl PartialEq for RdfTerm {
    fn eq(&self, other: &RdfTerm) -> (r: bool) {
        match (self, other) {
            (RdfTerm::Iri(a), RdfTerm::Iri(b)) => *a == *b,
            (RdfTerm::BlankNode(a), RdfTerm::BlankNode(b)) => *a == *b,
            (RdfTerm::Literal(va, ta), RdfTerm::Literal(vb, tb)) => *va == *vb && *ta == *tb,
            _ => false,
        }
    }
}

impl vstd::std_specs::cmp::PartialEqSpecImpl for RdfTerm {
    open spec fn obeys_eq_spec() -> bool {
        true
    }

    open spec fn eq_spec(&self, other: &RdfTerm) -> bool {
        self@ == other@
    }
}

/// The canonical textual form of a term.
pub open spec fn spec_serialize(t: TermV) -> Seq<char> {
    match t {
        TermV::Iri(i) => seq!['<'] + i + seq!['>'],
        TermV::BlankNode(b) => seq!['_', ':'] + b,
        TermV::Literal(v, TagV::PlainString) => seq!['"'] + v + seq!['"'],
        TermV::Literal(v, TagV::LanguageTagged(l)) => seq!['"'] + v + seq!['"', '@'] + l,
        TermV::Literal(v, TagV::Typed(d)) => seq!['"'] + v + seq!['"', '^', '^', '<'] + d + seq!['>'],
    }
}

/// Serializes a term into its canonical textual form.
pub fn serialize(t: &RdfTerm) -> (r: String)
    ensures
        r@ == spec_serialize(t@),
{
    proof {
        reveal_strlit("<");
        reveal_strlit(">");
        reveal_strlit("_:");
        reveal_strlit("\"");
        reveal_strlit("\"@");
        reveal_strlit("\"^^<");
    }
    match t {
        RdfTerm::Iri(i) => {
            let mut r = String::from_str("<");
            r.append(i.as_str());
            r.append(">");
            proof {
                assert(r@ =~= spec_serialize(t@));
            }
            r
        }
        RdfTerm::BlankNode(b) => {
            let mut r = String::from_str("_:");
            r.append(b.as_str());
            proof {
                assert(r@ =~= spec_serialize(t@));
            }
            r
        }
        RdfTerm::Literal(v, LiteralTag::PlainString) => {
            let mut r = String::from_str("\"");
            r.append(v.as_str());
            r.append("\"");
            proof {
                assert(r@ =~= spec_serialize(t@));
            }
            r
        }
        RdfTerm::Literal(v, LiteralTag::LanguageTagged(l)) => {
            let mut r = String::from_str("\"");
            r.append(v.as_str());
            r.append("\"@");
            r.append(l.as_str());
            proof {
                assert(r@ =~= spec_serialize(t@));
            }
            r
        }
        RdfTerm::Literal(v, LiteralTag::Typed(d)) => {
            let mut r = String::from_str("\"");
            r.append(v.as_str());
            r.append("\"^^<");
            r.append(d.as_str());
            r.append(">");
            proof {
                assert(r@ =~= spec_serialize(t@));
            }
            r
        }
    }
}

/// A quote immediately followed by `@`, marking a language-tagged form.
pub open spec fn lang_pat(s: Seq<char>, i: int) -> bool {
    0 <= i && i + 1 < s.len() && s[i] == '"' && s[i + 1] == '@'
}

/// A quote followed by `^^<`, marking a typed form.
pub open spec fn typed_pat(s: Seq<char>, i: int) -> bool {
    0 <= i && i + 3 < s.len() && s[i] == '"' && s[i + 1] == '^' && s[i + 2] == '^' && s[i + 3]
        == '<'
}

/// The rightmost language marker at a position strictly below `n`.
pub open spec fn last_lang_pat(s: Seq<char>, n: int) -> Option<int>
    decreases n,
{
    if n <= 0 {
        None
    } else if lang_pat(s, n - 1) {
        Some(n - 1)
    } else {
        last_lang_pat(s, n - 1)
    }
}

/// The rightmost typed marker at a position strictly below `n`.
pub open spec fn last_typed_pat(s: Seq<char>, n: int) -> Option<int>
    decreases n,
{
    if n <= 0 {
        None
    } else if typed_pat(s, n - 1) {
        Some(n - 1)
    } else {
        last_typed_pat(s, n - 1)
    }
}

pub proof fn lemma_last_lang_pat_some(s: Seq<char>, n: int)
    ensures
        last_lang_pat(s, n) matches Some(i) ==> lang_pat(s, i) && 0 <= i < n,
    decreases n,
{
    if n > 0 && !lang_pat(s, n - 1) {
        lemma_last_lang_pat_some(s, n - 1);
    }
}

pub proof fn lemma_last_typed_pat_some(s: Seq<char>, n: int)
    ensures
        last_typed_pat(s, n) matches Some(i) ==> typed_pat(s, i) && 0 <= i < n,
    decreases n,
{
    if n > 0 && !typed_pat(s, n - 1) {
        lemma_last_typed_pat_some(s, n - 1);
    }
}

pub proof fn lemma_last_lang_pat_at(s: Seq<char>, n: int, j: int)
    requires
        lang_pat(s, j),
        j < n,
        forall|k: int| j < k < n ==> !lang_pat(s, k),
    ensures
        last_lang_pat(s, n) == Some(j),
    decreases n,
{
    if n - 1 != j {
        lemma_last_lang_pat_at(s, n - 1, j);
    }
}

pub proof fn lemma_last_typed_pat_at(s: Seq<char>, n: int, j: int)
    requires
        typed_pat(s, j),
        j < n,
        forall|k: int| j < k < n ==> !typed_pat(s, k),
    ensures
        last_typed_pat(s, n) == Some(j),
    decreases n,
{
    if n - 1 != j {
        lemma_last_typed_pat_at(s, n - 1, j);
    }
}

pub proof fn lemma_last_lang_pat_none(s: Seq<char>, n: int)
    requires
        forall|k: int| 0 <= k < n ==> !lang_pat(s, k),
    ensures
        last_lang_pat(s, n) is None,
    decreases n,
{
    if n > 0 {
        lemma_last_lang_pat_none(s, n - 1);
    }
}

pub proof fn lemma_last_typed_pat_none(s: Seq<char>, n: int)
    requires
        forall|k: int| 0 <= k < n ==> !typed_pat(s, k),
    ensures
        last_typed_pat(s, n) is None,
    decreases n,
{
    if n > 0 {
        lemma_last_typed_pat_none(s, n - 1);
    }
}

/// Scans from the right for the last language marker.
fn rfind_lang(s: &str, n: usize) -> (r: Option<usize>)
    requires
        n == s@.len(),
    ensures
        match r {
            Some(i) => last_lang_pat(s@, n as int) == Some(i as int),
            None => last_lang_pat(s@, n as int) is None,
        },
{
    let mut i: usize = n;
    loop
        invariant
            i <= n,
            n == s@.len(),
            last_lang_pat(s@, n as int) == last_lang_pat(s@, i as int),
        decreases i,
    {
        if i == 0 {
            return None;
        }
        if i < n && s.get_char(i - 1) == '"' && s.get_char(i) == '@' {
            return Some(i - 1);
        }
        i = i - 1;
    }
}

/// Scans from the right for the last typed marker.
fn rfind_typed(s: &str, n: usize) -> (r: Option<usize>)
    requires
        n == s@.len(),
    ensures
        match r {
            Some(i) => last_typed_pat(s@, n as int) == Some(i as int),
            None => last_typed_pat(s@, n as int) is None,
        },
{
    let mut i: usize = n;
    loop
        invariant
            i <= n,
            n == s@.len(),
            last_typed_pat(s@, n as int) == last_typed_pat(s@, i as int),
        decreases i,
    {
        if i == 0 {
            return None;
        }
        if n >= 3 && i <= n - 3 && s.get_char(i - 1) == '"' && s.get_char(i) == '^' && s.get_char(
            i + 1,
        ) == '^' && s.get_char(i + 2) == '<' {
            return Some(i - 1);
        }
        i = i - 1;
    }
}

/// What parsing a literal body yields: the grammar's literal step.
pub open spec fn spec_parse_literal(s: Seq<char>) -> Option<TermV> {
    let n = s.len() as int;
    match last_lang_pat(s, n) {
        Some(i) => if i >= 1 {
            Some(TermV::Literal(s.subrange(1, i), TagV::LanguageTagged(s.subrange(i + 2, n))))
        } else {
            None
        },
        None => match last_typed_pat(s, n) {
            Some(i) => if i >= 1 && s[n - 1] == '>' && i + 4 <= n - 1 {
                Some(TermV::Literal(s.subrange(1, i), TagV::Typed(s.subrange(i + 4, n - 1))))
            } else {
                None
            },
            None => if n >= 2 && s[n - 1] == '"' {
                Some(TermV::Literal(s.subrange(1, n - 1), TagV::PlainString))
            } else {
                None
            },
        },
    }
}

/// What parsing yields: the term grammar, longest-match, checked in order.
/// `None` stands for a grammar failure.
pub open spec fn spec_parse(s: Seq<char>) -> Option<TermV> {
    if s.len() >= 2 && s[0] == '_' && s[1] == ':' {
        Some(TermV::BlankNode(s.subrange(2, s.len() as int)))
    } else if s.len() >= 2 && s[0] == '<' && s[s.len() - 1] == '>' {
        Some(TermV::Iri(s.subrange(1, s.len() - 1)))
    } else if s.len() >= 1 && s[0] == '"' {
        spec_parse_literal(s)
    } else {
        Some(TermV::Iri(s))
    }
}

/// The contract shared by `parse_term` and the literal step.
pub open spec fn parse_post(s: Seq<char>, r: Result<RdfTerm, RdfError>) -> bool {
    match spec_parse(s) {
        Some(t) => r matches Ok(x) && x@ == t,
        None => r matches Err(RdfError::TermGrammarError(m)) && m@ == s,
    }
}

fn parse_literal(s: &str) -> (r: Result<RdfTerm, RdfError>)
    requires
        s@.len() >= 1,
        s@[0] == '"',
    ensures
        parse_post(s@, r),
{
    let n = s.unicode_len();
    match rfind_lang(s, n) {
        Some(i) => {
            proof {
                lemma_last_lang_pat_some(s@, n as int);
            }
            if i >= 1 {
                let value = String::from_str(s.substring_char(1, i));
                let lang = String::from_str(s.substring_char(i + 2, n));
                Ok(RdfTerm::Literal(value, LiteralTag::LanguageTagged(lang)))
            } else {
                Err(RdfError::TermGrammarError(String::from_str(s)))
            }
        }
        None => {
            match rfind_typed(s, n) {
                Some(i) => {
                    proof {
                        lemma_last_typed_pat_some(s@, n as int);
                    }
                    if i >= 1 && i + 4 <= n - 1 && s.get_char(n - 1) == '>' {
                        let value = String::from_str(s.substring_char(1, i));
                        let dt = String::from_str(s.substring_char(i + 4, n - 1));
                        Ok(RdfTerm::Literal(value, LiteralTag::Typed(dt)))
                    } else {
                        Err(RdfError::TermGrammarError(String::from_str(s)))
                    }
                }
                None => {
                    if n >= 2 && s.get_char(n - 1) == '"' {
                        let value = String::from_str(s.substring_char(1, n - 1));
                        Ok(RdfTerm::Literal(value, LiteralTag::PlainString))
                    } else {
                        Err(RdfError::TermGrammarError(String::from_str(s)))
                    }
                }
            }
        }
    }
}

/// Parses the textual term grammar: blank node, bracketed IRI, literal, or
/// bare IRI as the lenient fallback.
pub fn parse_term(s: &str) -> (r: Result<RdfTerm, RdfError>)
    ensures
        parse_post(s@, r),
{
    let n = s.unicode_len();
    if n >= 2 && s.get_char(0) == '_' && s.get_char(1) == ':' {
        Ok(RdfTerm::BlankNode(String::from_str(s.substring_char(2, n))))
    } else if n >= 2 && s.get_char(0) == '<' && s.get_char(n - 1) == '>' {
        Ok(RdfTerm::Iri(String::from_str(s.substring_char(1, n - 1))))
    } else if n >= 1 && s.get_char(0) == '"' {
        parse_literal(s)
    } else {
        Ok(RdfTerm::Iri(String::from_str(s)))
    }
}

/// The subject restriction of the grammar: a literal subject is refused.
pub open spec fn subject_post(s: Seq<char>, r: Result<RdfTerm, RdfError>) -> bool {
    match spec_parse(s) {
        Some(t) => match t {
            TermV::Literal(_, _) => r matches Err(RdfError::InvalidSubjectKind(m)) && m@ == s,
            _ => r matches Ok(x) && x@ == t,
        },
        None => r matches Err(RdfError::TermGrammarError(m)) && m@ == s,
    }
}

/// Parses a subject: only an IRI or a blank node is accepted.
pub fn parse_subject(s: &str) -> (r: Result<RdfTerm, RdfError>)
    ensures
        subject_post(s@, r),
{
    match parse_term(s) {
        Ok(t) => match t {
            RdfTerm::Literal(_, _) => Err(RdfError::InvalidSubjectKind(String::from_str(s))),
            other => Ok(other),
        },
        Err(e) => Err(e),
    }
}

/// The predicate restriction of the grammar: only an IRI is accepted.
pub open spec fn predicate_post(s: Seq<char>, r: Result<RdfTerm, RdfError>) -> bool {
    match spec_parse(s) {
        Some(t) => match t {
            TermV::Iri(_) => r matches Ok(x) && x@ == t,
            _ => r matches Err(RdfError::InvalidPredicateKind(m)) && m@ == s,
        },
        None => r matches Err(RdfError::TermGrammarError(m)) && m@ == s,
    }
}

/// Parses a predicate: only an IRI is accepted.
pub fn parse_predicate(s: &str) -> (r: Result<RdfTerm, RdfError>)
    ensures
        predicate_post(s@, r),
{
    match parse_term(s) {
        Ok(t) => match t {
            RdfTerm::Iri(i) => Ok(RdfTerm::Iri(i)),
            _ => Err(RdfError::InvalidPredicateKind(String::from_str(s))),
        },
        Err(e) => Err(e),
    }
}

/// The graph position of a quad: the distinguished default graph, or a named
/// graph's IRI.
#[derive(Debug)]
pub enum RdfGraphName {
    DefaultGraph,
    Named(String),
}

/// Spec-level image of `RdfGraphName`.
pub enum GraphV {
    DefaultGraph,
    Named(Seq<char>),
}

impl View for RdfGraphName {
    type V = GraphV;

    open spec fn view(&self) -> GraphV {
        match self {
            RdfGraphName::DefaultGraph => GraphV::DefaultGraph,
            RdfGraphName::Named(i) => GraphV::Named(i@),
        }
    }
}

impl PartialEq for RdfGraphName {
    fn eq(&self, other: &RdfGraphName) -> (r: bool) {
        match (self, other) {
            (RdfGraphName::DefaultGraph, RdfGraphName::DefaultGraph) => true,
            (RdfGraphName::Named(a), RdfGraphName::Named(b)) => *a == *b,
            _ => false,
        }
    }
}

impl vstd::std_specs::cmp::PartialEqSpecImpl for RdfGraphName {
    open spec fn obeys_eq_spec() -> bool {
        true
    }

    open spec fn eq_spec(&self, other: &RdfGraphName) -> bool {
        self@ == other@
    }
}

/// The text with every leading angle bracket removed.
pub open spec fn spec_trim_lead(s: Seq<char>) -> Seq<char>
    decreases s.len(),
{
    if s.len() > 0 && (s[0] == '<' || s[0] == '>') {
        spec_trim_lead(s.subrange(1, s.len() as int))
    } else {
        s
    }
}

/// The text with every trailing angle bracket removed.
pub open spec fn spec_trim_trail(s: Seq<char>) -> Seq<char>
    decreases s.len(),
{
    if s.len() > 0 && (s[s.len() - 1] == '<' || s[s.len() - 1] == '>') {
        spec_trim_trail(s.subrange(0, s.len() - 1))
    } else {
        s
    }
}

/// The text trimmed of enclosing angle brackets on both sides.
pub open spec fn spec_trim_angles(s: Seq<char>) -> Seq<char> {
    spec_trim_trail(spec_trim_lead(s))
}

/// Removes enclosing angle brackets from a graph IRI argument.
pub fn trim_angles(s: &str) -> (r: String)
    ensures
        r@ == spec_trim_angles(s@),
{
    let n = s.unicode_len();
    proof {
        assert(s@.subrange(0, n as int) =~= s@);
    }
    let mut lo: usize = 0;
    while lo < n && (s.get_char(lo) == '<' || s.get_char(lo) == '>')
        invariant
            lo <= n,
            n == s@.len(),
            spec_trim_lead(s@) == spec_trim_lead(s@.subrange(lo as int, n as int)),
        decreases n - lo,
    {
        proof {
            assert(s@.subrange(lo as int, n as int).subrange(1, (n - lo) as int) =~= s@.subrange(
                lo as int + 1,
                n as int,
            ));
        }
        lo = lo + 1;
    }
    proof {
        assert(spec_trim_lead(s@) == s@.subrange(lo as int, n as int));
    }
    let mut hi: usize = n;
    while hi > lo && (s.get_char(hi - 1) == '<' || s.get_char(hi - 1) == '>')
        invariant
            lo <= hi <= n,
            n == s@.len(),
            spec_trim_lead(s@) == s@.subrange(lo as int, n as int),
            spec_trim_trail(s@.subrange(lo as int, n as int)) == spec_trim_trail(
                s@.subrange(lo as int, hi as int),
            ),
        decreases hi,
    {
        proof {
            assert(s@.subrange(lo as int, hi as int).subrange(0, (hi - lo) as int - 1)
                =~= s@.subrange(lo as int, hi as int - 1));
        }
        hi = hi - 1;
    }
    let r = String::from_str(s.substring_char(lo, hi));
    proof {
        assert(spec_trim_trail(s@.subrange(lo as int, hi as int)) == s@.subrange(
            lo as int,
            hi as int,
        ));
    }
    r
}

/// Builds the graph position from an optional textual argument: absence means
/// the default graph; a present argument is trimmed of enclosing angle
/// brackets and treated as a named graph IRI.
pub fn parse_graph(g: Option<&str>) -> (r: RdfGraphName)
    ensures
        match g {
            Option::None => r@ == GraphV::DefaultGraph,
            Option::Some(t) => r@ == GraphV::Named(spec_trim_angles(t@)),
        },
{
    match g {
        Option::None => RdfGraphName::DefaultGraph,
        Option::Some(t) => RdfGraphName::Named(trim_angles(t)),
    }
}

/// A full quad: subject, predicate, object and graph position.
pub struct Quad {
    pub subject: RdfTerm,
    pub predicate: RdfTerm,
    pub object: RdfTerm,
    pub graph: RdfGraphName,
}

/// Spec-level image of `Quad`.
pub struct QuadV {
    pub subject: TermV,
    pub predicate: TermV,
    pub object: TermV,
    pub graph: GraphV,
}

impl View for Quad {
    type V = QuadV;

    open spec fn view(&self) -> QuadV {
        QuadV {
            subject: self.subject@,
            predicate: self.predicate@,
            object: self.object@,
            graph: self.graph@,
        }
    }
}

/// The IRI of the plain-string datatype.
pub open spec fn xsd_string_iri() -> Seq<char> {
    "http://www.w3.org/2001/XMLSchema#string"@
}

/// The canonical form of a term as the engine stores it: a typed literal
/// whose datatype is the plain-string IRI is a plain literal, and a language
/// tag is ASCII lower case.
pub open spec fn spec_canon_term(t: TermV) -> TermV {
    match t {
        TermV::Literal(v, TagV::Typed(d)) => if d == xsd_string_iri() {
            TermV::Literal(v, TagV::PlainString)
        } else {
            t
        },
        TermV::Literal(v, TagV::LanguageTagged(l)) => TermV::Literal(
            v,
            TagV::LanguageTagged(crate::format::spec_lower(l)),
        ),
        _ => t,
    }
}

/// Rewrites a term into the canonical form the engine stores.
pub fn canon_term(t: RdfTerm) -> (r: RdfTerm)
    ensures
        r@ == spec_canon_term(t@),
{
    match t {
        RdfTerm::Literal(v, LiteralTag::Typed(d)) => {
            if crate::format::str_eq(d.as_str(), "http://www.w3.org/2001/XMLSchema#string") {
                RdfTerm::Literal(v, LiteralTag::PlainString)
            } else {
                RdfTerm::Literal(v, LiteralTag::Typed(d))
            }
        }
        RdfTerm::Literal(v, LiteralTag::LanguageTagged(l)) => RdfTerm::Literal(
            v,
            LiteralTag::LanguageTagged(crate::format::lower_ascii(l.as_str())),
        ),
        other => other,
    }
}

/// Canonicalization is idempotent: rewriting a canonical term changes
/// nothing.
pub proof fn lemma_canon_idem(t: TermV)
    ensures
        spec_canon_term(spec_canon_term(t)) == spec_canon_term(t),
{
    match t {
        TermV::Literal(v, TagV::LanguageTagged(l)) => {
            crate::format::lemma_lower_idem(l);
        }
        _ => {}
    }
}

/// A term is serial-clean when its canonical text contains no spurious
/// literal markers: no stray quote-`@` pair, and no stray quote-`^^<` group,
/// other than the one the serializer itself wrote. Every IRI and blank node
/// is serial-clean; a literal fails it only when its value (or tag text)
/// smuggles in one of the two markers.
pub open spec fn serial_clean(t: TermV) -> bool {
    match t {
        TermV::Iri(_) => true,
        TermV::BlankNode(_) => true,
        TermV::Literal(v, TagV::PlainString) => (forall|i: int|
            !lang_pat(spec_serialize(t), i)) && (forall|i: int| !typed_pat(spec_serialize(t), i)),
        TermV::Literal(v, TagV::LanguageTagged(_)) => forall|i: int|
            i > 1 + v.len() ==> !lang_pat(spec_serialize(t), i),
        TermV::Literal(v, TagV::Typed(_)) => (forall|i: int|
            !lang_pat(spec_serialize(t), i)) && (forall|i: int|
            i > 1 + v.len() ==> !typed_pat(spec_serialize(t), i)),
    }
}

/// The codec round trip: parsing a serial-clean term's canonical text gives
/// the term back.
pub proof fn lemma_parse_serialize(t: TermV)
    requires
        serial_clean(t),
    ensures
        spec_parse(spec_serialize(t)) == Some(t),
{
    let s = spec_serialize(t);
    let n = s.len() as int;
    match t {
        TermV::Iri(i) => {
            assert(s[0] == '<' && s[n - 1] == '>');
            assert(s.subrange(1, n - 1) =~= i);
        }
        TermV::BlankNode(b) => {
            assert(s[0] == '_' && s[1] == ':');
            assert(s.subrange(2, n) =~= b);
        }
        TermV::Literal(v, TagV::PlainString) => {
            assert(s[0] == '"' && s[n - 1] == '"');
            lemma_last_lang_pat_none(s, n);
            lemma_last_typed_pat_none(s, n);
            assert(s.subrange(1, n - 1) =~= v);
        }
        TermV::Literal(v, TagV::LanguageTagged(l)) => {
            let p = 1 + v.len() as int;
            assert(s[0] == '"');
            assert(s[p] == '"' && s[p + 1] == '@');
            assert(lang_pat(s, p));
            lemma_last_lang_pat_at(s, n, p);
            assert(s.subrange(1, p) =~= v);
            assert(s.subrange(p + 2, n) =~= l);
        }
        TermV::Literal(v, TagV::Typed(d)) => {
            let p = 1 + v.len() as int;
            assert(s[0] == '"');
            assert(s[p] == '"' && s[p + 1] == '^' && s[p + 2] == '^' && s[p + 3] == '<');
            assert(typed_pat(s, p));
            lemma_last_lang_pat_none(s, n);
            lemma_last_typed_pat_at(s, n, p);
            assert(s[n - 1] == '>');
            assert(s.subrange(1, p) =~= v);
            assert(s.subrange(p + 4, n - 1) =~= d);
        }
    }
}

} // verus!
