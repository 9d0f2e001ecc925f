//! The format resolver: maps a case-insensitive format token to an engine
//! serialization format, with distinct input and output tables. On output,
//! single-graph formats are upgraded to their quad-capable supersets so that
//! graph partitioning survives a dump.

use vstd::prelude::*;
use vstd::string::*;
use crate::error::RdfError;

verus! {

/// A serialization format accepted when loading data.
#[derive(Clone, Copy, Debug, PartialEq, Eq, Structural)]
pub enum InputFormat {
    Turtle,
    NTriples,
    RdfXml,
    NQuads,
    TriG,
}

/// A serialization format used when dumping data. Turtle and N-Triples never
/// appear here: their quad-capable supersets TriG and N-Quads stand in.
#[derive(Clone, Copy, Debug, PartialEq, Eq, Structural)]
pub enum OutputFormat {
    RdfXml,
    NQuads,
    TriG,
}

/// ASCII lower-casing of one character.
pub open spec fn spec_lower_char(c: char) -> char {
    if 'A' <= c && c <= 'Z' {
        ((c as u32) + 32) as char
    } else {
        c
    }
}

/// ASCII lower-casing of a token.
pub open spec fn spec_lower(s: Seq<char>) -> Seq<char> {
    s.map_values(|c: char| spec_lower_char(c))
}

/// Relies on str::to_ascii_lowercase: ASCII upper-case letters are mapped to
/// lower case and every other character is kept unchanged.
#[verifier::external_body]
pub(crate) fn lower_ascii(s: &str) -> (r: String)
    ensures
        r@ == spec_lower(s@),
{
    s.to_ascii_lowercase()
}

/// ASCII lower-casing leaves an already lower-cased character unchanged.
pub proof fn lemma_lower_char_idem(c: char)
    ensures
        spec_lower_char(spec_lower_char(c)) == spec_lower_char(c),
{
}

/// ASCII lower-casing is idempotent on whole tokens.
pub proof fn lemma_lower_idem(s: Seq<char>)
    ensures
        spec_lower(spec_lower(s)) == spec_lower(s),
{
    assert(spec_lower(spec_lower(s)) =~= spec_lower(s)) by {
        assert forall|i: int| 0 <= i < s.len() implies spec_lower(spec_lower(s))[i] == spec_lower(
            s,
        )[i] by {
            lemma_lower_char_idem(s[i]);
        }
    }
}

/// Character-wise string equality.
pub fn str_eq(a: &str, b: &str) -> (r: bool)
    ensures
        r == (a@ == b@),
{
    let na = a.unicode_len();
    let nb = b.unicode_len();
    if na != nb {
        return false;
    }
    let mut i: usize = 0;
    while i < na
        invariant
            i <= na,
            na == a@.len(),
            nb == b@.len(),
            na == nb,
            forall|j: int| 0 <= j < i ==> a@[j] == b@[j],
        decreases na - i,
    {
        if a.get_char(i) != b.get_char(i) {
            return false;
        }
        i = i + 1;
    }
    proof {
        assert(a@ =~= b@);
    }
    true
}

/// The input mapping table over lower-cased tokens.
pub open spec fn spec_resolve_input(tok: Seq<char>) -> Option<InputFormat> {
    let t = spec_lower(tok);
    if t == "turtle"@ || t == "ttl"@ {
        Some(InputFormat::Turtle)
    } else if t == "ntriples"@ || t == "nt"@ {
        Some(InputFormat::NTriples)
    } else if t == "rdfxml"@ || t == "rdf"@ || t == "xml"@ {
        Some(InputFormat::RdfXml)
    } else if t == "nquads"@ || t == "nq"@ {
        Some(InputFormat::NQuads)
    } else if t == "trig"@ {
        Some(InputFormat::TriG)
    } else {
        None
    }
}

/// The output mapping table over lower-cased tokens: single-graph formats are
/// resolved to their quad-capable supersets.
pub open spec fn spec_resolve_output(tok: Seq<char>) -> Option<OutputFormat> {
    let t = spec_lower(tok);
    if t == "turtle"@ || t == "ttl"@ || t == "trig"@ {
        Some(OutputFormat::TriG)
    } else if t == "ntriples"@ || t == "nt"@ || t == "nquads"@ || t == "nq"@ {
        Some(OutputFormat::NQuads)
    } else if t == "rdfxml"@ || t == "rdf"@ || t == "xml"@ {
        Some(OutputFormat::RdfXml)
    } else {
        None
    }
}

/// Resolves a format token for loading. Any unrecognized token fails with
/// `UnknownFormat` carrying the token.
pub fn resolve_input(token: &str) -> (r: Result<InputFormat, RdfError>)
    ensures
        match spec_resolve_input(token@) {
            Some(f) => r matches Ok(g) && g == f,
            None => r matches Err(RdfError::UnknownFormat(m)) && m@ == token@,
        },
{
    let low = lower_ascii(token);
    let t = low.as_str();
    if str_eq(t, "turtle") || str_eq(t, "ttl") {
        Ok(InputFormat::Turtle)
    } else if str_eq(t, "ntriples") || str_eq(t, "nt") {
        Ok(InputFormat::NTriples)
    } else if str_eq(t, "rdfxml") || str_eq(t, "rdf") || str_eq(t, "xml") {
        Ok(InputFormat::RdfXml)
    } else if str_eq(t, "nquads") || str_eq(t, "nq") {
        Ok(InputFormat::NQuads)
    } else if str_eq(t, "trig") {
        Ok(InputFormat::TriG)
    } else {
        Err(RdfError::UnknownFormat(String::from_str(token)))
    }
}

/// Resolves a format token for dumping. Any unrecognized token fails with
/// `UnknownFormat` carrying the token.
pub fn resolve_output(token: &str) -> (r: Result<OutputFormat, RdfError>)
    ensures
        match spec_resolve_output(token@) {
            Some(f) => r matches Ok(g) && g == f,
            None => r matches Err(RdfError::UnknownFormat(m)) && m@ == token@,
        },
{
    let low = lower_ascii(token);
    let t = low.as_str();
    if str_eq(t, "turtle") || str_eq(t, "ttl") || str_eq(t, "trig") {
        Ok(OutputFormat::TriG)
    } else if str_eq(t, "ntriples") || str_eq(t, "nt") || str_eq(t, "nquads") || str_eq(t, "nq") {
        Ok(OutputFormat::NQuads)
    } else if str_eq(t, "rdfxml") || str_eq(t, "rdf") || str_eq(t, "xml") {
        Ok(OutputFormat::RdfXml)
    } else {
        Err(RdfError::UnknownFormat(String::from_str(token)))
    }
}

} // verus!
