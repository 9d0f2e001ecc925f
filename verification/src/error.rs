use vstd::prelude::*;

verus! {

/// Everything that can go wrong in this layer. Each variant carries the
/// offending input (handle index, format token, malformed text, or the
/// engine's own message) so a caller can diagnose the failure.
#[derive(Debug)]
pub enum RdfError {
    /// The handle does not denote a registered store.
    InvalidHandle(usize),
    /// The format token is not one of the recognized aliases.
    UnknownFormat(String),
    /// Persistent backing is not compiled into this build.
    StorageUnavailable,
    /// The persistent store path is inaccessible or corrupt.
    StorageOpenError(String),
    /// Serialized RDF data handed to a load was malformed.
    RdfParseError(String),
    /// The engine could not serialize the store in the requested format.
    SerializationError(String),
    /// A textual term does not follow the term grammar.
    TermGrammarError(String),
    /// A subject parsed to a literal.
    InvalidSubjectKind(String),
    /// A predicate parsed to something other than an IRI.
    InvalidPredicateKind(String),
    /// A string is not a valid IRI.
    InvalidIri(String),
    /// The query text could not be parsed.
    QueryParseError(String),
    /// The query failed during evaluation.
    QueryExecutionError(String),
    /// The update could not be parsed or failed during execution.
    UpdateError(String),
}

impl RdfError {
    /// A short stable name for the error class, for hosts that key on it.
    pub fn kind(&self) -> (r: &'static str)
        ensures
            r@ == self.spec_kind(),
    {
        match self {
            RdfError::InvalidHandle(_) => "InvalidHandle",
            RdfError::UnknownFormat(_) => "UnknownFormat",
            RdfError::StorageUnavailable => "StorageUnavailable",
            RdfError::StorageOpenError(_) => "StorageOpenError",
            RdfError::RdfParseError(_) => "RdfParseError",
            RdfError::SerializationError(_) => "SerializationError",
            RdfError::TermGrammarError(_) => "TermGrammarError",
            RdfError::InvalidSubjectKind(_) => "InvalidSubjectKind",
            RdfError::InvalidPredicateKind(_) => "InvalidPredicateKind",
            RdfError::InvalidIri(_) => "InvalidIri",
            RdfError::QueryParseError(_) => "QueryParseError",
            RdfError::QueryExecutionError(_) => "QueryExecutionError",
            RdfError::UpdateError(_) => "UpdateError",
        }
    }

    pub open spec fn spec_kind(&self) -> Seq<char> {
        match self {
            RdfError::InvalidHandle(_) => "InvalidHandle"@,
            RdfError::UnknownFormat(_) => "UnknownFormat"@,
            RdfError::StorageUnavailable => "StorageUnavailable"@,
            RdfError::StorageOpenError(_) => "StorageOpenError"@,
            RdfError::RdfParseError(_) => "RdfParseError"@,
            RdfError::SerializationError(_) => "SerializationError"@,
            RdfError::TermGrammarError(_) => "TermGrammarError"@,
            RdfError::InvalidSubjectKind(_) => "InvalidSubjectKind"@,
            RdfError::InvalidPredicateKind(_) => "InvalidPredicateKind"@,
            RdfError::InvalidIri(_) => "InvalidIri"@,
            RdfError::QueryParseError(_) => "QueryParseError"@,
            RdfError::QueryExecutionError(_) => "QueryExecutionError"@,
            RdfError::UpdateError(_) => "UpdateError"@,
        }
    }
}

} // verus!
