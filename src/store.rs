//! The store's side of the pipeline: what an upsert sends, what comes back,
//! and how a store failure is classified.

use vstd::prelude::*;

use crate::document::{genre_label, genre_name, kind_label, kind_name, Doc};

verus! {

/// The arguments of the store's create-or-update call, keyed by `id`.
/// `kind` and `genre` are their lower-case labels.
#[derive(Debug, Clone)]
pub struct UpsertRequest {
    pub id: u128,
    pub title: String,
    pub outline: String,
    pub author: String,
    pub content: String,
    pub tags: Vec<String>,
    pub image: String,
    pub kind: String,
    pub genre: String,
}

/// What the store answers to a successful upsert: the document's identity
/// and its creation time, in milliseconds since the Unix epoch.
#[derive(Debug, Clone, Copy, PartialEq, Eq, Structural)]
pub struct DocCreationAck {
    pub id: u128,
    pub created_at: i64,
}

/// `r` is the upsert that stores `doc`.
pub open spec fn is_request_for(doc: Doc, r: UpsertRequest) -> bool {
    &&& r.id == doc.id
    &&& r.title == doc.front.title
    &&& r.outline == doc.front.outline
    &&& r.author == doc.front.author
    &&& r.content == doc.content
    &&& r.tags == doc.front.tags
    &&& r.image == doc.front.image
    &&& r.kind@ == kind_label(doc.front.kind)
    &&& r.genre@ == genre_label(doc.front.genre)
}

/// The upsert that stores a document.
pub fn upsert_request(doc: Doc) -> (r: UpsertRequest)
    ensures
        is_request_for(doc, r),
{
    let kind = kind_name(doc.front.kind);
    let genre = genre_name(doc.front.genre);
    let Doc { front, id, content, .. } = doc;
    UpsertRequest {
        id,
        title: front.title,
        outline: front.outline,
        author: front.author,
        content,
        tags: front.tags,
        image: front.image,
        kind,
        genre,
    }
}

/// A store failure as the database driver reports it.
#[derive(Debug, Clone)]
pub enum DbFailure {
    /// A query that had to return a row returned none.
    RowNotFound,
    /// The database refused the statement: its SQLSTATE code where it gave
    /// one, its detail text where it gave one, and its message.
    Database { code: Option<String>, details: Option<String>, message: String },
    /// Any other failure, described.
    Other(String),
}

/// A store failure, classified so that a caller can tell a conflict on a
/// unique key from a breach of another constraint.
#[derive(Debug, Clone, PartialEq, Eq)]
pub enum ProvideError {
    /// The requested entity does not exist.
    NotFound,
    /// The operation violates a uniqueness constraint.
    UniqueViolation(String),
    /// The operation violates another constraint of the data model.
    ModelViolation(String),
    /// A failure of no known class.
    UnHandledError(String),
}

/// The SQLSTATE code of a unique-key violation.
pub open spec fn unique_violation_code() -> Seq<char> {
    seq!['2', '3', '5', '0', '5']
}

/// A code of the SQLSTATE class of integrity-constraint violations.
pub open spec fn is_integrity_code(code: Seq<char>) -> bool {
    code.len() >= 2 && code[0] == '2' && code[1] == '3'
}

/// The class that a database code gives a failure, where it gives one.
pub open spec fn class_of_code(code: Seq<char>, details: Option<String>, message: String) -> Option<
    ProvideError,
> {
    if code == unique_violation_code() {
        Some(
            ProvideError::UniqueViolation(
                match details {
                    Some(d) => d,
                    None => message,
                },
            ),
        )
    } else if is_integrity_code(code) {
        Some(ProvideError::ModelViolation(message))
    } else {
        None
    }
}

/// The classified error for a driver failure.
pub open spec fn provide_error_of(failure: DbFailure) -> ProvideError {
    match failure {
        DbFailure::RowNotFound => ProvideError::NotFound,
        DbFailure::Database { code, details, message } => match code {
            Some(c) => match class_of_code(c@, details, message) {
                Some(e) => e,
                None => ProvideError::UnHandledError(message),
            },
            None => ProvideError::UnHandledError(message),
        },
        DbFailure::Other(text) => ProvideError::UnHandledError(text),
    }
}

fn is_integrity_class(code: &String) -> (r: bool)
    ensures
        r == is_integrity_code(code@),
{
    let s = code.as_str();
    s.unicode_len() >= 2 && s.get_char(0) == '2' && s.get_char(1) == '3'
}

/// Classifies a failure by its SQLSTATE code: a unique-key violation
/// carries the database's detail text (its message where it gave none),
/// any other integrity violation its message; other codes give `None`.
pub fn classify_code(code: &String, details: Option<String>, message: String) -> (r: Option<
    ProvideError,
>)
    ensures
        r == class_of_code(code@, details, message),
{
    proof {
        reveal_strlit("23505");
        assert("23505"@ =~= unique_violation_code());
    }
    if *code == String::from_str("23505") {
        match details {
            Some(d) => Some(ProvideError::UniqueViolation(d)),
            None => Some(ProvideError::UniqueViolation(message)),
        }
    } else if is_integrity_class(code) {
        Some(ProvideError::ModelViolation(message))
    } else {
        None
    }
}

impl From<DbFailure> for ProvideError {
    fn from(failure: DbFailure) -> (r: ProvideError) {
        match failure {
            DbFailure::RowNotFound => ProvideError::NotFound,
            DbFailure::Database { code, details, message } => match code {
                Some(c) => {
                    let shown = message.clone();
                    match classify_code(&c, details, message) {
                        Some(e) => e,
                        None => ProvideError::UnHandledError(shown),
                    }
                },
                None => ProvideError::UnHandledError(message),
            },
            DbFailure::Other(text) => ProvideError::UnHandledError(text),
        }
    }
}

impl vstd::std_specs::convert::FromSpecImpl<DbFailure> for ProvideError {
    open spec fn obeys_from_spec() -> bool {
        true
    }

    open spec fn from_spec(failure: DbFailure) -> ProvideError {
        provide_error_of(failure)
    }
}

} // verus!
