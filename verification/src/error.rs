//! Error definitions for template compilation and helper evaluation.
//!
//! Construction-time failures (syntax errors, failed validation runs) abort a
//! session before any document is produced; helper errors surfaced during
//! rendering are fatal only to the worker that hit them.
use vstd::prelude::*;

verus! {

/// Error type covering every failure the library can report.
#[derive(Debug)]
pub enum Error {
    /// The template source itself could not be parsed.
    Parse(String),
    /// The template parsed, but its validation render failed: it references
    /// an unregistered helper, or a helper rejected its arguments.
    Validation(String),
    /// A numeric range helper was called with a lower bound above its upper
    /// bound; the fields hold the resolved bounds.
    InvalidRange(i64, i64),
    /// The random-choice helper was called without a non-empty `values`
    /// sequence.
    EmptyValues,
    /// A helper that only the rendering engine can evaluate was called
    /// through the plain-value dispatch.
    UnsupportedHelper,
    /// A render after successful validation failed; carries the engine's
    /// message.
    Render(String),
}

impl Error {
    /// True for construction-time validation failures.
    pub fn is_validation(&self) -> (r: bool)
        ensures
            r == self is Validation,
    {
        match self {
            Error::Validation(_) => true,
            _ => false,
        }
    }

    /// True for template syntax failures.
    pub fn is_parse(&self) -> (r: bool)
        ensures
            r == self is Parse,
    {
        match self {
            Error::Parse(_) => true,
            _ => false,
        }
    }

    /// True when a numeric range helper rejected its bounds.
    pub fn is_invalid_range(&self) -> (r: bool)
        ensures
            r == self is InvalidRange,
    {
        match self {
            Error::InvalidRange(_, _) => true,
            _ => false,
        }
    }

    /// A human-readable description of the error: the carried message, or
    /// the variant's fixed text.
    pub fn message(&self) -> (r: String)
        ensures
            self is Parse ==> r == self->Parse_0,
            self is Validation ==> r == self->Validation_0,
            self is Render ==> r == self->Render_0,
            self is InvalidRange ==> r@ == "helper range start exceeds end"@,
            self is EmptyValues ==> r@ == "random helper needs a non-empty values sequence"@,
            self is UnsupportedHelper ==> r@
                == "helper is only available through the rendering engine"@,
    {
        match self {
            Error::Parse(m) => m.clone(),
            Error::Validation(m) => m.clone(),
            Error::InvalidRange(_, _) => range_message(),
            Error::EmptyValues => values_message(),
            Error::UnsupportedHelper => unsupported_message(),
            Error::Render(m) => m.clone(),
        }
    }
}

fn range_message() -> (r: String)
    ensures
        r@ == "helper range start exceeds end"@,
{
    "helper range start exceeds end".to_owned()
}

fn values_message() -> (r: String)
    ensures
        r@ == "random helper needs a non-empty values sequence"@,
{
    "random helper needs a non-empty values sequence".to_owned()
}

fn unsupported_message() -> (r: String)
    ensures
        r@ == "helper is only available through the rendering engine"@,
{
    "helper is only available through the rendering engine".to_owned()
}

} // verus!
