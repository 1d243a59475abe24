//! Errors of the data-access layer.

use vstd::prelude::*;

verus! {

#[verifier::external_type_specification]
#[verifier::external_body]
pub struct ExDbError(surrealdb::error::Db);

#[verifier::external_type_specification]
#[verifier::external_body]
pub struct ExIoErrorKind(std::io::ErrorKind);

/// The failures that data-access operations report to their callers.
#[derive(Debug)]
pub enum Error {
    /// The per-request context could not be obtained.
    CtxFail,
    /// A document field is present but has another type than the one named.
    XValueNotOfType(&'static str),
    /// A required document field is absent.
    XPropertyNotFound(String),
    /// A process-wide resource was read before it was initialized.
    StateNotAccessed,
    /// The datastore returned no record where one was expected.
    StoreFailToCreate(String),
    NoCurrentProject,
    /// An error of the datastore engine, passed through.
    Surreal(surrealdb::error::Db),
    /// An input/output error, by its kind.
    IO(std::io::ErrorKind),
}

/// What went wrong when a document was read as a typed value.
pub enum Fault {
    NotFound(Seq<char>),
    NotOfType(&'static str),
}

impl Error {
    /// Whether this error reports the fault `f`.
    pub open spec fn reports(self, f: Fault) -> bool {
        match f {
            Fault::NotFound(k) => self is XPropertyNotFound && self->XPropertyNotFound_0@ == k,
            Fault::NotOfType(t) => self == Error::XValueNotOfType(t),
        }
    }
}

} // verus!
