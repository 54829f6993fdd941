use vstd::prelude::*;

verus! {

/// Declares `surrealdb::Error`, the error type of the embedded engine, as an
/// opaque type. Nothing is claimed of what such a value holds: the library
/// only carries it from the engine to the caller.
#[verifier::external_type_specification]
#[verifier::external_body]
pub struct ExEngineError(surrealdb::Error);

/// Declares `std::io::Error` as an opaque type. Nothing is claimed of what
/// such a value holds: the library only carries it through.
#[verifier::external_type_specification]
#[verifier::external_body]
pub struct ExIoError(std::io::Error);

/// Everything that can go wrong in this library.
#[derive(Debug)]
pub enum StoreError {
    /// No execution context could be obtained.
    CtxFail,
    /// A value did not have the shape that the named target type accepts.
    XValueNotOfType(&'static str),
    /// An object has no field of the given name.
    XPropertyNotFound(String),
    /// The engine answered a write without handing back a record; the text
    /// says which operation.
    StoreFailToCreate(String),
    /// An error that the engine reported, unchanged.
    SurrealError(surrealdb::Error),
    /// An input or output error, unchanged.
    IOError(std::io::Error),
}

} // verus!
