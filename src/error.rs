use vstd::prelude::*;
use crate::store::StoreFailure;

verus! {

/// The extended result code the store reports when an insert breaks a
/// `UNIQUE` constraint (`SQLITE_CONSTRAINT_UNIQUE`).
pub const UNIQUE_CONSTRAINT_CODE: i32 = 2067;

/// What the repository makes of a store's result code.
#[derive(Clone, Copy, Debug, PartialEq, Eq, Structural)]
pub enum StoreErrorKind {
    UniqueViolation,
    Other,
}

/// The errors of the repository and of schema initialisation.
#[derive(Debug)]
pub enum ResourceError {
    /// The name is made of decimal digits only.
    InvalidInput { name: String },
    /// A resource with this name already exists.
    DuplicateName { name: String },
    /// A lookup matched no row.
    NotFound,
    /// Any other failure of the store: what was being done, then the
    /// store's message.
    Storage { message: String },
    /// A schema statement failed: the statement and the store's message.
    SchemaInit { statement: String, message: String },
}

/// The table from the store's result codes to the kinds the repository
/// tells apart.
pub open spec fn kind_of_code_spec(code: Option<i32>) -> StoreErrorKind {
    if code == Some(UNIQUE_CONSTRAINT_CODE) {
        StoreErrorKind::UniqueViolation
    } else {
        StoreErrorKind::Other
    }
}

/// `e` is a `Storage` error whose message is `context` followed by the
/// store's message.
pub open spec fn is_storage_with(e: ResourceError, context: Seq<char>, failure: StoreFailure) -> bool {
    e matches ResourceError::Storage { message } && message@ == context + failure.message@
}

/// What a failed insert of `name` says it was doing.
pub open spec fn inserting_context(name: Seq<char>) -> Seq<char> {
    "while inserting resource '"@ + name + "': "@
}

/// `e` is what a failed insert of `name` becomes: `DuplicateName` for a
/// unique-constraint violation, `Storage` naming the resource otherwise.
pub open spec fn insert_failure_answers(name: String, failure: StoreFailure, e: ResourceError) -> bool {
    match kind_of_code_spec(failure.code) {
        StoreErrorKind::UniqueViolation => e == (ResourceError::DuplicateName { name }),
        StoreErrorKind::Other => is_storage_with(e, inserting_context(name@), failure),
    }
}

/// Classifies a store result code.
pub fn kind_of_code(code: Option<i32>) -> (r: StoreErrorKind)
    ensures
        r == kind_of_code_spec(code),
{
    match code {
        Some(c) => {
            if c == UNIQUE_CONSTRAINT_CODE {
                StoreErrorKind::UniqueViolation
            } else {
                StoreErrorKind::Other
            }
        },
        None => StoreErrorKind::Other,
    }
}

/// A `Storage` error: `context`, then the store's message.
pub fn storage_error(context: String, failure: StoreFailure) -> (r: ResourceError)
    ensures
        is_storage_with(r, context@, failure),
{
    let mut message = context;
    message.append(failure.message.as_str());
    ResourceError::Storage { message }
}

/// What a failed insert of `name` says it was doing.
pub fn inserting(name: &String) -> (r: String)
    ensures
        r@ == inserting_context(name@),
{
    let mut r = String::from_str("while inserting resource '");
    r.append(name.as_str());
    r.append("': ");
    r
}

/// Translates the failure of inserting `name`: a unique-constraint
/// violation becomes `DuplicateName` carrying the name, every other
/// failure becomes `Storage` naming the resource and carrying the store's
/// message.
pub fn insert_failure(name: String, failure: StoreFailure) -> (r: ResourceError)
    ensures
        insert_failure_answers(name, failure, r),
        (r is DuplicateName) <==> failure.code == Some(UNIQUE_CONSTRAINT_CODE),
{
    match kind_of_code(failure.code) {
        StoreErrorKind::UniqueViolation => ResourceError::DuplicateName { name },
        StoreErrorKind::Other => storage_error(inserting(&name), failure),
    }
}

} // verus!
