//! The resource repository: insert a named resource, find its identifier
//! by name, find its name by identifier.

use vstd::prelude::*;
use crate::error::{
    insert_failure, insert_failure_answers, is_storage_with, storage_error, ResourceError,
    UNIQUE_CONSTRAINT_CODE,
};
use crate::store::{
    column_blob, column_integer, describe_failure, execute, last_insert_rowid, next_row, query,
    utf8_decoded, utf8_text, Sent, SqlParam, Store, StoreFailure,
};

verus! {

pub const INSERT_RESOURCE: &'static str = "INSERT INTO resource (name) VALUES (?1)";

/// The name is read as a blob, so that its bytes arrive whole and are
/// checked as UTF-8 here.
pub const SELECT_NAME_BY_ID: &'static str = "SELECT CAST(name AS BLOB) FROM resource WHERE id = ?1";

pub const SELECT_ID_BY_NAME: &'static str = "SELECT id FROM resource WHERE name = ?1";

/// A name every character of which is a decimal digit. The empty name is
/// one too, as no character of it breaks the rule.
pub open spec fn is_digit_name(s: Seq<char>) -> bool {
    forall|i: int| 0 <= i < s.len() ==> '0' <= #[trigger] s[i] <= '9'
}

/// Tells whether every character of `name` is a decimal digit.
pub fn all_digits(name: &str) -> (r: bool)
    ensures
        r == is_digit_name(name@),
{
    let n = name.unicode_len();
    let mut i: usize = 0;
    while i < n
        invariant
            n == name@.len(),
            i <= n,
            forall|j: int| 0 <= j < i ==> '0' <= #[trigger] name@[j] <= '9',
        decreases n - i,
    {
        let c = name.get_char(i);
        if !('0' <= c && c <= '9') {
            return false;
        }
        i = i + 1;
    }
    true
}

// ---- inserting ----

/// The statement an insert of `name` sends, accepted or not.
pub open spec fn insert_statement(name: String, accepted: bool) -> Sent {
    (INSERT_RESOURCE@, seq![SqlParam::Text(name)], accepted)
}

/// `r` is what an insert of `name` ends in, given what the store
/// answered: the assigned identifier, or the failure translated.
pub open spec fn insert_answers(name: String, outcome: Result<i64, StoreFailure>, r: Result<i64, ResourceError>) -> bool {
    match outcome {
        Ok(id) => r == Ok::<i64, ResourceError>(id),
        Err(failure) => r is Err && insert_failure_answers(name, failure, r->Err_0),
    }
}

/// `create_resource(store, name)` answered `r` and took the store's record
/// from `before` to `after`: a digit-only name is refused and nothing is
/// sent; any other name sends one insert, and the answer follows from what
/// the store said: an identifier exactly where the insert was accepted.
pub open spec fn create_answers(name: String, before: Seq<Sent>, after: Seq<Sent>, r: Result<i64, ResourceError>) -> bool {
    if is_digit_name(name@) {
        after == before && r == Err::<i64, ResourceError>(ResourceError::InvalidInput { name })
    } else {
        after.len() > 0 && after == before.push(insert_statement(name, after.last().2))
            && exists|outcome: Result<i64, StoreFailure>|
            #[trigger] insert_answers(name, outcome, r) && (outcome is Ok <==> after.last().2)
    }
}

/// Finishes an insert of `name` from the store's answer: the identifier
/// the store assigned, or the failure translated by `insert_failure`.
pub fn insert_result(name: String, outcome: Result<i64, StoreFailure>) -> (r: Result<i64, ResourceError>)
    ensures
        insert_answers(name, outcome, r),
{
    match outcome {
        Ok(id) => Ok(id),
        Err(failure) => Err(insert_failure(name, failure)),
    }
}

/// An insert that the store refuses for breaking the unique constraint
/// on names ends in `DuplicateName` carrying the name that was given, and
/// in nothing else: every other refusal ends in `Storage`.
pub proof fn lemma_unique_violation_is_duplicate(name: String, failure: StoreFailure, r: Result<i64, ResourceError>)
    requires
        insert_answers(name, Err(failure), r),
    ensures
        failure.code == Some(UNIQUE_CONSTRAINT_CODE) ==> r == Err::<i64, ResourceError>(
            ResourceError::DuplicateName { name },
        ),
        failure.code != Some(UNIQUE_CONSTRAINT_CODE) ==> (r is Err && r->Err_0 is Storage),
{
}

/// Inserts a resource named `name` and returns the identifier the store
/// assigned to it.
///
/// A name made only of digits is refused with `InvalidInput` and nothing
/// is sent. Otherwise the insert is sent with the name as its parameter;
/// the assigned identifier is read only after it succeeded. A
/// unique-constraint violation becomes `DuplicateName` carrying `name`,
/// any other failure `Storage`.
pub fn create_resource(store: &mut Store, name: String) -> (r: Result<i64, ResourceError>)
    ensures
        create_answers(name, old(store).sent(), final(store).sent(), r),
{
    if all_digits(name.as_str()) {
        return Err(ResourceError::InvalidInput { name });
    }
    let params = vec![SqlParam::Text(name.clone())];
    assert(params@ =~= seq![SqlParam::Text(name)]);
    let outcome = match execute(store, INSERT_RESOURCE, params) {
        Ok(_) => Ok(last_insert_rowid(store)),
        Err(e) => Err(describe_failure(&e)),
    };
    let r = insert_result(name, outcome);
    assert(insert_answers(name, outcome, r));
    r
}

// ---- looking up ----

/// `r` is what a lookup ends in, given the first matching value the store
/// gave: that value; `NotFound` where there was none; `Storage`, `context`
/// then the store's message, where the store failed.
pub open spec fn lookup_answers<T>(context: Seq<char>, found: Result<Option<T>, StoreFailure>, r: Result<T, ResourceError>) -> bool {
    match found {
        Ok(Some(v)) => r == Ok::<T, ResourceError>(v),
        Ok(None) => r == Err::<T, ResourceError>(ResourceError::NotFound),
        Err(failure) => r is Err && is_storage_with(r->Err_0, context, failure),
    }
}

/// The answer of a lookup from the store's answer: see `lookup_answers`.
pub fn lookup_result<T>(context: String, found: Result<Option<T>, StoreFailure>) -> (r: Result<T, ResourceError>)
    ensures
        lookup_answers(context@, found, r),
{
    match found {
        Ok(Some(v)) => Ok(v),
        Ok(None) => Err(ResourceError::NotFound),
        Err(failure) => Err(storage_error(context, failure)),
    }
}

/// A failure the library itself reports about what the store returned.
fn own_failure(message: &str) -> (r: StoreFailure)
    ensures
        r.code is None,
        r.message@ == message@,
{
    StoreFailure { code: None, message: String::from_str(message) }
}

/// What a lookup by identifier says it was doing.
pub open spec fn id_context() -> Seq<char> {
    "while getting a resource by id: "@
}

/// What a lookup by `name` says it was doing.
pub open spec fn name_context(name: Seq<char>) -> Seq<char> {
    "while getting resource '"@ + name + "': "@
}

/// The statement a lookup by identifier sends.
pub open spec fn select_by_id_statement(id: u32, accepted: bool) -> Sent {
    (SELECT_NAME_BY_ID@, seq![SqlParam::Integer(id as i64)], accepted)
}

/// The statement a lookup by name sends.
pub open spec fn select_by_name_statement(name: String, accepted: bool) -> Sent {
    (SELECT_ID_BY_NAME@, seq![SqlParam::Text(name)], accepted)
}

/// `get_resource_id(store, id)` answered `r`: it sent its one query and
/// the answer follows from what the store gave; a refused query gives
/// `Storage`.
pub open spec fn get_answers(id: u32, before: Seq<Sent>, after: Seq<Sent>, r: Result<String, ResourceError>) -> bool {
    after.len() > 0 && after == before.push(select_by_id_statement(id, after.last().2))
        && exists|found: Result<Option<String>, StoreFailure>|
        #[trigger] lookup_answers(id_context(), found, r) && (!after.last().2 ==> found is Err)
}

/// `get_resource_name(store, name)` answered `r`: it sent its one query
/// and the answer follows from what the store gave; a refused query gives
/// `Storage`.
pub open spec fn search_answers(name: String, before: Seq<Sent>, after: Seq<Sent>, r: Result<i64, ResourceError>) -> bool {
    after.len() > 0 && after == before.push(select_by_name_statement(name, after.last().2))
        && exists|found: Result<Option<i64>, StoreFailure>|
        #[trigger] lookup_answers(name_context(name@), found, r) && (!after.last().2 ==> found is Err)
}

/// The first matching row's name.
fn first_name(rows: &mut libsql::Rows) -> (r: Result<Option<String>, StoreFailure>) {
    let row = match next_row(rows) {
        Ok(Some(row)) => row,
        Ok(None) => return Ok(None),
        Err(e) => return Err(describe_failure(&e)),
    };
    match column_blob(&row, 0) {
        Ok(Some(bytes)) => match utf8_text(bytes) {
            Some(name) => Ok(Some(name)),
            None => Err(own_failure("the stored name is not valid UTF-8")),
        },
        Ok(None) => Err(own_failure("the stored name is not text")),
        Err(e) => Err(describe_failure(&e)),
    }
}

/// The first matching row's identifier.
fn first_id(rows: &mut libsql::Rows) -> (r: Result<Option<i64>, StoreFailure>) {
    let row = match next_row(rows) {
        Ok(Some(row)) => row,
        Ok(None) => return Ok(None),
        Err(e) => return Err(describe_failure(&e)),
    };
    match column_integer(&row, 0) {
        Ok(Some(id)) => Ok(Some(id)),
        Ok(None) => Err(own_failure("the stored identifier is not an integer")),
        Err(e) => Err(describe_failure(&e)),
    }
}

/// The name of the resource with identifier `id`; `NotFound` where no
/// resource has it; `Storage` where the store fails or holds something
/// other than a UTF-8 name.
pub fn get_resource_id(store: &mut Store, id: u32) -> (r: Result<String, ResourceError>)
    ensures
        get_answers(id, old(store).sent(), final(store).sent(), r),
{
    let params = vec![SqlParam::Integer(id as i64)];
    assert(params@ =~= seq![SqlParam::Integer(id as i64)]);
    let found = match query(store, SELECT_NAME_BY_ID, params) {
        Ok(mut rows) => first_name(&mut rows),
        Err(e) => Err(describe_failure(&e)),
    };
    let r = lookup_result(String::from_str("while getting a resource by id: "), found);
    assert(lookup_answers(id_context(), found, r));
    r
}

/// The identifier of the resource named `name`; `NotFound` where none
/// has that name; `Storage`, naming the resource, where the store fails.
/// Names are unique in the store; were they not, the first row the store
/// yields would answer.
pub fn get_resource_name(store: &mut Store, name: String) -> (r: Result<i64, ResourceError>)
    ensures
        search_answers(name, old(store).sent(), final(store).sent(), r),
{
    let params = vec![SqlParam::Text(name.clone())];
    assert(params@ =~= seq![SqlParam::Text(name)]);
    let found = match query(store, SELECT_ID_BY_NAME, params) {
        Ok(mut rows) => first_id(&mut rows),
        Err(e) => Err(describe_failure(&e)),
    };
    let mut context = String::from_str("while getting resource '");
    context.append(name.as_str());
    context.append("': ");
    let r = lookup_result(context, found);
    assert(lookup_answers(name_context(name@), found, r));
    r
}

// ---- the resource command ----

/// The resource subcommands.
pub enum Commands {
    /// Create a new resource.
    Create { name: String },
    /// Search for a resource by name.
    Search { name: String },
    /// Get the name of a resource.
    Get { id: u32 },
}

/// The `resource` command: one repository operation.
pub struct Cli {
    pub command: Commands,
}

/// The single value a command answers with.
#[derive(Debug)]
pub enum CommandOutput {
    /// A resource identifier.
    Id(i64),
    /// A resource name.
    Name(String),
}

/// An identifier answer as a command's answer.
pub open spec fn id_output(r: Result<i64, ResourceError>) -> Result<CommandOutput, ResourceError> {
    match r {
        Ok(id) => Ok(CommandOutput::Id(id)),
        Err(e) => Err(e),
    }
}

/// A name answer as a command's answer.
pub open spec fn name_output(r: Result<String, ResourceError>) -> Result<CommandOutput, ResourceError> {
    match r {
        Ok(name) => Ok(CommandOutput::Name(name)),
        Err(e) => Err(e),
    }
}

/// `cli.run(store)` answered `r`: it is the answer of the one repository
/// operation the subcommand names, passed on unchanged.
pub open spec fn run_answers(cli: Cli, before: Seq<Sent>, after: Seq<Sent>, r: Result<CommandOutput, ResourceError>) -> bool {
    match cli.command {
        Commands::Create { name } => exists|ri: Result<i64, ResourceError>|
            #[trigger] create_answers(name, before, after, ri) && r == id_output(ri),
        Commands::Search { name } => exists|ri: Result<i64, ResourceError>|
            #[trigger] search_answers(name, before, after, ri) && r == id_output(ri),
        Commands::Get { id } => exists|ri: Result<String, ResourceError>|
            #[trigger] get_answers(id, before, after, ri) && r == name_output(ri),
    }
}

impl Cli {
    /// Runs the subcommand through `store` and returns the value to show:
    /// the new or found identifier for `create` and `search`, the found
    /// name for `get`.
    pub fn run(self, store: &mut Store) -> (r: Result<CommandOutput, ResourceError>)
        ensures
            run_answers(self, old(store).sent(), final(store).sent(), r),
    {
        match self.command {
            Commands::Create { name } => {
                let ri = create_resource(store, name);
                assert(create_answers(name, old(store).sent(), store.sent(), ri));
                match ri {
                    Ok(id) => Ok(CommandOutput::Id(id)),
                    Err(e) => Err(e),
                }
            },
            Commands::Search { name } => {
                let ri = get_resource_name(store, name);
                assert(search_answers(name, old(store).sent(), store.sent(), ri));
                match ri {
                    Ok(id) => Ok(CommandOutput::Id(id)),
                    Err(e) => Err(e),
                }
            },
            Commands::Get { id } => {
                let ri = get_resource_id(store, id);
                assert(get_answers(id, old(store).sent(), store.sent(), ri));
                match ri {
                    Ok(name) => Ok(CommandOutput::Name(name)),
                    Err(e) => Err(e),
                }
            },
        }
    }
}

} // verus!
