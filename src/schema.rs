//! The schema: a fixed, ordered list of table definitions, each guarded
//! by `IF NOT EXISTS` so that running them again leaves the store as it
//! was.

use vstd::prelude::*;
use crate::error::ResourceError;
use crate::store::{describe_failure, execute, Sent, SqlParam, Store};

verus! {

pub const CREATE_RESOURCE_TABLE: &'static str =
    "CREATE TABLE IF NOT EXISTS resource (id INTEGER PRIMARY KEY, name TEXT UNIQUE)";

pub const CREATE_BOOKING_TABLE: &'static str =
    "CREATE TABLE IF NOT EXISTS booking (id INTEGER PRIMARY KEY, resource_id INTEGER NOT NULL REFERENCES resource (id))";

/// The prefix of a table definition that does nothing where the table
/// already exists.
pub const IDEMPOTENT_PREFIX: &'static str = "CREATE TABLE IF NOT EXISTS ";

/// The schema statements, in the order they run.
pub open spec fn schema_spec() -> Seq<Seq<char>> {
    seq![CREATE_RESOURCE_TABLE@, CREATE_BOOKING_TABLE@]
}

/// A statement that defines a table only where it does not exist yet.
pub open spec fn is_guarded_definition(s: Seq<char>) -> bool {
    IDEMPOTENT_PREFIX@.len() <= s.len() && s.subrange(0, IDEMPOTENT_PREFIX@.len() as int)
        == IDEMPOTENT_PREFIX@
}

/// The schema statements, in the order they run.
pub fn schema_statements() -> (r: Vec<&'static str>)
    ensures
        r@.len() == schema_spec().len(),
        forall|i: int| 0 <= i < r@.len() ==> (#[trigger] r@[i])@ == schema_spec()[i],
{
    vec![CREATE_RESOURCE_TABLE, CREATE_BOOKING_TABLE]
}

/// Every schema statement is a guarded definition, so that running the
/// schema on a store that already holds it changes nothing.
pub proof fn lemma_schema_is_idempotent()
    ensures
        forall|i: int| 0 <= i < schema_spec().len() ==> is_guarded_definition(
            #[trigger] schema_spec()[i],
        ),
{
    reveal_strlit("CREATE TABLE IF NOT EXISTS ");
    reveal_strlit("CREATE TABLE IF NOT EXISTS resource (id INTEGER PRIMARY KEY, name TEXT UNIQUE)");
    reveal_strlit(
        "CREATE TABLE IF NOT EXISTS booking (id INTEGER PRIMARY KEY, resource_id INTEGER NOT NULL REFERENCES resource (id))",
    );
    assert(CREATE_RESOURCE_TABLE@.subrange(0, IDEMPOTENT_PREFIX@.len() as int) =~= IDEMPOTENT_PREFIX@);
    assert(CREATE_BOOKING_TABLE@.subrange(0, IDEMPOTENT_PREFIX@.len() as int) =~= IDEMPOTENT_PREFIX@);
}

/// Schema statement `i` as the record of sent statements shows it: no
/// parameters, accepted or not.
pub open spec fn schema_entry(i: int, accepted: bool) -> Sent {
    (schema_spec()[i], Seq::<SqlParam>::empty(), accepted)
}

/// `after` is `before` followed by the first `k` schema statements, all
/// accepted.
pub open spec fn ran_schema_prefix(before: Seq<Sent>, after: Seq<Sent>, k: int) -> bool {
    &&& after.len() >= before.len() + k
    &&& after.subrange(0, before.len() as int) == before
    &&& forall|i: int| 0 <= i < k ==> #[trigger] after[before.len() + i] == schema_entry(i, true)
}

/// `initialse_database(store)` answered `r` and took the store's record
/// from `before` to `after`. It succeeds exactly where every schema
/// statement was sent, in order, and accepted. Otherwise it stopped at
/// the first statement the store refused, sent nothing after it, and
/// reports that statement.
pub open spec fn init_answers(before: Seq<Sent>, after: Seq<Sent>, r: Result<(), ResourceError>) -> bool {
    match r {
        Ok(()) => after.len() == before.len() + schema_spec().len() && ran_schema_prefix(
            before,
            after,
            schema_spec().len() as int,
        ),
        Err(e) => exists|k: int|
            0 <= k < schema_spec().len() && #[trigger] ran_schema_prefix(before, after, k)
                && after.len() == before.len() + k + 1 && after[before.len() + k]
                == schema_entry(k, false) && (e matches ResourceError::SchemaInit {
                statement,
                message,
            } && statement@ == schema_spec()[k]),
    }
}

/// Sends the schema statements in order and stops at the first that
/// fails, reporting that statement and the store's message.
pub fn initialse_database(store: &mut Store) -> (r: Result<(), ResourceError>)
    ensures
        init_answers(old(store).sent(), final(store).sent(), r),
{
    let statements = schema_statements();
    let mut k: usize = 0;
    assert(old(store).sent().subrange(0, old(store).sent().len() as int) =~= old(store).sent());
    while k < statements.len()
        invariant
            statements@.len() == schema_spec().len(),
            forall|i: int|
                0 <= i < statements@.len() ==> (#[trigger] statements@[i])@ == schema_spec()[i],
            k <= statements@.len(),
            store.sent().len() == old(store).sent().len() + k,
            ran_schema_prefix(old(store).sent(), store.sent(), k as int),
        decreases statements.len() - k,
    {
        let sql = statements[k];
        let ghost before = store.sent();
        let params: Vec<SqlParam> = Vec::new();
        assert(params@ =~= Seq::<SqlParam>::empty());
        let outcome = execute(store, sql, params);
        proof {
            let b0 = old(store).sent();
            let after = store.sent();
            assert(after.subrange(0, b0.len() as int) =~= before.subrange(0, b0.len() as int));
            assert forall|i: int| 0 <= i < k implies #[trigger] after[b0.len() + i] == schema_entry(i, true) by {
                assert(before[b0.len() + i] == schema_entry(i, true));
            }
            assert(after[b0.len() + k] == schema_entry(k as int, outcome is Ok));
        }
        match outcome {
            Ok(_) => {},
            Err(e) => {
                let failure = describe_failure(&e);
                let statement = String::from_str(sql);
                let r = Err(ResourceError::SchemaInit { statement, message: failure.message });
                assert(ran_schema_prefix(old(store).sent(), store.sent(), k as int));
                return r;
            },
        }
        k = k + 1;
    }
    Ok(())
}

} // verus!
