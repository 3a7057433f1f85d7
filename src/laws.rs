use vstd::prelude::*;
use crate::config::resolve_spec;
use crate::error::PgmtError;
use crate::handler::OperationModel;
use crate::model::{World, drive, outcome, run_transaction, table_state};
use crate::sql::predicate;

verus! {

/// With strategy `user`, marking an existing, unmarked table succeeds and
/// leaves exactly one reserved policy on it, whose predicate compares the
/// column with `current_user`, and records the column.
pub proof fn lemma_mark_with_user_strategy(
    w: World,
    schema: Seq<char>,
    table: Seq<char>,
    column: Seq<char>,
    value: Option<Seq<char>>,
)
    requires
        w.privileged,
        w.catalog.contains_key((schema, table)),
        table_state(w, w.catalog[(schema, table)]).policy is None,
        table_state(w, w.catalog[(schema, table)]).marked is None,
    ensures
        ({
            let (r, w2) = outcome(
                w,
                OperationModel::Mark { schema, table, column },
                Some("user"@),
                value,
            );
            let t = table_state(w2, w.catalog[(schema, table)]);
            &&& r == Ok::<(), PgmtError>(())
            &&& t.row_security
            &&& t.policy == Some(predicate(column, "current_user"@))
            &&& t.marked == Some(column)
        }),
{
    reveal_with_fuel(drive, 5);
    reveal_with_fuel(run_transaction, 4);
}

/// A caller who is not a superuser is refused with `PrivilegeError`, whatever
/// the operation, the settings and the tables, and nothing changes.
pub proof fn lemma_unprivileged_caller_refused(
    w: World,
    op: OperationModel,
    strategy: Option<Seq<char>>,
    value: Option<Seq<char>>,
)
    requires
        !w.privileged,
    ensures
        outcome(w, op, strategy, value) == (Err::<(), PgmtError>(PgmtError::PrivilegeError), w),
{
    reveal_with_fuel(drive, 2);
}

/// Marking a table whose reserved policy already exists fails with
/// `PolicyConflictError` and leaves the database as it was.
pub proof fn lemma_mark_marked_table_conflicts(
    w: World,
    schema: Seq<char>,
    table: Seq<char>,
    column: Seq<char>,
    strategy: Option<Seq<char>>,
    value: Option<Seq<char>>,
)
    requires
        w.privileged,
        resolve_spec(strategy, value) is Ok,
        w.catalog.contains_key((schema, table)),
        table_state(w, w.catalog[(schema, table)]).policy is Some,
    ensures
        outcome(w, OperationModel::Mark { schema, table, column }, strategy, value) == (
            Err::<(), PgmtError>(PgmtError::PolicyConflictError),
            w,
        ),
{
    reveal_with_fuel(drive, 5);
    reveal_with_fuel(run_transaction, 4);
}

/// Unmarking a table without the reserved policy fails with
/// `PolicyConflictError` and leaves the database as it was.
pub proof fn lemma_unmark_unmarked_table_conflicts(
    w: World,
    schema: Seq<char>,
    table: Seq<char>,
    strategy: Option<Seq<char>>,
    value: Option<Seq<char>>,
)
    requires
        w.privileged,
        w.catalog.contains_key((schema, table)),
        table_state(w, w.catalog[(schema, table)]).policy is None,
    ensures
        outcome(w, OperationModel::Unmark { schema, table }, strategy, value) == (
            Err::<(), PgmtError>(PgmtError::PolicyConflictError),
            w,
        ),
{
    reveal_with_fuel(drive, 5);
    reveal_with_fuel(run_transaction, 4);
}

/// Marking under strategy `value` with an unset or empty literal fails with
/// `ConfigError` before any table is looked up or changed.
pub proof fn lemma_empty_value_is_config_error(
    w: World,
    schema: Seq<char>,
    table: Seq<char>,
    column: Seq<char>,
    value: Option<Seq<char>>,
)
    requires
        w.privileged,
        value is None || value->0.len() == 0,
    ensures
        outcome(w, OperationModel::Mark { schema, table, column }, Some("value"@), value) == (
            Err::<(), PgmtError>(PgmtError::ConfigError),
            w,
        ),
{
    reveal_strlit("value");
    reveal_strlit("user");
    assert("value"@.len() != "user"@.len());
    reveal_with_fuel(drive, 3);
}

/// Marking with no strategy set fails with `ConfigError` before any table is
/// looked up or changed.
pub proof fn lemma_unset_strategy_is_config_error(
    w: World,
    schema: Seq<char>,
    table: Seq<char>,
    column: Seq<char>,
    value: Option<Seq<char>>,
)
    requires
        w.privileged,
    ensures
        outcome(w, OperationModel::Mark { schema, table, column }, None, value) == (
            Err::<(), PgmtError>(PgmtError::ConfigError),
            w,
        ),
{
    reveal_with_fuel(drive, 3);
}

/// A mark that succeeded found the table without policy or metadata row, and
/// leaves every other table as it was.
proof fn lemma_successful_mark(
    w: World,
    schema: Seq<char>,
    table: Seq<char>,
    column: Seq<char>,
    strategy: Option<Seq<char>>,
    value: Option<Seq<char>>,
)
    requires
        outcome(w, OperationModel::Mark { schema, table, column }, strategy, value).0 is Ok,
    ensures
        w.privileged,
        w.catalog.contains_key((schema, table)),
        table_state(w, w.catalog[(schema, table)]).policy is None,
        table_state(w, w.catalog[(schema, table)]).marked is None,
        ({
            let w2 = outcome(w, OperationModel::Mark { schema, table, column }, strategy, value).1;
            let id = w.catalog[(schema, table)];
            &&& w2.privileged == w.privileged
            &&& w2.catalog == w.catalog
            &&& table_state(w2, id).policy is Some
            &&& table_state(w2, id).marked is Some
            &&& forall|other: u32| other != id ==> table_state(w2, other) == table_state(w, other)
        }),
{
    reveal_with_fuel(drive, 5);
    reveal_with_fuel(run_transaction, 4);
}

/// Unmarking right after a successful mark succeeds and removes both the
/// policy and the metadata row of the table.
pub proof fn lemma_unmark_after_mark(
    w: World,
    schema: Seq<char>,
    table: Seq<char>,
    column: Seq<char>,
    strategy: Option<Seq<char>>,
    value: Option<Seq<char>>,
)
    requires
        outcome(w, OperationModel::Mark { schema, table, column }, strategy, value).0 is Ok,
    ensures
        ({
            let w2 = outcome(w, OperationModel::Mark { schema, table, column }, strategy, value).1;
            let (r, w3) = outcome(w2, OperationModel::Unmark { schema, table }, strategy, value);
            let t = table_state(w3, w.catalog[(schema, table)]);
            &&& r == Ok::<(), PgmtError>(())
            &&& t.policy is None
            &&& t.marked is None
        }),
{
    lemma_successful_mark(w, schema, table, column, strategy, value);
    let w2 = outcome(w, OperationModel::Mark { schema, table, column }, strategy, value).1;
    reveal_with_fuel(drive, 5);
    reveal_with_fuel(run_transaction, 4);
    assert(w2.catalog.contains_key((schema, table)));
}

/// Marking and then unmarking the same column brings every table's policy and
/// metadata row back to what they were before the mark.
pub proof fn lemma_mark_unmark_round_trip(
    w: World,
    schema: Seq<char>,
    table: Seq<char>,
    column: Seq<char>,
    strategy: Option<Seq<char>>,
    value: Option<Seq<char>>,
)
    requires
        outcome(w, OperationModel::Mark { schema, table, column }, strategy, value).0 is Ok,
    ensures
        ({
            let w2 = outcome(w, OperationModel::Mark { schema, table, column }, strategy, value).1;
            let w3 = outcome(w2, OperationModel::Unmark { schema, table }, strategy, value).1;
            &&& w3.privileged == w.privileged
            &&& w3.catalog == w.catalog
            &&& forall|id: u32|
                table_state(w3, id).policy == table_state(w, id).policy
                    && table_state(w3, id).marked == table_state(w, id).marked
        }),
{
    lemma_successful_mark(w, schema, table, column, strategy, value);
    lemma_unmark_after_mark(w, schema, table, column, strategy, value);
    let w2 = outcome(w, OperationModel::Mark { schema, table, column }, strategy, value).1;
    reveal_with_fuel(drive, 5);
    reveal_with_fuel(run_transaction, 4);
    assert(w2.catalog.contains_key((schema, table)));
}

} // verus!
