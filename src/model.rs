use vstd::prelude::*;
use crate::error::PgmtError;
use crate::handler::{
    ActionModel, Event, OperationModel, SessionModel, initial, step_spec,
};
use crate::sql::{StatementModel, predicate};

verus! {

/// The isolation state of one table as the database holds it: whether row
/// security is on, the predicate of the reserved policy if it exists, and the
/// column recorded in the metadata table if a row exists.
pub struct TableState {
    pub row_security: bool,
    pub policy: Option<Seq<char>>,
    pub marked: Option<Seq<char>>,
}

/// The part of the database that an operation reads or changes: whether the
/// caller is a superuser, the catalog from (schema, table) to table
/// identifier, and the isolation state of each table.
pub struct World {
    pub privileged: bool,
    pub catalog: Map<(Seq<char>, Seq<char>), u32>,
    pub tables: Map<u32, TableState>,
}

/// The state of a table that was never touched.
pub open spec fn untouched() -> TableState {
    TableState { row_security: false, policy: None, marked: None }
}

/// The state of table `id`, untouched if the database holds none for it.
pub open spec fn table_state(w: World, id: u32) -> TableState {
    if w.tables.contains_key(id) {
        w.tables[id]
    } else {
        untouched()
    }
}

/// How the database runs one statement on a table: creating the reserved
/// policy where it exists, dropping it where it does not, and adding a second
/// metadata row for a table are refused (`None`).
pub open spec fn apply_statement(t: TableState, st: StatementModel) -> Option<TableState> {
    match st {
        StatementModel::EnableRowLevelSecurity { .. } => Some(TableState { row_security: true, ..t }),
        StatementModel::CreatePolicy { column, expression, .. } => if t.policy is Some {
            None
        } else {
            Some(TableState { policy: Some(predicate(column, expression)), ..t })
        },
        StatementModel::DropPolicy { .. } => if t.policy is Some {
            Some(TableState { policy: None, ..t })
        } else {
            None
        },
        StatementModel::DisableRowLevelSecurity { .. } => Some(TableState { row_security: false, ..t }),
        StatementModel::InsertMarkedColumn { column, .. } => if t.marked is Some {
            None
        } else {
            Some(TableState { marked: Some(column), ..t })
        },
        StatementModel::DeleteMarkedColumn { .. } => Some(TableState { marked: None, ..t }),
    }
}

/// Runs statements in order: the final state, or the index of the first one
/// refused.
pub open spec fn run_transaction(t: TableState, stmts: Seq<StatementModel>) -> Result<TableState, nat>
    decreases stmts.len(),
{
    if stmts.len() == 0 {
        Ok(t)
    } else {
        match apply_statement(t, stmts[0]) {
            None => Err(0),
            Some(t2) => match run_transaction(t2, stmts.drop_first()) {
                Ok(t3) => Ok(t3),
                Err(i) => Err(i + 1),
            },
        }
    }
}

/// The database's answer to an action and its state afterwards. A refused
/// transaction is rolled back whole.
pub open spec fn respond(w: World, a: ActionModel) -> (Event, World) {
    match a {
        ActionModel::QueryPrivilege => (Event::Privilege(w.privileged), w),
        ActionModel::LookupTable { schema, table } => (
            Event::TableId(
                if w.catalog.contains_key((schema, table)) {
                    Some(w.catalog[(schema, table)])
                } else {
                    None
                },
            ),
            w,
        ),
        ActionModel::Apply { table_id, statements } => match run_transaction(
            table_state(w, table_id),
            statements,
        ) {
            Ok(t) => (Event::Outcome(None), World { tables: w.tables.insert(table_id, t), ..w }),
            Err(i) => (Event::Outcome(Some(i as usize)), w),
        },
        ActionModel::Finish(_) => (Event::Outcome(None), w),
    }
}

/// Runs a session against the database until it finishes, for at most `fuel`
/// answers. A session finishes after at most three answers, so the result
/// when `fuel` runs out is never reached from [`outcome`].
pub open spec fn drive(w: World, s: SessionModel, a: ActionModel, fuel: nat) -> (
    Result<(), PgmtError>,
    World,
)
    decreases fuel,
{
    match a {
        ActionModel::Finish(r) => (r, w),
        _ => if fuel == 0 {
            (Err(PgmtError::StoreError), w)
        } else {
            let (e, w2) = respond(w, a);
            let (s2, a2) = step_spec(s, e);
            drive(w2, s2, a2, (fuel - 1) as nat)
        },
    }
}

/// The result and the database's state after a whole operation under the
/// settings `strategy` and `value`.
pub open spec fn outcome(
    w: World,
    op: OperationModel,
    strategy: Option<Seq<char>>,
    value: Option<Seq<char>>,
) -> (Result<(), PgmtError>, World) {
    drive(w, initial(op, strategy, value), ActionModel::QueryPrivilege, 4)
}

} // verus!
