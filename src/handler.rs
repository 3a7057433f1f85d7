use vstd::prelude::*;
use crate::config::{StrategyModel, TenantConfig, expression_spec, opt_view, resolve_spec};
use crate::error::PgmtError;
use crate::sql::{
    Statement, StatementModel, disable_row_level_security, disable_spec, enable_row_level_security,
    enable_spec,
};

verus! {

/// A request to mark a tenant column of a table, or to unmark the table.
pub enum Operation {
    Mark { schema: String, table: String, column: String },
    Unmark { schema: String, table: String },
}

/// What an [`Operation`] holds, as sequences of characters.
pub enum OperationModel {
    Mark { schema: Seq<char>, table: Seq<char>, column: Seq<char> },
    Unmark { schema: Seq<char>, table: Seq<char> },
}

impl View for Operation {
    type V = OperationModel;

    open spec fn view(&self) -> OperationModel {
        match self {
            Operation::Mark { schema, table, column } =>
                OperationModel::Mark { schema: schema@, table: table@, column: column@ },
            Operation::Unmark { schema, table } =>
                OperationModel::Unmark { schema: schema@, table: table@ },
        }
    }
}

/// Where an operation stands: which answer of the database it waits for.
#[derive(Clone, Copy, Debug, PartialEq, Eq, Structural)]
pub enum Phase {
    AwaitPrivilege,
    AwaitTable,
    AwaitOutcome,
    Finished,
}

/// An answer of the database to the last action.
#[derive(Clone, Copy, Debug, PartialEq, Eq, Structural)]
pub enum Event {
    /// Whether the caller is a superuser.
    Privilege(bool),
    /// The identifier of the table, or `None` when it does not exist.
    TableId(Option<u32>),
    /// `None` when the whole transaction committed; otherwise the index of
    /// the statement that the database refused, the transaction having been
    /// rolled back.
    Outcome(Option<usize>),
}

/// What the database is to be asked or told next.
pub enum Action {
    /// Ask whether the caller is a superuser.
    QueryPrivilege,
    /// Look up the identifier of a table.
    LookupTable { schema: String, table: String },
    /// Run the statements, in order, as one transaction.
    Apply { table_id: u32, statements: Vec<Statement> },
    /// The operation is over, with this result.
    Finish(Result<(), PgmtError>),
}

/// What an [`Action`] holds, as sequences of characters.
pub enum ActionModel {
    QueryPrivilege,
    LookupTable { schema: Seq<char>, table: Seq<char> },
    Apply { table_id: u32, statements: Seq<StatementModel> },
    Finish(Result<(), PgmtError>),
}

impl View for Action {
    type V = ActionModel;

    open spec fn view(&self) -> ActionModel {
        match self {
            Action::QueryPrivilege => ActionModel::QueryPrivilege,
            Action::LookupTable { schema, table } =>
                ActionModel::LookupTable { schema: schema@, table: table@ },
            Action::Apply { table_id, statements } => ActionModel::Apply {
                table_id: *table_id,
                statements: statements@.map_values(|s: Statement| s@),
            },
            Action::Finish(r) => ActionModel::Finish(*r),
        }
    }
}

/// One mark or unmark operation in progress.
pub struct Session {
    operation: Operation,
    config: TenantConfig,
    expression: String,
    phase: Phase,
}

/// What a [`Session`] holds: the operation, the resolved configuration, the
/// tenant expression once resolved, and the phase.
pub struct SessionModel {
    pub operation: OperationModel,
    pub strategy: Result<StrategyModel, PgmtError>,
    pub expression: Seq<char>,
    pub phase: Phase,
}

impl View for Session {
    type V = SessionModel;

    closed spec fn view(&self) -> SessionModel {
        SessionModel {
            operation: self.operation@,
            strategy: self.config.resolved(),
            expression: self.expression@,
            phase: self.phase,
        }
    }
}

/// The session at the start of an operation, before any answer.
pub open spec fn initial(
    operation: OperationModel,
    strategy: Option<Seq<char>>,
    value: Option<Seq<char>>,
) -> SessionModel {
    SessionModel {
        operation,
        strategy: resolve_spec(strategy, value),
        expression: Seq::empty(),
        phase: Phase::AwaitPrivilege,
    }
}

/// The statements of one transaction: enable row security, create the policy
/// and record the column when marking; drop the policy, disable row security
/// and remove the record when unmarking.
pub open spec fn statements_spec(op: OperationModel, expression: Seq<char>, table_id: u32) -> Seq<
    StatementModel,
> {
    match op {
        OperationModel::Mark { schema, table, column } => enable_spec(
            schema,
            table,
            column,
            expression,
        ).push(StatementModel::InsertMarkedColumn { table_id, column }),
        OperationModel::Unmark { schema, table } => disable_spec(schema, table).push(
            StatementModel::DeleteMarkedColumn { table_id },
        ),
    }
}

/// The error for a refused statement: the first two of a transaction touch
/// the policy, the third the metadata.
pub open spec fn failure_error(index: usize) -> PgmtError {
    if index < 2 {
        PgmtError::PolicyConflictError
    } else {
        PgmtError::StoreError
    }
}

/// Whether `event` answers what a session in `phase` waits for.
pub open spec fn accepts_spec(phase: Phase, event: Event) -> bool {
    match event {
        Event::Privilege(_) => phase == Phase::AwaitPrivilege,
        Event::TableId(_) => phase == Phase::AwaitTable,
        Event::Outcome(_) => phase == Phase::AwaitOutcome,
    }
}

/// The next session and action after `event`. The privilege check comes
/// first; marking then resolves the strategy before anything else is asked.
pub open spec fn step_spec(s: SessionModel, event: Event) -> (SessionModel, ActionModel) {
    match event {
        Event::Privilege(privileged) => if !privileged {
            (
                SessionModel { phase: Phase::Finished, ..s },
                ActionModel::Finish(Err(PgmtError::PrivilegeError)),
            )
        } else {
            match s.operation {
                OperationModel::Mark { schema, table, column } => match s.strategy {
                    Ok(strategy) => (
                        SessionModel {
                            phase: Phase::AwaitTable,
                            expression: expression_spec(strategy),
                            ..s
                        },
                        ActionModel::LookupTable { schema, table },
                    ),
                    Err(e) => (SessionModel { phase: Phase::Finished, ..s }, ActionModel::Finish(Err(e))),
                },
                OperationModel::Unmark { schema, table } => (
                    SessionModel { phase: Phase::AwaitTable, ..s },
                    ActionModel::LookupTable { schema, table },
                ),
            }
        },
        Event::TableId(id) => match id {
            None => (
                SessionModel { phase: Phase::Finished, ..s },
                ActionModel::Finish(Err(PgmtError::LookupError)),
            ),
            Some(table_id) => (
                SessionModel { phase: Phase::AwaitOutcome, ..s },
                ActionModel::Apply {
                    table_id,
                    statements: statements_spec(s.operation, s.expression, table_id),
                },
            ),
        },
        Event::Outcome(failed) => (
            SessionModel { phase: Phase::Finished, ..s },
            ActionModel::Finish(
                match failed {
                    None => Ok(()),
                    Some(i) => Err(failure_error(i)),
                },
            ),
        ),
    }
}

impl Operation {
    fn names(&self) -> (r: (String, String))
        ensures
            match self@ {
                OperationModel::Mark { schema, table, .. } => r.0@ == schema && r.1@ == table,
                OperationModel::Unmark { schema, table } => r.0@ == schema && r.1@ == table,
            },
    {
        match self {
            Operation::Mark { schema, table, .. } => (schema.clone(), table.clone()),
            Operation::Unmark { schema, table } => (schema.clone(), table.clone()),
        }
    }

    fn statements(&self, expression: &String, table_id: u32) -> (r: Vec<Statement>)
        ensures
            r@.map_values(|s: Statement| s@) == statements_spec(self@, expression@, table_id),
    {
        match self {
            Operation::Mark { schema, table, column } => {
                let mut r = enable_row_level_security(
                    schema.as_str(),
                    table.as_str(),
                    column.as_str(),
                    expression.as_str(),
                );
                let ghost before = r@;
                r.push(Statement::InsertMarkedColumn { table_id, column: column.clone() });
                assert(r@.map_values(|s: Statement| s@) =~= before.map_values(|s: Statement| s@).push(
                    StatementModel::InsertMarkedColumn { table_id, column: column@ },
                ));
                r
            },
            Operation::Unmark { schema, table } => {
                let mut r = disable_row_level_security(schema.as_str(), table.as_str());
                let ghost before = r@;
                r.push(Statement::DeleteMarkedColumn { table_id });
                assert(r@.map_values(|s: Statement| s@) =~= before.map_values(|s: Statement| s@).push(
                    StatementModel::DeleteMarkedColumn { table_id },
                ));
                r
            },
        }
    }
}

impl Session {
    /// Starts an operation under the given settings. The first action is
    /// always the privilege check.
    pub fn new(operation: Operation, config: TenantConfig) -> (r: (Session, Action))
        ensures
            r.0@ == initial(operation@, opt_view(config.tenant_strategy), opt_view(config.tenant_value)),
            r.1@ == ActionModel::QueryPrivilege,
    {
        (Session { operation, config, expression: String::new(), phase: Phase::AwaitPrivilege }, Action::QueryPrivilege)
    }

    /// The phase the session is in.
    pub fn phase(&self) -> (r: Phase)
        ensures
            r == self@.phase,
    {
        self.phase
    }

    /// Whether `event` answers what the session waits for.
    pub fn accepts(&self, event: &Event) -> (r: bool)
        ensures
            r == accepts_spec(self@.phase, *event),
    {
        match event {
            Event::Privilege(_) => self.phase == Phase::AwaitPrivilege,
            Event::TableId(_) => self.phase == Phase::AwaitTable,
            Event::Outcome(_) => self.phase == Phase::AwaitOutcome,
        }
    }

    /// Takes the database's answer to the last action and returns the next
    /// action.
    pub fn step(&mut self, event: Event) -> (a: Action)
        requires
            accepts_spec(old(self)@.phase, event),
        ensures
            (final(self)@, a@) == step_spec(old(self)@, event),
    {
        match event {
            Event::Privilege(privileged) => {
                if !privileged {
                    self.phase = Phase::Finished;
                    return Action::Finish(Err(PgmtError::PrivilegeError));
                }
                let is_mark = match &self.operation {
                    Operation::Mark { .. } => true,
                    Operation::Unmark { .. } => false,
                };
                if is_mark {
                    match self.config.resolve() {
                        Ok(strategy) => {
                            self.expression = strategy.expression();
                        },
                        Err(e) => {
                            self.phase = Phase::Finished;
                            return Action::Finish(Err(e));
                        },
                    }
                }
                self.phase = Phase::AwaitTable;
                let (schema, table) = self.operation.names();
                Action::LookupTable { schema, table }
            },
            Event::TableId(id) => match id {
                None => {
                    self.phase = Phase::Finished;
                    Action::Finish(Err(PgmtError::LookupError))
                },
                Some(table_id) => {
                    self.phase = Phase::AwaitOutcome;
                    let statements = self.operation.statements(&self.expression, table_id);
                    Action::Apply { table_id, statements }
                },
            },
            Event::Outcome(failed) => {
                self.phase = Phase::Finished;
                match failed {
                    None => Action::Finish(Ok(())),
                    Some(i) => if i < 2 {
                        Action::Finish(Err(PgmtError::PolicyConflictError))
                    } else {
                        Action::Finish(Err(PgmtError::StoreError))
                    },
                }
            },
        }
    }
}

/// Starts marking `tenant_column` of `schema_name.table_name` as the tenant
/// column, under the given settings. The first action is the privilege check.
pub fn mark_tenant_column(
    schema_name: &str,
    table_name: &str,
    tenant_column: &str,
    config: TenantConfig,
) -> (r: (Session, Action))
    ensures
        r.0@ == initial(
            OperationModel::Mark { schema: schema_name@, table: table_name@, column: tenant_column@ },
            opt_view(config.tenant_strategy),
            opt_view(config.tenant_value),
        ),
        r.1@ == ActionModel::QueryPrivilege,
{
    let operation = Operation::Mark {
        schema: schema_name.to_owned(),
        table: table_name.to_owned(),
        column: tenant_column.to_owned(),
    };
    Session::new(operation, config)
}

/// Starts unmarking `schema_name.table_name`, under the given settings. The
/// first action is the privilege check.
pub fn unmark_tenant_column(schema_name: &str, table_name: &str, config: TenantConfig) -> (r: (
    Session,
    Action,
))
    ensures
        r.0@ == initial(
            OperationModel::Unmark { schema: schema_name@, table: table_name@ },
            opt_view(config.tenant_strategy),
            opt_view(config.tenant_value),
        ),
        r.1@ == ActionModel::QueryPrivilege,
{
    let operation = Operation::Unmark { schema: schema_name.to_owned(), table: table_name.to_owned() };
    Session::new(operation, config)
}

} // verus!
