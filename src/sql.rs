use vstd::prelude::*;
use vstd::string::StringExecFns;

verus! {

/// Relies on `String::push`: it appends one character.
pub assume_specification[ String::push ](s: &mut String, ch: char)
    ensures
        final(s)@ == old(s)@.push(ch),
;

/// `s` with every occurrence of the quote character `q` doubled.
pub open spec fn escaped(s: Seq<char>, q: char) -> Seq<char>
    decreases s.len(),
{
    if s.len() == 0 {
        Seq::empty()
    } else if s.last() == q {
        escaped(s.drop_last(), q) + seq![q, q]
    } else {
        escaped(s.drop_last(), q).push(s.last())
    }
}

/// `s` between two quote characters `q`, with each `q` inside doubled.
pub open spec fn quoted(s: Seq<char>, q: char) -> Seq<char> {
    seq![q] + escaped(s, q) + seq![q]
}

fn quote(s: &str, q: char) -> (r: String)
    ensures
        r@ == quoted(s@, q),
{
    let mut r = String::new();
    r.push(q);
    for c in it: s.chars()
        invariant
            it.seq() == s@,
            r@ == seq![q] + escaped(it.seq().take(it.index() as int), q),
    {
        proof {
            assert(it.seq().take(it.index() + 1).drop_last() == it.seq().take(it.index() as int));
        }
        if c == q {
            r.push(q);
            r.push(q);
        } else {
            r.push(c);
        }
    }
    proof {
        assert(s@.take(s@.len() as int) == s@);
    }
    r.push(q);
    r
}

/// A SQL identifier in double quotes, safe to place in a statement whatever
/// `s` holds.
pub fn quote_ident(s: &str) -> (r: String)
    ensures
        r@ == quoted(s@, '"'),
{
    quote(s, '"')
}

/// A SQL string constant in single quotes, safe to place in a statement
/// whatever `s` holds.
pub fn quote_literal(s: &str) -> (r: String)
    ensures
        r@ == quoted(s@, '\''),
{
    quote(s, '\'')
}

/// The decimal digit for `d`, for `d < 10`.
pub open spec fn digit(d: nat) -> char {
    if d == 0 { '0' } else if d == 1 { '1' } else if d == 2 { '2' } else if d == 3 { '3' }
    else if d == 4 { '4' } else if d == 5 { '5' } else if d == 6 { '6' } else if d == 7 { '7' }
    else if d == 8 { '8' } else { '9' }
}

/// The decimal notation of `n`, without leading zeros.
pub open spec fn decimal(n: nat) -> Seq<char>
    decreases n,
{
    if n < 10 {
        seq![digit(n)]
    } else {
        decimal(n / 10).push(digit(n % 10))
    }
}

fn digit_char(d: u32) -> (r: char)
    requires
        d < 10,
    ensures
        r == digit(d as nat),
{
    if d == 0 { '0' } else if d == 1 { '1' } else if d == 2 { '2' } else if d == 3 { '3' }
    else if d == 4 { '4' } else if d == 5 { '5' } else if d == 6 { '6' } else if d == 7 { '7' }
    else if d == 8 { '8' } else { '9' }
}

/// The decimal notation of `n`, as it stands in a statement.
pub fn decimal_string(n: u32) -> (r: String)
    ensures
        r@ == decimal(n as nat),
    decreases n,
{
    if n < 10 {
        let mut r = String::new();
        r.push(digit_char(n));
        r
    } else {
        let mut r = decimal_string(n / 10);
        r.push(digit_char(n % 10));
        r
    }
}

/// The schema-qualified, quoted name of a table.
pub open spec fn qualified(schema: Seq<char>, table: Seq<char>) -> Seq<char> {
    quoted(schema, '"') + "."@ + quoted(table, '"')
}

/// The row filter of the isolation policy: the tenant column, as text, equals
/// the tenant expression.
pub open spec fn predicate(column: Seq<char>, expression: Seq<char>) -> Seq<char> {
    quoted(column, '"') + "::TEXT = "@ + expression
}

/// One statement of a mark or unmark transaction, with plain values for its
/// parts.
pub enum Statement {
    EnableRowLevelSecurity { schema: String, table: String },
    CreatePolicy { schema: String, table: String, column: String, expression: String },
    DropPolicy { schema: String, table: String },
    DisableRowLevelSecurity { schema: String, table: String },
    InsertMarkedColumn { table_id: u32, column: String },
    DeleteMarkedColumn { table_id: u32 },
}

/// What a [`Statement`] holds, as sequences of characters.
pub enum StatementModel {
    EnableRowLevelSecurity { schema: Seq<char>, table: Seq<char> },
    CreatePolicy { schema: Seq<char>, table: Seq<char>, column: Seq<char>, expression: Seq<char> },
    DropPolicy { schema: Seq<char>, table: Seq<char> },
    DisableRowLevelSecurity { schema: Seq<char>, table: Seq<char> },
    InsertMarkedColumn { table_id: u32, column: Seq<char> },
    DeleteMarkedColumn { table_id: u32 },
}

impl View for Statement {
    type V = StatementModel;

    open spec fn view(&self) -> StatementModel {
        match self {
            Statement::EnableRowLevelSecurity { schema, table } =>
                StatementModel::EnableRowLevelSecurity { schema: schema@, table: table@ },
            Statement::CreatePolicy { schema, table, column, expression } =>
                StatementModel::CreatePolicy {
                    schema: schema@,
                    table: table@,
                    column: column@,
                    expression: expression@,
                },
            Statement::DropPolicy { schema, table } =>
                StatementModel::DropPolicy { schema: schema@, table: table@ },
            Statement::DisableRowLevelSecurity { schema, table } =>
                StatementModel::DisableRowLevelSecurity { schema: schema@, table: table@ },
            Statement::InsertMarkedColumn { table_id, column } =>
                StatementModel::InsertMarkedColumn { table_id: *table_id, column: column@ },
            Statement::DeleteMarkedColumn { table_id } =>
                StatementModel::DeleteMarkedColumn { table_id: *table_id },
        }
    }
}

/// The SQL text of a statement.
pub open spec fn render(st: StatementModel) -> Seq<char> {
    match st {
        StatementModel::EnableRowLevelSecurity { schema, table } =>
            "ALTER TABLE "@ + qualified(schema, table) + " ENABLE ROW LEVEL SECURITY"@,
        StatementModel::CreatePolicy { schema, table, column, expression } =>
            "CREATE POLICY tenant_isolation_policy ON "@ + qualified(schema, table) + " USING ("@
                + predicate(column, expression) + ")"@,
        StatementModel::DropPolicy { schema, table } =>
            "DROP POLICY tenant_isolation_policy ON "@ + qualified(schema, table),
        StatementModel::DisableRowLevelSecurity { schema, table } =>
            "ALTER TABLE "@ + qualified(schema, table) + " DISABLE ROW LEVEL SECURITY"@,
        StatementModel::InsertMarkedColumn { table_id, column } =>
            "INSERT INTO pgmt.table_tenant_column (table_oid, column_name) VALUES ("@
                + decimal(table_id as nat) + ", "@ + quoted(column, '\'') + ")"@,
        StatementModel::DeleteMarkedColumn { table_id } =>
            "DELETE FROM pgmt.table_tenant_column WHERE table_oid = "@ + decimal(table_id as nat),
    }
}

fn qualified_name(schema: &str, table: &str) -> (r: String)
    ensures
        r@ == qualified(schema@, table@),
{
    let mut r = quote_ident(schema);
    r.append(".");
    r.append(quote_ident(table).as_str());
    r
}

impl Statement {
    /// The SQL text of the statement, with every name quoted.
    pub fn to_sql(&self) -> (r: String)
        ensures
            r@ == render(self@),
    {
        match self {
            Statement::EnableRowLevelSecurity { schema, table } => {
                let mut r = "ALTER TABLE ".to_owned();
                r.append(qualified_name(schema.as_str(), table.as_str()).as_str());
                r.append(" ENABLE ROW LEVEL SECURITY");
                r
            },
            Statement::CreatePolicy { schema, table, column, expression } => {
                let mut r = "CREATE POLICY tenant_isolation_policy ON ".to_owned();
                r.append(qualified_name(schema.as_str(), table.as_str()).as_str());
                r.append(" USING (");
                r.append(quote_ident(column.as_str()).as_str());
                r.append("::TEXT = ");
                r.append(expression.as_str());
                r.append(")");
                r
            },
            Statement::DropPolicy { schema, table } => {
                let mut r = "DROP POLICY tenant_isolation_policy ON ".to_owned();
                r.append(qualified_name(schema.as_str(), table.as_str()).as_str());
                r
            },
            Statement::DisableRowLevelSecurity { schema, table } => {
                let mut r = "ALTER TABLE ".to_owned();
                r.append(qualified_name(schema.as_str(), table.as_str()).as_str());
                r.append(" DISABLE ROW LEVEL SECURITY");
                r
            },
            Statement::InsertMarkedColumn { table_id, column } => {
                let mut r = "INSERT INTO pgmt.table_tenant_column (table_oid, column_name) VALUES (".to_owned();
                r.append(decimal_string(*table_id).as_str());
                r.append(", ");
                r.append(quote_literal(column.as_str()).as_str());
                r.append(")");
                r
            },
            Statement::DeleteMarkedColumn { table_id } => {
                let mut r = "DELETE FROM pgmt.table_tenant_column WHERE table_oid = ".to_owned();
                r.append(decimal_string(*table_id).as_str());
                r
            },
        }
    }
}

/// The statements that put a table under tenant isolation: row security on,
/// then the reserved policy comparing `column` with `expression`.
pub open spec fn enable_spec(
    schema: Seq<char>,
    table: Seq<char>,
    column: Seq<char>,
    expression: Seq<char>,
) -> Seq<StatementModel> {
    seq![
        StatementModel::EnableRowLevelSecurity { schema, table },
        StatementModel::CreatePolicy { schema, table, column, expression },
    ]
}

/// The statements that take a table out of tenant isolation: the reserved
/// policy dropped, then row security off.
pub open spec fn disable_spec(schema: Seq<char>, table: Seq<char>) -> Seq<StatementModel> {
    seq![
        StatementModel::DropPolicy { schema, table },
        StatementModel::DisableRowLevelSecurity { schema, table },
    ]
}

/// The statements that enable row filtering on `schema.table` by the tenant
/// `column` compared with `tenant_value`, an SQL expression.
pub fn enable_row_level_security(
    schema_name: &str,
    table_name: &str,
    tenant_column: &str,
    tenant_value: &str,
) -> (r: Vec<Statement>)
    ensures
        r@.map_values(|s: Statement| s@) == enable_spec(
            schema_name@,
            table_name@,
            tenant_column@,
            tenant_value@,
        ),
{
    let mut r: Vec<Statement> = Vec::new();
    r.push(
        Statement::EnableRowLevelSecurity {
            schema: schema_name.to_owned(),
            table: table_name.to_owned(),
        },
    );
    r.push(
        Statement::CreatePolicy {
            schema: schema_name.to_owned(),
            table: table_name.to_owned(),
            column: tenant_column.to_owned(),
            expression: tenant_value.to_owned(),
        },
    );
    assert(r@.map_values(|s: Statement| s@) =~= enable_spec(
        schema_name@,
        table_name@,
        tenant_column@,
        tenant_value@,
    ));
    r
}

/// The statements that disable row filtering on `schema.table`.
pub fn disable_row_level_security(schema_name: &str, table_name: &str) -> (r: Vec<Statement>)
    ensures
        r@.map_values(|s: Statement| s@) == disable_spec(schema_name@, table_name@),
{
    let mut r: Vec<Statement> = Vec::new();
    r.push(
        Statement::DropPolicy { schema: schema_name.to_owned(), table: table_name.to_owned() },
    );
    r.push(
        Statement::DisableRowLevelSecurity {
            schema: schema_name.to_owned(),
            table: table_name.to_owned(),
        },
    );
    assert(r@.map_values(|s: Statement| s@) =~= disable_spec(schema_name@, table_name@));
    r
}

/// The query that tells whether the caller is a superuser.
pub fn privilege_query() -> (r: String)
    ensures
        r@ == "SELECT rolsuper FROM pg_catalog.pg_roles WHERE rolname = current_user"@,
{
    "SELECT rolsuper FROM pg_catalog.pg_roles WHERE rolname = current_user".to_owned()
}

/// The query that finds the identifier of `schema.table` in the catalog.
pub fn table_oid_query(schema_name: &str, table_name: &str) -> (r: String)
    ensures
        r@ == "SELECT c.oid FROM pg_catalog.pg_class c JOIN pg_catalog.pg_namespace n ON n.oid = c.relnamespace WHERE n.nspname = "@
            + quoted(schema_name@, '\'') + " AND c.relname = "@ + quoted(table_name@, '\''),
{
    let mut r = "SELECT c.oid FROM pg_catalog.pg_class c JOIN pg_catalog.pg_namespace n ON n.oid = c.relnamespace WHERE n.nspname = ".to_owned();
    r.append(quote_literal(schema_name).as_str());
    r.append(" AND c.relname = ");
    r.append(quote_literal(table_name).as_str());
    r
}

/// The query that reads the tenant column recorded for a table.
pub fn marked_column_query(table_id: u32) -> (r: String)
    ensures
        r@ == "SELECT column_name FROM pgmt.table_tenant_column WHERE table_oid = "@
            + decimal(table_id as nat),
{
    let mut r = "SELECT column_name FROM pgmt.table_tenant_column WHERE table_oid = ".to_owned();
    r.append(decimal_string(table_id).as_str());
    r
}

} // verus!
