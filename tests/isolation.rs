use pgmt::config::{TenantConfig, TenantStrategy};
use pgmt::error::PgmtError;
use pgmt::handler::{mark_tenant_column, unmark_tenant_column, Action, Event, Phase};
use pgmt::sql::{
    decimal_string, disable_row_level_security, enable_row_level_security, marked_column_query,
    privilege_query, quote_ident, quote_literal, table_oid_query, Statement,
};

fn user_config() -> TenantConfig {
    TenantConfig { tenant_strategy: Some("user".to_string()), tenant_value: None }
}

fn value_config(v: Option<&str>) -> TenantConfig {
    TenantConfig {
        tenant_strategy: Some("value".to_string()),
        tenant_value: v.map(|s| s.to_string()),
    }
}

fn sql_of(statements: &[Statement]) -> Vec<String> {
    statements.iter().map(|s| s.to_sql()).collect()
}

fn finish_error(action: Action) -> Option<PgmtError> {
    match action {
        Action::Finish(Err(e)) => Some(e),
        _ => None,
    }
}

#[test]
fn quote_ident_wraps_and_doubles_quotes() {
    assert_eq!(quote_ident("tenant_id"), "\"tenant_id\"");
    assert_eq!(quote_ident("a\"b"), "\"a\"\"b\"");
    assert_eq!(quote_ident(""), "\"\"");
}

#[test]
fn quote_literal_wraps_and_doubles_quotes() {
    assert_eq!(quote_literal("acme"), "'acme'");
    assert_eq!(quote_literal("o'neil"), "'o''neil'");
    assert_eq!(quote_literal("x'; DROP TABLE t; --"), "'x''; DROP TABLE t; --'");
}

#[test]
fn decimal_string_renders_numbers() {
    assert_eq!(decimal_string(0), "0");
    assert_eq!(decimal_string(7), "7");
    assert_eq!(decimal_string(16384), "16384");
    assert_eq!(decimal_string(u32::MAX), "4294967295");
}

#[test]
fn resolve_user_strategy() {
    assert!(matches!(user_config().resolve(), Ok(TenantStrategy::User)));
}

#[test]
fn resolve_value_strategy() {
    match value_config(Some("acme")).resolve() {
        Ok(TenantStrategy::Value(v)) => assert_eq!(v, "acme"),
        _ => panic!("expected the value strategy"),
    }
}

#[test]
fn resolve_rejects_bad_settings() {
    assert!(matches!(value_config(Some("")).resolve(), Err(PgmtError::ConfigError)));
    assert!(matches!(value_config(None).resolve(), Err(PgmtError::ConfigError)));
    let unset = TenantConfig { tenant_strategy: None, tenant_value: Some("acme".to_string()) };
    assert!(matches!(unset.resolve(), Err(PgmtError::ConfigError)));
    let unknown = TenantConfig { tenant_strategy: Some("role".to_string()), tenant_value: None };
    assert!(matches!(unknown.resolve(), Err(PgmtError::ConfigError)));
    let empty = TenantConfig { tenant_strategy: Some(String::new()), tenant_value: None };
    assert!(matches!(empty.resolve(), Err(PgmtError::ConfigError)));
}

#[test]
fn tenant_expressions() {
    assert_eq!(TenantStrategy::User.expression(), "current_user");
    assert_eq!(TenantStrategy::Value("acme".to_string()).expression(), "'acme'");
    assert_eq!(TenantStrategy::Value("it's".to_string()).expression(), "'it''s'");
}

#[test]
fn enable_statements_in_order() {
    let s = enable_row_level_security("public", "tenant", "tenant_id", "current_user");
    assert_eq!(
        sql_of(&s),
        vec![
            "ALTER TABLE \"public\".\"tenant\" ENABLE ROW LEVEL SECURITY".to_string(),
            "CREATE POLICY tenant_isolation_policy ON \"public\".\"tenant\" USING (\"tenant_id\"::TEXT = current_user)"
                .to_string(),
        ]
    );
}

#[test]
fn disable_statements_in_order() {
    let s = disable_row_level_security("public", "tenant");
    assert_eq!(
        sql_of(&s),
        vec![
            "DROP POLICY tenant_isolation_policy ON \"public\".\"tenant\"".to_string(),
            "ALTER TABLE \"public\".\"tenant\" DISABLE ROW LEVEL SECURITY".to_string(),
        ]
    );
}

#[test]
fn queries() {
    assert_eq!(
        privilege_query(),
        "SELECT rolsuper FROM pg_catalog.pg_roles WHERE rolname = current_user"
    );
    assert_eq!(
        table_oid_query("public", "tenant"),
        "SELECT c.oid FROM pg_catalog.pg_class c JOIN pg_catalog.pg_namespace n ON n.oid = c.relnamespace WHERE n.nspname = 'public' AND c.relname = 'tenant'"
    );
    assert_eq!(
        marked_column_query(42),
        "SELECT column_name FROM pgmt.table_tenant_column WHERE table_oid = 42"
    );
}

#[test]
fn mark_then_unmark_public_tenant_with_user_strategy() {
    let (mut session, first) = mark_tenant_column("public", "tenant", "tenant_id", user_config());
    assert!(matches!(first, Action::QueryPrivilege));
    match session.step(Event::Privilege(true)) {
        Action::LookupTable { schema, table } => {
            assert_eq!(schema, "public");
            assert_eq!(table, "tenant");
        }
        _ => panic!("expected a table lookup"),
    }
    match session.step(Event::TableId(Some(16384))) {
        Action::Apply { table_id, statements } => {
            assert_eq!(table_id, 16384);
            assert_eq!(
                sql_of(&statements),
                vec![
                    "ALTER TABLE \"public\".\"tenant\" ENABLE ROW LEVEL SECURITY".to_string(),
                    "CREATE POLICY tenant_isolation_policy ON \"public\".\"tenant\" USING (\"tenant_id\"::TEXT = current_user)"
                        .to_string(),
                    "INSERT INTO pgmt.table_tenant_column (table_oid, column_name) VALUES (16384, 'tenant_id')"
                        .to_string(),
                ]
            );
        }
        _ => panic!("expected the transaction"),
    }
    assert!(matches!(session.step(Event::Outcome(None)), Action::Finish(Ok(()))));
    assert_eq!(session.phase(), Phase::Finished);

    let (mut session, _) = unmark_tenant_column("public", "tenant", user_config());
    assert!(matches!(session.step(Event::Privilege(true)), Action::LookupTable { .. }));
    match session.step(Event::TableId(Some(16384))) {
        Action::Apply { table_id, statements } => {
            assert_eq!(table_id, 16384);
            assert_eq!(
                sql_of(&statements),
                vec![
                    "DROP POLICY tenant_isolation_policy ON \"public\".\"tenant\"".to_string(),
                    "ALTER TABLE \"public\".\"tenant\" DISABLE ROW LEVEL SECURITY".to_string(),
                    "DELETE FROM pgmt.table_tenant_column WHERE table_oid = 16384".to_string(),
                ]
            );
        }
        _ => panic!("expected the transaction"),
    }
    assert!(matches!(session.step(Event::Outcome(None)), Action::Finish(Ok(()))));
}

#[test]
fn mark_with_value_strategy_quotes_literal() {
    let (mut session, _) =
        mark_tenant_column("app", "orders", "tenant", value_config(Some("acme")));
    session.step(Event::Privilege(true));
    match session.step(Event::TableId(Some(7))) {
        Action::Apply { statements, .. } => assert_eq!(
            statements[1].to_sql(),
            "CREATE POLICY tenant_isolation_policy ON \"app\".\"orders\" USING (\"tenant\"::TEXT = 'acme')"
        ),
        _ => panic!("expected the transaction"),
    }
}

#[test]
fn unprivileged_caller_is_refused() {
    let (mut session, _) = mark_tenant_column("public", "tenant", "tenant_id", user_config());
    assert_eq!(finish_error(session.step(Event::Privilege(false))), Some(PgmtError::PrivilegeError));
    assert!(!session.accepts(&Event::TableId(Some(1))));
    let (mut session, _) = unmark_tenant_column("public", "tenant", user_config());
    assert_eq!(finish_error(session.step(Event::Privilege(false))), Some(PgmtError::PrivilegeError));
    let (mut session, _) =
        mark_tenant_column("public", "tenant", "tenant_id", value_config(Some("")));
    assert_eq!(finish_error(session.step(Event::Privilege(false))), Some(PgmtError::PrivilegeError));
}

#[test]
fn empty_value_is_config_error_before_lookup() {
    let (mut session, _) =
        mark_tenant_column("public", "tenant", "tenant_id", value_config(Some("")));
    assert_eq!(finish_error(session.step(Event::Privilege(true))), Some(PgmtError::ConfigError));
    assert_eq!(session.phase(), Phase::Finished);
}

#[test]
fn unset_strategy_is_config_error_before_lookup() {
    let config = TenantConfig { tenant_strategy: None, tenant_value: None };
    let (mut session, _) = mark_tenant_column("public", "tenant", "tenant_id", config);
    assert_eq!(finish_error(session.step(Event::Privilege(true))), Some(PgmtError::ConfigError));
}

#[test]
fn missing_table_is_lookup_error() {
    let (mut session, _) = mark_tenant_column("public", "nope", "tenant_id", user_config());
    session.step(Event::Privilege(true));
    assert_eq!(finish_error(session.step(Event::TableId(None))), Some(PgmtError::LookupError));
}

#[test]
fn marking_a_marked_table_is_policy_conflict() {
    let (mut session, _) = mark_tenant_column("public", "tenant", "tenant_id", user_config());
    session.step(Event::Privilege(true));
    session.step(Event::TableId(Some(16384)));
    assert_eq!(
        finish_error(session.step(Event::Outcome(Some(1)))),
        Some(PgmtError::PolicyConflictError)
    );
}

#[test]
fn unmarking_an_unmarked_table_is_policy_conflict() {
    let (mut session, _) = unmark_tenant_column("public", "tenant", user_config());
    session.step(Event::Privilege(true));
    session.step(Event::TableId(Some(16384)));
    assert_eq!(
        finish_error(session.step(Event::Outcome(Some(0)))),
        Some(PgmtError::PolicyConflictError)
    );
}

#[test]
fn failed_metadata_write_is_store_error() {
    let (mut session, _) = mark_tenant_column("public", "tenant", "tenant_id", user_config());
    session.step(Event::Privilege(true));
    session.step(Event::TableId(Some(16384)));
    assert_eq!(finish_error(session.step(Event::Outcome(Some(2)))), Some(PgmtError::StoreError));
}

#[test]
fn unmark_does_not_need_a_strategy() {
    let config = TenantConfig { tenant_strategy: None, tenant_value: None };
    let (mut session, _) = unmark_tenant_column("public", "tenant", config);
    assert!(matches!(session.step(Event::Privilege(true)), Action::LookupTable { .. }));
}

#[test]
fn session_accepts_only_the_awaited_event() {
    let (session, _) = mark_tenant_column("public", "tenant", "tenant_id", user_config());
    assert_eq!(session.phase(), Phase::AwaitPrivilege);
    assert!(session.accepts(&Event::Privilege(true)));
    assert!(!session.accepts(&Event::TableId(None)));
    assert!(!session.accepts(&Event::Outcome(None)));
}

#[test]
fn error_messages_are_distinct() {
    let all = [
        PgmtError::PrivilegeError,
        PgmtError::ConfigError,
        PgmtError::LookupError,
        PgmtError::PolicyConflictError,
        PgmtError::StoreError,
    ];
    for (i, a) in all.iter().enumerate() {
        for b in all.iter().skip(i + 1) {
            assert_ne!(a.message(), b.message());
        }
    }
}
