use vstd::prelude::*;
use crate::error::PgmtError;
use crate::sql::{quote_literal, quoted};

verus! {

/// The two settings that choose how the tenant of a row is recognised:
/// `pgmt.tenant_strategy` and `pgmt.tenant_value`, each `None` when unset.
pub struct TenantConfig {
    pub tenant_strategy: Option<String>,
    pub tenant_value: Option<String>,
}

/// How the tenant of the caller is identified.
pub enum TenantStrategy {
    /// The tenant is the caller's own database role.
    User,
    /// The tenant is a fixed, non-empty literal.
    Value(String),
}

/// What a [`TenantStrategy`] holds, as sequences of characters.
pub enum StrategyModel {
    User,
    Value(Seq<char>),
}

impl View for TenantStrategy {
    type V = StrategyModel;

    open spec fn view(&self) -> StrategyModel {
        match self {
            TenantStrategy::User => StrategyModel::User,
            TenantStrategy::Value(v) => StrategyModel::Value(v@),
        }
    }
}

/// The characters of an optional string.
pub open spec fn opt_view(o: Option<String>) -> Option<Seq<char>> {
    match o {
        Some(s) => Some(s@),
        None => None,
    }
}

/// The strategy that the two settings select, or `ConfigError` when the
/// strategy is unset or unknown, or is `value` with an unset or empty literal.
pub open spec fn resolve_spec(strategy: Option<Seq<char>>, value: Option<Seq<char>>) -> Result<
    StrategyModel,
    PgmtError,
> {
    match strategy {
        Some(s) => if s == "user"@ {
            Ok(StrategyModel::User)
        } else if s == "value"@ {
            match value {
                Some(v) => if v.len() > 0 {
                    Ok(StrategyModel::Value(v))
                } else {
                    Err(PgmtError::ConfigError)
                },
                None => Err(PgmtError::ConfigError),
            }
        } else {
            Err(PgmtError::ConfigError)
        },
        None => Err(PgmtError::ConfigError),
    }
}

/// The SQL expression that stands for the caller's tenant.
pub open spec fn expression_spec(strategy: StrategyModel) -> Seq<char> {
    match strategy {
        StrategyModel::User => "current_user"@,
        StrategyModel::Value(v) => quoted(v, '\''),
    }
}

impl TenantConfig {
    /// What [`TenantConfig::resolve`] returns, in terms of the settings' characters.
    pub open spec fn resolved(&self) -> Result<StrategyModel, PgmtError> {
        resolve_spec(opt_view(self.tenant_strategy), opt_view(self.tenant_value))
    }

    /// Resolves the tenant strategy from the two settings.
    pub fn resolve(&self) -> (r: Result<TenantStrategy, PgmtError>)
        ensures
            match r {
                Ok(s) => self.resolved() == Ok::<StrategyModel, PgmtError>(s@),
                Err(e) => self.resolved() == Err::<StrategyModel, PgmtError>(e),
            },
    {
        match &self.tenant_strategy {
            None => Err(PgmtError::ConfigError),
            Some(s) => {
                if *s == "user".to_owned() {
                    Ok(TenantStrategy::User)
                } else if *s == "value".to_owned() {
                    match &self.tenant_value {
                        None => Err(PgmtError::ConfigError),
                        Some(v) => {
                            if v.as_str().is_empty() {
                                Err(PgmtError::ConfigError)
                            } else {
                                Ok(TenantStrategy::Value(v.clone()))
                            }
                        },
                    }
                } else {
                    Err(PgmtError::ConfigError)
                }
            },
        }
    }
}

impl TenantStrategy {
    /// The SQL expression that a row's tenant column is compared with:
    /// `current_user`, or the literal as a quoted string constant.
    pub fn expression(&self) -> (r: String)
        ensures
            r@ == expression_spec(self@),
    {
        match self {
            TenantStrategy::User => "current_user".to_owned(),
            TenantStrategy::Value(v) => quote_literal(v.as_str()),
        }
    }
}

} // verus!
