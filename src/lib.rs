//! Tenant isolation for shared PostgreSQL tables: resolving the tenant
//! strategy, producing the row-level-security statements that mark and unmark
//! a tenant column, and the decisions that drive one mark or unmark operation.

pub mod error;
pub mod handler;
pub mod laws;
pub mod model;
pub mod config;
pub mod sql;
