//! What the Postgres repositories send to the database: every statement as literal
//! SQL pieces and bound parameters, so that no request value is ever part of the
//! SQL text itself.

pub mod sql;
