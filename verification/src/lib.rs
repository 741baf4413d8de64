//! Decides whether a shell command that runs SQL through `mysql` or `psql`
//! only reads data, so that a permission hook can approve it without asking.

pub mod text;
pub mod shell;
pub mod bash;
pub mod sql;
pub mod hook;
