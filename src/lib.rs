//! Translation of canonical package-manager verbs into the concrete command
//! line of a given agent (npm, yarn, pnpm, bun, deno).

pub mod args;
pub mod table;
pub mod command;
pub mod translate;
pub mod serialize;
pub mod laws;
