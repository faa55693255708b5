//! Session modes, agent-backend selection and debug-loop logic of a coding
//! agent's terminal client, verified with Verus.
pub mod text;
pub mod json;
pub mod fmt;
pub mod backend;
pub mod relaunch;
pub mod commands;
pub mod hitl;
pub mod debug_logs;
pub mod tools;
pub mod spawn;
pub mod cursor_effort;
pub mod effort_catalog;
pub mod ask_mode;
pub mod debug_mode;
