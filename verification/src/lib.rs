//! A small goal-tracking data model: users own workspaces, workspaces hold
//! goal tables, goal tables hold goals.
//!
//! Every entity is built by a validating factory, and every public function
//! carries a contract that Verus proves. One thing is taken on trust: what
//! chrono answers when asked for a time of day (see `clock`).
//!
//! The library neither reads nor prints. The session decides what a menu
//! entry does, and the entities render their summaries as text.

pub mod clock;
pub mod display;
pub mod error;
pub mod factory;
pub mod goal;
pub mod laws;
pub mod menu;
pub mod numeral;
pub mod role;
pub mod session;
pub mod table;
pub mod text;
pub mod user;
pub mod workspace;
