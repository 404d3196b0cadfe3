//! Named workspaces for git identities.
//!
//! A workspace binds a user name and an e-mail address to a short name, so
//! that the identity of a repository can be set by naming the workspace.
//!
//! - [`names`]: the order of workspace names.
//! - [`model`]: the store as a mapping, and what each operation makes of it.
//! - [`config`]: the store itself and its operations.
//! - [`patterns`]: the lists of URL patterns.
//! - [`laws`]: what holds of the operations taken together.
//! - [`text`], [`git`]: what the answers of the git tool mean.
//! - [`output`], [`layout`], [`render`], [`messages`]: what is shown, line by
//!   line.
//! - [`commands`]: what each command decides.
//!
//! Nothing here reads a file, runs a program or prints: the caller does, and
//! hands over what it found.

pub mod names;
pub mod model;
pub mod patterns;
pub mod config;
pub mod text;
pub mod git;
pub mod output;
pub mod layout;
pub mod render;
pub mod messages;
pub mod commands;
pub mod laws;
