//! A library for editing GitLab merge-request descriptions and creating
//! issues with a local text editor.
//!
//! The library holds the decision logic of the tool: how a branch name is
//! resolved, how an edit session stages remote text into scratch files,
//! hands control to an editor and an optional markup converter, recovers the
//! result and guarantees cleanup, how raw editor input is split into an
//! issue draft, and how remote API replies are classified. All interaction
//! with the outside world (processes, files, the network) is expressed as
//! actions that a thin driver performs, feeding the observed events back in.

pub mod branch;
pub mod config;
pub mod create_issue;
pub mod draft;
pub mod edit_mr;
pub mod errors;
pub mod gateway;
pub mod markup;
pub mod open_mr;
pub mod session;
