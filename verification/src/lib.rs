//! A chat bot that searches the Tailwind CSS documentation index and lets
//! the invoking user pick one of the results interactively.
//!
//! The flow of one invocation: normalize the upstream search response into
//! a flat result list ([`algolia`]), render it as an ephemeral prompt
//! ([`presenter`]), wait for the invoker's single selection within a fixed
//! window ([`coordinator`]), and commit the terminal messages
//! ([`finalizer`]). Process configuration is assembled once at startup
//! ([`config`]).

pub mod algolia;
pub mod config;
pub mod coordinator;
pub mod finalizer;
pub mod presenter;
pub mod text;
