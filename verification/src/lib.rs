//! Browser automation over the Chrome DevTools Protocol: the decisions of a browser manager and
//! of its JSON-RPC tool server, separated from the input and output that carry them out.
//!
//! Every operation of [`browser::BrowserManager`] is a small state machine. Starting it, and
//! resuming it with the event that answers its last request, yields a [`step::Step`]: either the
//! next [`step::Action`] to perform, or the operation's result.

pub mod browser;
pub mod error;
pub mod json;
pub mod mcp;
pub mod process;
pub mod rpc;
pub mod script_laws;
pub mod scripts;
pub mod step;
pub mod text;
pub mod tools;

