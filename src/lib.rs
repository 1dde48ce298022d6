//! Intent routing, agent preparation, Markdown rendering of dictionary
//! entries and the server lifecycle decisions of a command-line assistant.
//! Everything that touches the network, the document store or the terminal
//! lives outside this library and hands it plain values.

pub mod agent;
pub mod command;
pub mod config;
pub mod dictionary;
pub mod error;
pub mod input;
pub mod lifecycle;
pub mod net;
pub mod request;
pub mod router;
pub mod stream;
pub mod text;
