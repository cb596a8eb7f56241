//! A verified model of terminal-multiplexer session documents: windows made
//! of shell panes, built from compact textual descriptors, mutated in place,
//! and round-tripped through a structured JSON dialect.

pub mod cli;
pub mod create;
pub mod edit;
pub mod errors;
pub mod layout;
pub mod pane;
pub mod roundtrip;
pub mod serialisation;
pub mod session;
pub mod textparse;
pub mod window;
