//! An interactive command shell for a decentralized note-publishing
//! protocol: it parses lines of input into typed commands, builds
//! event payloads with tags, builds query filters, and renders the
//! results of relay calls as text. The relay transport itself is an
//! external collaborator; this crate decides what to send it and how
//! to show what came back.

pub mod command;
pub mod dispatch;
pub mod errors;
pub mod event;
pub mod filter;
pub mod laws;
pub mod numfmt;
pub mod render;
pub mod tokenize;
