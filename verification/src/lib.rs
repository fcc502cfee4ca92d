//! Request extraction and session state for plain-text HTTP request files.
//!
//! `parser` finds the request blocks of a document and reads a request out
//! of one. `document` keeps the open documents and the response that was
//! last captured for each request. `http_client` holds what the execution
//! of a request needs before and after the network call: the checks that a
//! request passes before it is sent, and the captured response with its
//! reports. `commands` takes the four editor commands from their arguments
//! to their outcome, around the one call that sends the request.
//! `code_lens`, `code_actions`, `inlay_hints` and `hover` say which buttons
//! and cards belong to the requests of a document. `text` is the
//! character-level ground under all of them.

pub mod code_actions;
pub mod code_lens;
pub mod commands;
pub mod document;
pub mod hover;
pub mod http_client;
pub mod inlay_hints;
pub mod parser;
pub mod text;
