//! A code generator for ECMAScript: it walks a syntax tree and writes source
//! text through a token-aware writer.
//!
//! Every emitter is specified by a function in [`rules`] that maps the state
//! before the call to the state after it, so the text that comes out is fixed
//! by the tree, the source map, the comments and the configuration alone.
#![allow(unused_must_use)]

pub mod ast;
pub mod comments;
pub mod config;
pub mod emitter;
pub mod escape;
pub mod laws;
pub mod list;
pub mod rules;
pub mod source;
pub mod span;
pub mod text_writer;

pub use crate::config::Config;
pub use crate::emitter::{Emitter, Handlers, Node, Nodes};
pub use crate::list::ListFormat;
pub use crate::source::SourceMap;
pub use crate::span::Span;
pub use crate::text_writer::{JsWriter, SinkError};
