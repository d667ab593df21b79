//! Inline annotation hints for source code shown in an editor.
//!
//! A hint is a short read-only label on a span of a file: the inferred type
//! of a binding, the name of the parameter that an argument is passed for, or
//! the type of a step in a chain of calls. Given the syntax tree of a file
//! and what a semantic engine knows of its elements, [`inlay_hints`] decides
//! where hints go and what they show, and leaves out those that would only
//! repeat what the source says.

pub mod bind_hints;
pub mod chaining;
pub mod config;
pub mod engine;
pub mod hint;
pub mod label;
pub mod laws;
pub mod param_hints;
pub mod semantics;
pub mod snake_case;
pub mod syntax;
pub mod text;
pub mod tree;

pub use config::InlayHintsConfig;
pub use engine::inlay_hints;
pub use hint::{InlayHint, InlayKind, PendingHint, TextRange};
pub use label::Label;
pub use semantics::Semantics;
pub use tree::SyntaxTree;
