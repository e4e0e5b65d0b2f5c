//! Activation rules for contributed commands and keybindings: a small boolean
//! rule language, its parser, and an evaluator over a snapshot of the
//! environment.
pub mod context;
pub mod expr;
pub mod grammar;
pub mod laws;
pub mod manifest;
pub mod matcher;
pub mod parser;
pub mod paths;
pub mod pattern;
pub mod semantics;
pub mod store;
pub mod strings;

pub use context::{Context, FileEntry, FileType};
pub use matcher::Match;
pub use expr::{Expression, LogicalOp, MatchError, MatchType, Operator};
pub use parser::Parser;
pub use paths::extensions_dir;
pub use store::ExtensionStore;
