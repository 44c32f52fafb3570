//! A registry of source modules that are looked up by name.
//!
//! A module is requested by a logical name. The registry finds the source
//! file along an ordered list of search directories, has it parsed once,
//! indexes its top-level declarations by symbol name and keeps the result
//! for as long as the registry lives.
//!
//! The registry never touches the file system itself. An import runs as a
//! short dialogue: each step tells the caller what to look up (does this
//! path exist, what does this file hold) and the caller reports back.

pub mod declaration;
pub mod error;
pub mod importer;
pub mod laws;
pub mod locator;
pub mod module;
pub mod step;
pub mod symbols;
pub mod syntax;

pub use declaration::{Declaration, DeclarationView, NamedKind};
pub use error::{ImportError, ImportErrorView};
pub use importer::{Importer, ImporterView};
pub use module::{Module, ModuleView};
pub use step::{ImportStep, ImportStepView};
pub use symbols::{extract_symbols, symbol_table, SymbolTable};
pub use syntax::{declarations, items, parse, Item, ItemKind, ItemView};
