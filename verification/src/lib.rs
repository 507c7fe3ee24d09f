//! Emission of TypeScript bindings for Move packages.
//!
//! - [`naming`]: from a name as Move writes it to a name that TypeScript
//!   accepts.
//! - [`index`]: the index file of a package over its modules, and that of a
//!   project over its packages.
//! - [`accessor`]: the TypeScript classes that read the tables of the Move
//!   standard library.
//! - [`tags`], [`table`], [`walk`]: what those classes do, for a generator
//!   that wants to know before it emits them: when a field is accepted as a
//!   table, and how the entries of an iterable table are followed.
//! - [`scaffold`]: the fixed files of an emitted project.
//! - [`text`]: the string operations underneath.
//!
//! Every emitter is a function from its arguments to text: the same
//! arguments give the same text, character for character. Contracts speak of
//! strings by their view, a sequence of characters.

pub mod accessor;
pub mod index;
pub mod naming;
pub mod scaffold;
pub mod table;
pub mod tags;
pub mod text;
pub mod walk;

pub use accessor::{get_iterable_table_helper_decl, get_table_helper_decl};
pub use index::{generate_index, generate_topmost_index, ModuleIdentifier};
pub use naming::{rename, NamingRules};
pub use scaffold::{generate_jest_config, generate_package_json, generate_ts_config};
