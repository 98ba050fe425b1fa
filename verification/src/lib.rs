//! Compile-time singleton accessor generation.
//!
//! Two transformers turn annotated declarations into an accessor method that
//! exposes one shared global instance of a type:
//!
//! - the attribute form takes a static declaration and a target type path,
//!   and re-emits the static followed by an `impl` block with the accessor;
//! - the derive form takes a struct declaration carrying a marker annotation
//!   that names an already-declared static, and emits the `impl` block alone.
//!
//! Declarations are modelled by their names, their attribute lists and their
//! rendered token text; turning raw source into that model is delegated to
//! `syn` behind a small trusted boundary, while the marker locator, the
//! decisions and the emitted text are verified exactly.

pub mod model;
pub mod render;
pub mod locate;
pub mod syntax;
pub mod expand;

pub use expand::{derive_singleton, expand_derive, singleton_from_static};
pub use locate::find_singleton_static_name;
pub use model::{Attr, ExpandError, StaticDecl, StructInput};
pub use render::{expand_with_static, render_accessor};
