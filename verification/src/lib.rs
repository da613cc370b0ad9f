//! Deprecation warnings for procedural macros: a builder that collects what
//! is deprecated and what replaces it, and the text and item name that a
//! macro emits so that the compiler reports the warning at the user's code.

mod outside;
pub mod text;
pub mod ident;
pub mod builder;
pub mod warning;
pub mod laws;

pub use outside::{xid_continue, xid_start};

pub use builder::DeprecatedWarningBuilder;
pub use warning::{FormattedWarning, Warning};
