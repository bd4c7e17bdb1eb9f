//! Generation of `std::fmt::Display` implementations from declarations that
//! carry `display` directives.
//!
//! A declaration is handed in as plain data, a
//! [`declaration::TypeDeclaration`]. [`derive_display`] turns it into the
//! source text of one implementation, or into the first fatal error.
//!
//! The list of a directive is parsed by `syn`. What that parse gives is
//! called a reading; the contracts say what is generated for every reading
//! that can come of a declaration, and [`laws`] says what holds of all of
//! them.

pub mod binding;
pub mod declaration;
pub mod directive;
pub mod error;
pub mod generate;
pub mod header;
pub mod impl_enum;
pub mod impl_struct;
pub mod laws;
pub mod model;
pub mod output;
pub mod samples;
pub mod shape;
pub mod text;

pub use generate::{derive_display, expand};
