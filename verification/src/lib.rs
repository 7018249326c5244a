//! A verified grammar engine for a DOT-style graph description language.
//!
//! The engine turns source text into a `Graph` intermediate representation
//! or a classified, located error. Every rule is specified against a
//! mathematical model of the grammar over character sequences.

pub mod attribute;
pub mod color;
pub mod error;
pub mod ident;
pub mod ir;
pub mod text;
pub mod ws;
