//! Version facts for a build.
//!
//! A build step asks a version tool for the facts of the checked-out commit,
//! hands them to the build as variables, and writes a source file that holds
//! them as a constant. This library is what that step decides:
//!
//! - [`source`]: which output of the tool counts as a payload;
//! - [`schema`]: the table of facts;
//! - [`json`] and [`decode`]: from a payload to a [`GitVersion`];
//! - [`publish`]: the variables of a descriptor;
//! - [`literal`] and [`render`]: the generated source of a descriptor;
//! - [`generate`]: the three together, and whether the file must be written;
//! - [`text`]: numerals and upper case, for the two before.
//!
//! Running the tool, printing and the file are left to the caller.

pub mod decode;
pub mod generate;
pub mod gitversion;
pub mod json;
pub mod literal;
pub mod publish;
pub mod render;
pub mod schema;
pub mod source;
pub mod text;

pub use crate::generate::Error;
pub use crate::gitversion::GitVersion;
