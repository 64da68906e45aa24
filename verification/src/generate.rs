//! The generator: from a payload to what a build step publishes and writes.
//!
//! Input and output are the caller's work: it runs the tool, prints the
//! directives, reads the file that is there and writes the new one. What is
//! decided in between is decided here.

use vstd::prelude::*;
use vstd::string::*;
use vstd::utf8::encode_utf8_decode_utf8;
use crate::decode::{decode, decoded, DecodeError};
use crate::gitversion::{default_facts, GitVersion};
use crate::json::{empty_object_text, parsed};
use crate::publish::{publish, variable_views, variables, Variable};
use crate::render::{render, renders};

verus! {

/// `std::io::Error`, the error of reading or writing a file. It is only
/// handed on.
#[verifier::external_type_specification]
#[verifier::external_body]
pub struct ExIoError(std::io::Error);

/// Why a build step fails.
#[derive(Debug)]
pub enum Error {
    /// Reading or writing the generated source failed.
    Io(std::io::Error),
    /// The build does not say where generated files go.
    MissingEnvVar,
    /// The payload gives no descriptor.
    Decode(DecodeError),
}

/// The variable of the build environment that names the directory for
/// generated files.
pub const OUT_DIR: &'static str = "OUT_DIR";

/// The name of the generated source file in that directory.
pub const ARTIFACT: &'static str = "gitversion.rs";

/// The payload that stands in where the tool gave none: the empty object.
pub const EMPTY_OBJECT: &'static str = "{}";

/// What one payload gives: the descriptor, the variables to publish and the
/// source to write.
#[derive(Debug)]
pub struct Generated {
    pub version: GitVersion,
    pub variables: Vec<Variable>,
    pub code: String,
}

/// The text that is decoded: the payload, or the empty object in its place.
pub open spec fn payload_text(payload: Option<&str>) -> Seq<char> {
    match payload {
        Some(text) => text@,
        None => empty_object_text(),
    }
}

/// The directory for generated files, or the error of a build that names
/// none.
pub fn require_out_dir<T>(out_dir: Option<T>) -> (r: Result<T, Error>)
    ensures
        match out_dir {
            Some(dir) => r == Ok::<T, Error>(dir),
            None => r == Err::<T, Error>(Error::MissingEnvVar),
        },
{
    match out_dir {
        Some(dir) => Ok(dir),
        None => Err(Error::MissingEnvVar),
    }
}

/// Decodes the payload, with the empty object in place of a missing one, and
/// from the descriptor makes the variables and the source. A payload that
/// does not decode gives the decoder's error and nothing else. A missing
/// payload gives the default descriptor.
pub fn generate(payload: Option<&str>) -> (r: Result<Generated, Error>)
    ensures
        match parsed(payload_text(payload)) {
            None => r matches Err(Error::Decode(DecodeError::Syntax(_))),
            Some(doc) => match decoded(doc) {
                Ok(facts) => {
                    &&& r matches Ok(made)
                    &&& made.version@ == facts
                    &&& variable_views(made.variables@) == variables(facts)
                    &&& renders(facts, made.code@)
                },
                Err(fault) => r matches Err(Error::Decode(found)) && found == fault,
            },
        },
        payload is None ==> (r matches Ok(made) && made.version@ == default_facts()),
{
    let text = match payload {
        Some(text) => text,
        None => {
            proof {
                reveal_strlit("{}");
                assert(EMPTY_OBJECT@ =~= empty_object_text());
            }
            EMPTY_OBJECT
        },
    };
    match decode(text) {
        Ok(version) => {
            let variables = publish(&version);
            let code = render(&version);
            Ok(Generated { version, variables, code })
        },
        Err(fault) => Err(Error::Decode(fault)),
    }
}

/// Whether the file must be written: it is not there, or holds other text.
pub open spec fn stale(existing: Option<Seq<char>>, code: Seq<char>) -> bool {
    existing != Some(code)
}

/// What the file holds after the write-back.
pub open spec fn settled(existing: Option<Seq<char>>, code: Seq<char>) -> Option<Seq<char>> {
    if stale(existing, code) {
        Some(code)
    } else {
        existing
    }
}

/// Compares two texts byte by byte.
pub fn same_content_as(current: &str, content: &str) -> (r: bool)
    ensures
        r == (current@ == content@),
{
    let a = current.as_bytes();
    let b = content.as_bytes();
    if a.len() != b.len() {
        return false;
    }
    let mut i: usize = 0;
    while i < a.len()
        invariant
            i <= a@.len(),
            a@.len() == b@.len(),
            a@ == current.spec_bytes(),
            b@ == content.spec_bytes(),
            forall|j: int| 0 <= j < i ==> a@[j] == b@[j],
        decreases a@.len() - i,
    {
        if a[i] != b[i] {
            return false;
        }
        i = i + 1;
    }
    proof {
        assert(a@ =~= b@);
        encode_utf8_decode_utf8(current@);
        encode_utf8_decode_utf8(content@);
    }
    true
}

/// Whether the generated source must be written, given what the file holds
/// now; `None` for `existing` says that there is no file.
pub fn needs_write(existing: Option<&str>, code: &str) -> (r: bool)
    ensures
        r == stale(
            match existing {
                Some(text) => Some(text@),
                None => None,
            },
            code@,
        ),
{
    match existing {
        Some(text) => !same_content_as(text, code),
        None => true,
    }
}

/// After the write-back the file holds the generated source, whatever it held
/// before, and a second write-back of the same source writes nothing.
pub proof fn law_second_run_writes_nothing(existing: Option<Seq<char>>, code: Seq<char>)
    ensures
        settled(existing, code) == Some(code),
        !stale(settled(existing, code), code),
        settled(settled(existing, code), code) == settled(existing, code),
{
}

} // verus!
