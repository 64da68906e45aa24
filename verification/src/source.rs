//! The version source: what the version tool printed, and the payload in it.
//!
//! Running the tool is the caller's work. This module names the tool and says
//! which output counts as a payload.

use vstd::prelude::*;
use vstd::string::*;
use vstd::utf8::{decode_utf8, encode_utf8_decode_utf8, valid_utf8};

verus! {

/// The program that computes the version.
pub const TOOL: &'static str = "dotnet-gitversion";

/// The argument that keeps the tool from fetching from a remote.
pub const NO_FETCH: &'static str = "/nofetch";

/// What a run of the tool left behind.
#[derive(Clone, Debug, PartialEq, Eq)]
pub struct ToolOutput {
    /// Whether the tool exited with success.
    pub success: bool,
    /// The bytes it wrote to its standard output.
    pub stdout: Vec<u8>,
}

/// `text` without the white space at its start and at its end, as
/// `str::trim` of the standard library takes it off.
pub uninterp spec fn trimmed(text: Seq<char>) -> Seq<char>;

/// Calls `str::trim`.
#[verifier::external_body]
fn trim(text: &str) -> (r: &str)
    ensures
        r@ == trimmed(text@),
{
    text.trim()
}

/// Calls `std::str::from_utf8`. Believed: it accepts exactly the byte
/// sequences that are UTF-8, and the string it hands out is made of the bytes
/// it was given.
#[verifier::external_body]
fn utf8(bytes: &[u8]) -> (r: Option<&str>)
    ensures
        match r {
            Some(text) => valid_utf8(bytes@) && text.spec_bytes() == bytes@,
            None => !valid_utf8(bytes@),
        },
{
    std::str::from_utf8(bytes).ok()
}

/// The payload in the outcome of a run: none where the tool did not start,
/// where it failed, and where its output is no UTF-8; otherwise the output
/// without the white space around it.
pub open spec fn payload_of(outcome: Option<&ToolOutput>) -> Option<Seq<char>> {
    match outcome {
        Some(output) => if output.success && valid_utf8(output.stdout@) {
            Some(trimmed(decode_utf8(output.stdout@)))
        } else {
            None
        },
        None => None,
    }
}

/// The payload in the outcome of a run; `None` for `outcome` says that the
/// tool could not be started.
pub fn payload(outcome: Option<&ToolOutput>) -> (r: Option<String>)
    ensures
        match r {
            Some(text) => payload_of(outcome) == Some(text@),
            None => payload_of(outcome) is None,
        },
{
    match outcome {
        Some(output) => {
            if !output.success {
                return None;
            }
            match utf8(output.stdout.as_slice()) {
                Some(text) => {
                    proof {
                        encode_utf8_decode_utf8(text@);
                    }
                    Some(String::from_str(trim(text)))
                },
                None => None,
            }
        },
        None => None,
    }
}

} // verus!
