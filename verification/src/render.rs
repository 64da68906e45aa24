//! Rendering: the source text that holds a descriptor as a constant.
//!
//! The text declares a struct with one field for each fact, a constructor that
//! fills it with the build's values, the constant `GIT_VERSION`, and how the
//! struct is shown: as its semantic version, and for inspection as its
//! informational version. Rendering has two steps. The first writes each
//! fact's value as a Rust expression. The second lays the expressions out in
//! the text.

use vstd::prelude::*;
use vstd::string::*;
use crate::gitversion::{Fact, FactRef, GitVersion};
use crate::literal::{denoted, denotes, plain_literal};
use crate::schema::{field, field_at, Field, Kind, FIELD_COUNT};
use crate::text::{decimal, push_decimal};

verus! {

/// The text before the struct's fields.
pub const HEAD: &'static str = "\
#[allow(dead_code)]\n\
pub struct GitVersion {\n\
";

/// The text between the struct's fields and the values of the constructor.
pub const MIDDLE: &'static str = "\
}\n\
\n\
#[allow(dead_code)]\n\
impl GitVersion {\n\
\x20   /// Builds a `GitVersion` instance.\n\
\x20   #[allow(deprecated)]\n\
\x20   pub const fn new() -> GitVersion {\n\
\x20       GitVersion {\n\
";

/// The text after the values of the constructor: the constant, and how the
/// struct is shown.
pub const TAIL: &'static str = "\
\x20       }\n\
\x20   }\n\
}\n\
\n\
#[allow(dead_code)]\n\
impl Default for GitVersion {\n\
\x20   fn default() -> Self {\n\
\x20       GitVersion::new()\n\
\x20   }\n\
}\n\
\n\
#[allow(dead_code)]\n\
pub const GIT_VERSION: GitVersion = GitVersion::new();\n\
\n\
impl std::fmt::Display for GitVersion {\n\
\x20   fn fmt(&self, f: &mut std::fmt::Formatter<'_>) -> std::fmt::Result {\n\
\x20       write!(f, \"{}\", self.semver)\n\
\x20   }\n\
}\n\
\n\
impl std::fmt::Debug for GitVersion {\n\
\x20   fn fmt(&self, f: &mut std::fmt::Formatter<'_>) -> std::fmt::Result {\n\
\x20       write!(f, \"{}\", self.informational_version)\n\
\x20   }\n\
}\n\
";

/// The strings of a sequence of them.
pub open spec fn texts(strings: Seq<String>) -> Seq<Seq<char>> {
    strings.map_values(|string: String| string@)
}

/// The type of a field of this kind in the generated struct.
pub open spec fn type_text(kind: Kind) -> Seq<char> {
    match kind {
        Kind::Required => "u32"@,
        Kind::Defaulted => "u32"@,
        Kind::Optional => "Option<u32>"@,
        Kind::Text => "&'static str"@,
    }
}

/// The expression of a number: its decimal numeral with the suffix `u32`.
pub open spec fn number_text(n: u32) -> Seq<char> {
    decimal(n as nat) + "u32"@
}

/// The expression of an optional number: `None`, or the number in `Some(..)`.
pub open spec fn optional_text(n: Option<u32>) -> Seq<char> {
    match n {
        None => "None"@,
        Some(n) => "Some("@ + number_text(n) + ")"@,
    }
}

/// Whether `text` is an expression of the fact. Of a number it is the one
/// expression above. Of a string it is any literal that stands for the
/// string.
pub open spec fn expresses(fact: Fact, text: Seq<char>) -> bool {
    match fact {
        Fact::Number(n) => text == number_text(n),
        Fact::Optional(n) => text == optional_text(n),
        Fact::Text(string) => denoted(text) == Some(string),
    }
}

/// Whether `expressions` holds an expression of each fact, in the order of the
/// table.
pub open spec fn express_all(facts: Seq<Fact>, expressions: Seq<Seq<char>>) -> bool {
    &&& expressions.len() == FIELD_COUNT
    &&& forall|i: int| 0 <= i < FIELD_COUNT ==> expresses(facts[i], #[trigger] expressions[i])
}

/// The lines that declare the field of a row: its comment, a mark where it is
/// deprecated, and the field with its type.
pub open spec fn declaration_of(row: Field) -> Seq<char> {
    row.doc@ + (if row.deprecated {
        "    #[deprecated]\n"@
    } else {
        Seq::empty()
    }) + "    pub "@ + row.name@ + ": "@ + type_text(row.kind) + ",\n"@
}

/// The declarations of the first `n` fields.
pub open spec fn declarations(n: int) -> Seq<char>
    decreases n,
{
    if n <= 0 {
        Seq::empty()
    } else {
        declarations(n - 1) + declaration_of(field_at(n - 1))
    }
}

/// Expression `i`; empty where the sequence is too short.
pub open spec fn expression_at(expressions: Seq<Seq<char>>, i: int) -> Seq<char> {
    if 0 <= i < expressions.len() {
        expressions[i]
    } else {
        Seq::empty()
    }
}

/// The line that gives the field of a row its value.
pub open spec fn initializer_of(row: Field, expression: Seq<char>) -> Seq<char> {
    "            "@ + row.name@ + ": "@ + expression + ",\n"@
}

/// The initializers of the first `n` fields.
pub open spec fn initializers(expressions: Seq<Seq<char>>, n: int) -> Seq<char>
    decreases n,
{
    if n <= 0 {
        Seq::empty()
    } else {
        initializers(expressions, n - 1) + initializer_of(
            field_at(n - 1),
            expression_at(expressions, n - 1),
        )
    }
}

/// The generated source, given the expression of each fact's value.
pub open spec fn artifact(expressions: Seq<Seq<char>>) -> Seq<char> {
    HEAD@ + declarations(FIELD_COUNT as int) + MIDDLE@ + initializers(
        expressions,
        FIELD_COUNT as int,
    ) + TAIL@
}

/// Whether `code` is a generated source of the facts: the layout of an
/// expression of each of them.
pub open spec fn renders(facts: Seq<Fact>, code: Seq<char>) -> bool {
    exists|expressions: Seq<Seq<char>>|
        express_all(facts, expressions) && code == artifact(expressions)
}

/// Has `quote` write the string as a Rust string literal. Nothing is believed
/// of the literal's text: `proc_macro2` writes it itself or leaves it to the
/// compiler, by the process it runs in.
#[verifier::external_body]
fn quoted(text: &str) -> (r: String) {
    quote::ToTokens::to_token_stream(text).to_string()
}

/// The expression of a string: the literal that `quote` writes, where it
/// reads back as the string, and the plain literal otherwise.
pub fn string_literal(text: &str) -> (r: String)
    ensures
        denoted(r@) == Some(text@),
{
    let written = quoted(text);
    if denotes(written.as_str(), text) {
        written
    } else {
        plain_literal(text)
    }
}

/// The expression of a number.
pub fn number_literal(n: u32) -> (r: String)
    ensures
        r@ == number_text(n),
{
    let mut out = String::new();
    push_decimal(&mut out, n);
    out.append("u32");
    assert(out@ =~= number_text(n));
    out
}

/// The expression of an optional number.
pub fn optional_literal(n: Option<u32>) -> (r: String)
    ensures
        r@ == optional_text(n),
{
    match n {
        None => String::from_str("None"),
        Some(n) => {
            let mut out = String::from_str("Some(");
            push_decimal(&mut out, n);
            out.append("u32");
            out.append(")");
            assert(out@ =~= optional_text(Some(n)));
            out
        },
    }
}

/// Writes the value of each fact as a Rust expression, in the order of the
/// table.
pub fn expressions(version: &GitVersion) -> (r: Vec<String>)
    ensures
        express_all(version@, texts(r@)),
{
    let mut out: Vec<String> = Vec::new();
    let mut i: usize = 0;
    while i < FIELD_COUNT
        invariant
            i <= FIELD_COUNT,
            out@.len() == i,
            forall|j: int| 0 <= j < i ==> expresses(version@[j], (#[trigger] out@[j])@),
        decreases FIELD_COUNT - i,
    {
        match version.get(i) {
            Some(FactRef::Number(n)) => {
                out.push(number_literal(n));
            },
            Some(FactRef::Optional(n)) => {
                out.push(optional_literal(n));
            },
            Some(FactRef::Text(text)) => {
                out.push(string_literal(text));
            },
            None => {},
        }
        i = i + 1;
    }
    out
}

/// Appends the declaration of a row.
fn push_declaration(out: &mut String, row: &Field)
    ensures
        final(out)@ == old(out)@ + declaration_of(*row),
{
    out.append(row.doc);
    if row.deprecated {
        out.append("    #[deprecated]\n");
    }
    out.append("    pub ");
    out.append(row.name);
    out.append(": ");
    match row.kind {
        Kind::Required => out.append("u32"),
        Kind::Defaulted => out.append("u32"),
        Kind::Optional => out.append("Option<u32>"),
        Kind::Text => out.append("&'static str"),
    }
    out.append(",\n");
    assert(out@ =~= old(out)@ + declaration_of(*row));
}

/// Appends the initializer of a row.
fn push_initializer(out: &mut String, row: &Field, expression: &str)
    ensures
        final(out)@ == old(out)@ + initializer_of(*row, expression@),
{
    out.append("            ");
    out.append(row.name);
    out.append(": ");
    out.append(expression);
    out.append(",\n");
    assert(out@ =~= old(out)@ + initializer_of(*row, expression@));
}

/// Lays the expressions out in the generated source. An expression that the
/// sequence lacks is left empty.
pub fn layout(expressions: &Vec<String>) -> (r: String)
    ensures
        r@ == artifact(texts(expressions@)),
{
    let mut out = String::from_str(HEAD);
    let mut i: usize = 0;
    while i < FIELD_COUNT
        invariant
            i <= FIELD_COUNT,
            out@ == HEAD@ + declarations(i as int),
        decreases FIELD_COUNT - i,
    {
        match field(i) {
            Some(row) => {
                push_declaration(&mut out, &row);
            },
            None => {},
        }
        i = i + 1;
        assert(out@ =~= HEAD@ + declarations(i as int));
    }
    out.append(MIDDLE);
    let ghost before = out@;
    let mut i: usize = 0;
    while i < FIELD_COUNT
        invariant
            i <= FIELD_COUNT,
            out@ == before + initializers(texts(expressions@), i as int),
        decreases FIELD_COUNT - i,
    {
        match field(i) {
            Some(row) => {
                if i < expressions.len() {
                    push_initializer(&mut out, &row, expressions[i].as_str());
                } else {
                    proof {
                        reveal_strlit("");
                    }
                    push_initializer(&mut out, &row, "");
                }
            },
            None => {},
        }
        i = i + 1;
        assert(out@ =~= before + initializers(texts(expressions@), i as int));
    }
    out.append(TAIL);
    out
}

/// The generated source of a descriptor: the layout of an expression of each
/// of its facts.
pub fn render(version: &GitVersion) -> (r: String)
    ensures
        renders(version@, r@),
{
    let written = expressions(version);
    let code = layout(&written);
    assert(express_all(version@, texts(written@)) && code@ == artifact(texts(written@)));
    code
}

} // verus!
