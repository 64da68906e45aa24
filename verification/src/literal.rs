//! String literals of the generated source.
//!
//! A literal is the text between two double quotes in which a backslash
//! starts an escape. [`denoted`] says which string a literal stands for;
//! it knows the escapes `\n`, `\r`, `\t`, `\\`, `\0`, `\'`, `\"`, `\x` with
//! two digits and `\u` with up to six in braces. [`denotes`] reads a literal
//! against a string, and [`plain_literal`] writes one with as few escapes as
//! will do.

use vstd::prelude::*;
use vstd::string::*;

verus! {

/// The value of a hexadecimal digit.
pub open spec fn hex_value(c: char) -> Option<nat> {
    if '0' <= c && c <= '9' {
        Some((c as nat - 48) as nat)
    } else if 'a' <= c && c <= 'f' {
        Some((c as nat - 87) as nat)
    } else if 'A' <= c && c <= 'F' {
        Some((c as nat - 55) as nat)
    } else {
        None
    }
}

/// Whether `code` is the code of a character: no surrogate, and not above the
/// last code point.
pub open spec fn is_scalar(code: nat) -> bool {
    code <= 0xD7FF || (0xE000 <= code && code <= 0x10FFFF)
}

/// A character has the code of a character, and is the character of its code.
pub proof fn lemma_char_code(c: char)
    ensures
        is_scalar(c as nat),
        c as nat as char == c,
        (c as u32) as nat == c as nat,
{
}

/// The digits of a `\u` escape from the start of `s` up to the closing brace:
/// the number they give, after `value` from `count` digits before them, and
/// how many characters they take, the brace included.
pub open spec fn hex_run(s: Seq<char>, value: nat, count: nat) -> Option<(nat, nat)>
    decreases s.len(),
{
    if s.len() == 0 {
        None
    } else if s[0] == '}' {
        if count > 0 {
            Some((value, 1))
        } else {
            None
        }
    } else if count >= 6 {
        None
    } else {
        match hex_value(s[0]) {
            Some(digit) => match hex_run(s.skip(1), value * 16 + digit, count + 1) {
                Some((code, taken)) => Some((code, taken + 1)),
                None => None,
            },
            None => None,
        }
    }
}

/// The character that the second character of an escape stands for, where
/// the two are the whole escape.
pub open spec fn short_escape(c: char) -> Option<char> {
    if c == 'n' {
        Some('\n')
    } else if c == 'r' {
        Some('\r')
    } else if c == 't' {
        Some('\t')
    } else if c == '\\' {
        Some('\\')
    } else if c == '0' {
        Some('\0')
    } else if c == '\'' {
        Some('\'')
    } else if c == '"' {
        Some('"')
    } else {
        None
    }
}

/// The code of the character that the start of `s` stands for, and how many
/// characters stand for it. A double quote and a carriage return stand for
/// nothing unless escaped.
pub open spec fn first(s: Seq<char>) -> Option<(nat, nat)> {
    if s.len() == 0 || s[0] == '"' || s[0] == '\r' {
        None
    } else if s[0] != '\\' {
        Some((s[0] as nat, 1))
    } else if s.len() < 2 {
        None
    } else if s[1] == 'x' {
        if s.len() >= 4 && hex_value(s[2]) is Some && hex_value(s[3]) is Some && hex_value(
            s[2],
        ).unwrap() < 8 {
            Some(((hex_value(s[2]).unwrap() * 16 + hex_value(s[3]).unwrap()) as nat, 4))
        } else {
            None
        }
    } else if s[1] == 'u' {
        if s.len() >= 3 && s[2] == '{' {
            match hex_run(s.skip(3), 0, 0) {
                Some((code, taken)) => if is_scalar(code) {
                    Some((code, taken + 3))
                } else {
                    None
                },
                None => None,
            }
        } else {
            None
        }
    } else {
        match short_escape(s[1]) {
            Some(c) => Some((c as nat, 2)),
            None => None,
        }
    }
}

/// The string that the inside of a literal stands for.
pub open spec fn unescaped(s: Seq<char>) -> Option<Seq<char>>
    decreases s.len(),
{
    if s.len() == 0 {
        Some(Seq::empty())
    } else {
        match first(s) {
            Some((code, taken)) => if 0 < taken <= s.len() {
                match unescaped(s.skip(taken as int)) {
                    Some(rest) => Some(seq![code as char] + rest),
                    None => None,
                }
            } else {
                None
            },
            None => None,
        }
    }
}

/// The string that a literal stands for; `None` for what is no literal.
pub open spec fn denoted(literal: Seq<char>) -> Option<Seq<char>> {
    if literal.len() >= 2 && literal[0] == '"' && literal.last() == '"' {
        unescaped(literal.subrange(1, literal.len() - 1))
    } else {
        None
    }
}

/// How a character stands in a plain literal: escaped where it must be, as it
/// is otherwise.
pub open spec fn plain_char(c: char) -> Seq<char> {
    if c == '"' {
        seq!['\\', '"']
    } else if c == '\\' {
        seq!['\\', '\\']
    } else if c == '\r' {
        seq!['\\', 'r']
    } else {
        seq![c]
    }
}

/// The inside of the plain literal of a string.
pub open spec fn plain_body(text: Seq<char>) -> Seq<char>
    decreases text.len(),
{
    if text.len() == 0 {
        Seq::empty()
    } else {
        plain_char(text[0]) + plain_body(text.skip(1))
    }
}

/// The plain literal of a string.
pub open spec fn plain(text: Seq<char>) -> Seq<char> {
    seq!['"'] + plain_body(text) + seq!['"']
}

/// The characters of a string.
pub fn chars_of(text: &str) -> (r: Vec<char>)
    ensures
        r@ == text@,
{
    let len = text.unicode_len();
    let mut out: Vec<char> = Vec::new();
    let mut i: usize = 0;
    while i < len
        invariant
            i <= len,
            len == text@.len(),
            out@ == text@.take(i as int),
        decreases len - i,
    {
        out.push(text.get_char(i));
        assert(text@.take(i + 1) =~= text@.take(i as int).push(text@[i as int]));
        i = i + 1;
    }
    assert(text@.take(len as int) =~= text@);
    out
}

/// The value of a hexadecimal digit.
fn hex_digit(c: char) -> (r: Option<u32>)
    ensures
        match r {
            Some(digit) => hex_value(c) == Some(digit as nat) && digit < 16,
            None => hex_value(c) is None,
        },
{
    if c >= '0' && c <= '9' {
        Some(c as u32 - 48)
    } else if c >= 'a' && c <= 'f' {
        Some(c as u32 - 87)
    } else if c >= 'A' && c <= 'F' {
        Some(c as u32 - 55)
    } else {
        None
    }
}

/// The largest number that `count` hexadecimal digits give, and one more.
spec fn cap(count: nat) -> nat {
    if count == 0 {
        1
    } else if count == 1 {
        0x10
    } else if count == 2 {
        0x100
    } else if count == 3 {
        0x1000
    } else if count == 4 {
        0x1_0000
    } else if count == 5 {
        0x10_0000
    } else {
        0x100_0000
    }
}

/// A run that was found `by` characters further on.
spec fn further(run: Option<(nat, nat)>, by: nat) -> Option<(nat, nat)> {
    match run {
        Some((code, taken)) => Some((code, taken + by)),
        None => None,
    }
}

/// Reads the digits of a `\u` escape from place `from` up to the closing
/// brace.
fn read_hex_run(s: &Vec<char>, from: usize) -> (r: Option<(u32, usize)>)
    requires
        from <= s@.len(),
    ensures
        match r {
            Some((code, taken)) => hex_run(s@.skip(from as int), 0, 0) == Some(
                (code as nat, taken as nat),
            ) && from + taken <= s@.len(),
            None => hex_run(s@.skip(from as int), 0, 0) is None,
        },
{
    let mut at: usize = from;
    let mut value: u32 = 0;
    let mut count: usize = 0;
    assert(further(hex_run(s@.skip(at as int), value as nat, count as nat), 0) == hex_run(
        s@.skip(from as int),
        0,
        0,
    ));
    while at < s.len()
        invariant
            from <= at <= s@.len(),
            count <= 6,
            at - from == count,
            value < cap(count as nat),
            hex_run(s@.skip(from as int), 0, 0) == further(
                hex_run(s@.skip(at as int), value as nat, count as nat),
                (at - from) as nat,
            ),
        decreases s@.len() - at,
    {
        let ghost here = s@.skip(at as int);
        assert(here.len() > 0 && here[0] == s@[at as int]);
        assert(here.skip(1) =~= s@.skip(at + 1));
        let c = s[at];
        if c == '}' {
            if count > 0 {
                return Some((value, count + 1));
            } else {
                return None;
            }
        }
        if count >= 6 {
            return None;
        }
        match hex_digit(c) {
            Some(digit) => {
                value = value * 16 + digit;
                count = count + 1;
                at = at + 1;
            },
            None => {
                return None;
            },
        }
    }
    assert(s@.skip(at as int).len() == 0);
    None
}

/// Reads the code of the character that stands at place `at`, and how many
/// characters stand for it.
fn read_first(s: &Vec<char>, at: usize) -> (r: Option<(u32, usize)>)
    requires
        at < s@.len(),
    ensures
        match r {
            Some((code, taken)) => first(s@.skip(at as int)) == Some((code as nat, taken as nat))
                && 0 < taken && at + taken <= s@.len() && is_scalar(code as nat),
            None => first(s@.skip(at as int)) is None,
        },
{
    let ghost here = s@.skip(at as int);
    assert(here.len() == s@.len() - at);
    assert(here[0] == s@[at as int]);
    let c = s[at];
    if c == '"' || c == '\r' {
        return None;
    }
    if c != '\\' {
        proof {
            lemma_char_code(c);
        }
        return Some((c as u32, 1));
    }
    if s.len() - at < 2 {
        return None;
    }
    assert(here[1] == s@[at + 1]);
    let e = s[at + 1];
    if e == 'x' {
        if s.len() - at < 4 {
            return None;
        }
        assert(here[2] == s@[at + 2]);
        assert(here[3] == s@[at + 3]);
        match (hex_digit(s[at + 2]), hex_digit(s[at + 3])) {
            (Some(high), Some(low)) => {
                if high < 8 {
                    Some((high * 16 + low, 4))
                } else {
                    None
                }
            },
            _ => None,
        }
    } else if e == 'u' {
        if s.len() - at < 3 {
            return None;
        }
        assert(here[2] == s@[at + 2]);
        if s[at + 2] != '{' {
            return None;
        }
        assert(here.skip(3) =~= s@.skip(at + 3));
        match read_hex_run(s, at + 3) {
            Some((code, taken)) => {
                if code <= 0xD7FF || (0xE000 <= code && code <= 0x10FFFF) {
                    Some((code, taken + 3))
                } else {
                    None
                }
            },
            None => None,
        }
    } else {
        let code: u32 = if e == 'n' {
            '\n' as u32
        } else if e == 'r' {
            '\r' as u32
        } else if e == 't' {
            '\t' as u32
        } else if e == '\\' {
            '\\' as u32
        } else if e == '0' {
            '\0' as u32
        } else if e == '\'' {
            '\'' as u32
        } else if e == '"' {
            '"' as u32
        } else {
            return None;
        };
        Some((code, 2))
    }
}

/// Whether `literal` is a literal that stands for `text`.
pub fn denotes(literal: &str, text: &str) -> (r: bool)
    ensures
        r == (denoted(literal@) == Some(text@)),
{
    let all = chars_of(literal);
    let want = chars_of(text);
    let len = all.len();
    if len < 2 || all[0] != '"' || all[len - 1] != '"' {
        return false;
    }
    let mut body: Vec<char> = Vec::new();
    let mut i: usize = 1;
    while i < len - 1
        invariant
            1 <= i <= len - 1,
            len == all@.len(),
            body@ == all@.subrange(1, i as int),
        decreases len - i,
    {
        body.push(all[i]);
        assert(all@.subrange(1, i + 1) =~= all@.subrange(1, i as int).push(all@[i as int]));
        i = i + 1;
    }
    let mut at: usize = 0;
    let mut k: usize = 0;
    assert(body@.skip(0) =~= body@);
    assert(want@.skip(0) =~= want@);
    assert(denoted(literal@) == unescaped(body@));
    while at < body.len()
        invariant
            at <= body@.len(),
            k <= want@.len(),
            want@ == text@,
            denoted(literal@) == unescaped(body@),
            (unescaped(body@) == Some(want@)) <==> (unescaped(body@.skip(at as int)) == Some(
                want@.skip(k as int),
            )),
        decreases body@.len() - at,
    {
        let ghost here = body@.skip(at as int);
        let ghost rest = want@.skip(k as int);
        match read_first(&body, at) {
            Some((code, taken)) => {
                assert(here.skip(taken as int) =~= body@.skip(at + taken));
                let ghost tail = unescaped(body@.skip(at + taken));
                if k >= want.len() {
                    assert(rest.len() == 0);
                    assert(tail is Some ==> unescaped(here).unwrap().len() > 0);
                    return false;
                }
                assert(rest =~= seq![want@[k as int]] + want@.skip(k + 1));
                proof {
                    lemma_char_code(want@[k as int]);
                }
                if want[k] as u32 != code {
                    assert(tail is Some ==> unescaped(here).unwrap()[0] != rest[0]);
                    return false;
                }
                assert(code as nat as char == want@[k as int]);
                assert(tail matches Some(t) ==> (unescaped(here).unwrap().skip(1) =~= t));
                assert(rest.skip(1) =~= want@.skip(k + 1));
                k = k + 1;
                at = at + taken;
            },
            None => {
                return false;
            },
        }
    }
    proof {
        assert(body@.skip(at as int).len() == 0);
        assert(unescaped(body@.skip(at as int)) == Some(Seq::<char>::empty()));
        if k == want@.len() {
            assert(want@.skip(k as int) =~= Seq::<char>::empty());
        } else {
            assert(want@.skip(k as int).len() > 0);
        }
    }
    k == want.len()
}

/// Appending a character to a string appends its form to the plain body.
proof fn lemma_plain_body_push(text: Seq<char>, c: char)
    ensures
        plain_body(text.push(c)) == plain_body(text) + plain_char(c),
    decreases text.len(),
{
    if text.len() == 0 {
        assert(text.push(c).skip(1) =~= Seq::<char>::empty());
        assert(plain_body(text.push(c)) =~= plain_char(c) + plain_body(Seq::<char>::empty()));
        assert(plain_body(text.push(c)) =~= plain_body(text) + plain_char(c));
    } else {
        assert(text.push(c).skip(1) =~= text.skip(1).push(c));
        lemma_plain_body_push(text.skip(1), c);
        assert(plain_body(text.push(c)) =~= plain_body(text) + plain_char(c));
    }
}

/// The plain body of a string stands for the string.
proof fn lemma_plain_body_reads_back(text: Seq<char>)
    ensures
        unescaped(plain_body(text)) == Some(text),
    decreases text.len(),
{
    if text.len() > 0 {
        let c = text[0];
        lemma_char_code(c);
        let form = plain_char(c);
        let body = plain_body(text);
        let rest = plain_body(text.skip(1));
        assert(body =~= form + rest);
        assert(body.len() > 0 && body[0] == form[0]);
        if form.len() == 2 {
            assert(body[1] == form[1]);
        }
        assert(first(body) == Some((c as nat, form.len())));
        assert(body.skip(form.len() as int) =~= rest);
        lemma_plain_body_reads_back(text.skip(1));
        assert(seq![c as nat as char] + text.skip(1) =~= text);
    }
}

/// The plain literal of a string stands for the string.
pub proof fn lemma_plain_reads_back(text: Seq<char>)
    ensures
        denoted(plain(text)) == Some(text),
{
    lemma_plain_body_reads_back(text);
    let literal = plain(text);
    assert(literal.subrange(1, literal.len() - 1) =~= plain_body(text));
}

/// Writes the plain literal of a string.
pub fn plain_literal(text: &str) -> (r: String)
    ensures
        r@ == plain(text@),
        denoted(r@) == Some(text@),
{
    let len = text.unicode_len();
    let mut out = String::new();
    out.push('"');
    let mut i: usize = 0;
    assert(plain_body(text@.take(0)) =~= Seq::<char>::empty());
    while i < len
        invariant
            i <= len,
            len == text@.len(),
            out@ == seq!['"'] + plain_body(text@.take(i as int)),
        decreases len - i,
    {
        let c = text.get_char(i);
        proof {
            lemma_plain_body_push(text@.take(i as int), c);
            assert(text@.take(i + 1) =~= text@.take(i as int).push(c));
        }
        let ghost before = out@;
        if c == '"' {
            out.push('\\');
            out.push('"');
        } else if c == '\\' {
            out.push('\\');
            out.push('\\');
        } else if c == '\r' {
            out.push('\\');
            out.push('r');
        } else {
            out.push(c);
        }
        assert(out@ =~= before + plain_char(c));
        i = i + 1;
    }
    assert(text@.take(len as int) =~= text@);
    out.push('"');
    proof {
        lemma_plain_reads_back(text@);
    }
    out
}

} // verus!
