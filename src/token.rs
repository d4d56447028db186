//! Lexical scalar tokens, as a document parser hands them over, the decoding of
//! a string literal's escapes, and the errors
//! that coercing them or an input value can raise.

use std::str::Chars;
use vstd::prelude::*;
use vstd::std_specs::iter::IteratorSpec;

verus! {

/// One literal of query text, tagged with its lexical category.
///
/// The text borrows the document buffer. For a string literal it is the raw
/// body between the quotes, escape sequences still written out (see
/// [`unescape`]); integers and floats keep their lexical form so that each
/// scalar can reparse them as it needs.
#[derive(Debug, Clone, Copy, PartialEq, Eq)]
pub enum ScalarToken<'a> {
    String(&'a str),
    Int(&'a str),
    Float(&'a str),
    Boolean(bool),
}

/// Why a token or an input value could not be read as a scalar's type.
#[derive(Debug, Clone, Copy, PartialEq, Eq)]
pub enum CoercionError<'a> {
    /// The token's lexical category is not one that the scalar accepts.
    UnexpectedToken(ScalarToken<'a>),
    /// The input value has the wrong shape, or its content does not validate.
    InvalidInputShape,
}


/// The value of a hexadecimal digit, either case.
pub open spec fn hex_value(c: char) -> Option<u32> {
    if '0' <= c && c <= '9' {
        Some((c as u32 - '0' as u32) as u32)
    } else if 'a' <= c && c <= 'f' {
        Some((c as u32 - 'a' as u32 + 10) as u32)
    } else if 'A' <= c && c <= 'F' {
        Some((c as u32 - 'A' as u32 + 10) as u32)
    } else {
        None
    }
}

/// The character that a one-letter escape `\c` stands for.
pub open spec fn escaped_char(c: char) -> Option<char> {
    if c == '"' {
        Some('"')
    } else if c == '\\' {
        Some('\\')
    } else if c == '/' {
        Some('/')
    } else if c == 'b' {
        Some('\u{8}')
    } else if c == 'f' {
        Some('\u{c}')
    } else if c == 'n' {
        Some('\n')
    } else if c == 'r' {
        Some('\r')
    } else if c == 't' {
        Some('\t')
    } else {
        None
    }
}

/// Whether `n` is the code point of some character: not a surrogate, and no
/// larger than the last plane.
pub open spec fn is_scalar_code(n: u32) -> bool {
    n < 0xD800 || (0xE000 <= n && n <= 0x10FFFF)
}

/// The code point of a character.
pub open spec fn code_of(c: char) -> u32 {
    c as u32
}

/// The character whose code point is `n`, where there is one.
pub open spec fn char_with_code(n: u32) -> char {
    choose|c: char| #[trigger] code_of(c) == n
}

/// The code point written by the four hex digits at the start of `s`.
pub open spec fn hex4(s: Seq<char>) -> Option<u32> {
    if s.len() < 4 {
        None
    } else {
        match (hex_value(s[0]), hex_value(s[1]), hex_value(s[2]), hex_value(s[3])) {
            (Some(a), Some(b), Some(c), Some(d)) => Some((a * 4096 + b * 256 + c * 16 + d) as u32),
            _ => None,
        }
    }
}

/// `head` in front of `tail`, where `tail` decoded.
pub open spec fn prepend(head: Seq<char>, tail: Option<Seq<char>>) -> Option<Seq<char>> {
    match tail {
        Some(t) => Some(head + t),
        None => None,
    }
}

/// The text that the raw body `s` of a string literal stands for.
///
/// Each `\"`, `\\`, `\/`, `\b`, `\f`, `\n`, `\r`, `\t` stands for its
/// character, and `\u` with four hex digits for the character with that code
/// point; every other character stands for itself. `None` where a backslash
/// starts no such escape, or the code point is a surrogate.
pub open spec fn unescaped(s: Seq<char>) -> Option<Seq<char>>
    decreases s.len(),
{
    if s.len() == 0 {
        Some(Seq::empty())
    } else if s[0] != '\\' {
        prepend(seq![s[0]], unescaped(s.drop_first()))
    } else if s.len() < 2 {
        None
    } else if escaped_char(s[1]) is Some {
        prepend(seq![escaped_char(s[1])->0], unescaped(s.skip(2)))
    } else if s[1] == 'u' {
        match hex4(s.skip(2)) {
            Some(n) => if is_scalar_code(n) {
                prepend(seq![char_with_code(n)], unescaped(s.skip(6)))
            } else {
                None
            },
            None => None,
        }
    } else {
        None
    }
}

/// A string literal body without a backslash stands for itself.
pub proof fn lemma_unescaped_plain(s: Seq<char>)
    requires
        forall|i: int| 0 <= i < s.len() ==> s[i] != '\\',
    ensures
        unescaped(s) == Some(s),
    decreases s.len(),
{
    if s.len() > 0 {
        let t = s.drop_first();
        assert forall|i: int| 0 <= i < t.len() implies t[i] != '\\' by {
            assert(t[i] == s[i + 1]);
        }
        lemma_unescaped_plain(t);
        assert(seq![s[0]] + t == s);
    }
}

/// Relies on `String::push`: appends one character.
#[verifier::external_body]
fn push_char(s: &mut String, c: char)
    ensures
        final(s)@ == old(s)@.push(c),
{
    s.push(c)
}

/// Relies on `char::from_u32`: the character with code point `n`, where `n` is
/// one. No two characters share a code point, so it is the one that
/// `char_with_code` picks.
#[verifier::external_body]
fn char_of_code(n: u32) -> (r: Option<char>)
    ensures
        r is Some <==> is_scalar_code(n),
        r matches Some(c) ==> c == char_with_code(n) && code_of(c) == n,
{
    char::from_u32(n)
}

/// The value of the next character of `it` as a hex digit, consuming it;
/// `None` where there is none or it is no hex digit.
fn next_hex_digit(it: &mut Chars) -> (r: Option<u32>)
    ensures
        (*old(it)).remaining().len() > 0 && hex_value((*old(it)).remaining()[0]) is Some ==> {
            &&& r == hex_value((*old(it)).remaining()[0])
            &&& (*final(it)).remaining() == (*old(it)).remaining().drop_first()
        },
        !((*old(it)).remaining().len() > 0 && hex_value((*old(it)).remaining()[0]) is Some) ==> r is None,
        r matches Some(d) ==> d < 16,
        r is Some && (*old(it)).decrease() is Some ==> {
            &&& (*final(it)).decrease() is Some
            &&& (*final(it)).decrease()->0 < (*old(it)).decrease()->0
        },
{
    broadcast use vstd::string::next_postcondition;

    match it.next() {
        Some(c) => {
            if '0' <= c && c <= '9' {
                Some(c as u32 - '0' as u32)
            } else if 'a' <= c && c <= 'f' {
                Some(c as u32 - 'a' as u32 + 10)
            } else if 'A' <= c && c <= 'F' {
                Some(c as u32 - 'A' as u32 + 10)
            } else {
                None
            }
        },
        None => None,
    }
}

/// Decodes the raw body of a string literal: the text of [`unescaped`], or
/// `None` where that is `None`.
pub fn unescape(s: &str) -> (r: Option<String>)
    ensures
        r is Some <==> unescaped(s@) is Some,
        r matches Some(o) ==> unescaped(s@) == Some(o@),
{
    broadcast use vstd::string::next_postcondition, vstd::string::axiom_spec_iter;

    let mut out = String::new();
    let mut it = s.chars();
    loop
        invariant
            unescaped(s@) == prepend(out@, unescaped(it.remaining())),
            it.decrease() is Some,
        decreases it.decrease()->0,
    {
        let ghost rest = it.remaining();
        let c = match it.next() {
            Some(c) => c,
            None => {
                assert(rest.len() == 0);
                assert(out@ + Seq::<char>::empty() == out@);
                return Some(out);
            },
        };
        if c != '\\' {
            let ghost tail = unescaped(rest.drop_first())->0;
            assert(out@.push(c) + tail == out@ + (seq![c] + tail));
            push_char(&mut out, c);
            continue;
        }
        let e = match it.next() {
            Some(e) => e,
            None => return None,
        };
        assert(rest.skip(2) == it.remaining());
        let d = if e == '"' {
            '"'
        } else if e == '\\' {
            '\\'
        } else if e == '/' {
            '/'
        } else if e == 'b' {
            '\u{8}'
        } else if e == 'f' {
            '\u{c}'
        } else if e == 'n' {
            '\n'
        } else if e == 'r' {
            '\r'
        } else if e == 't' {
            '\t'
        } else if e == 'u' {
            let a = match next_hex_digit(&mut it) {
                Some(x) => x,
                None => return None,
            };
            let b = match next_hex_digit(&mut it) {
                Some(x) => x,
                None => return None,
            };
            let c2 = match next_hex_digit(&mut it) {
                Some(x) => x,
                None => return None,
            };
            let d2 = match next_hex_digit(&mut it) {
                Some(x) => x,
                None => return None,
            };
            let n: u32 = a * 4096 + b * 256 + c2 * 16 + d2;
            assert(rest.skip(6) == it.remaining());
            assert(hex4(rest.skip(2)) == Some(n));
            match char_of_code(n) {
                Some(ch) => ch,
                None => return None,
            }
        } else {
            return None;
        };
        let ghost tail = unescaped(it.remaining())->0;
        assert(out@.push(d) + tail == out@ + (seq![d] + tail));
        push_char(&mut out, d);
    }
}

} // verus!
