//! Text for the terminal: decimal numbers, byte lists, escaped byte strings
//! and quoted text.

use vstd::prelude::*;

verus! {

/// `String::push`. Trusted: the character is added at the end.
pub assume_specification[ std::string::String::push ](text: &mut std::string::String, c: char)
    ensures
        final(text)@ == old(text)@.push(c),
;

/// What `Debug` formatting makes of a string slice: the text between double
/// quotes, with the characters that need it escaped.
pub uninterp spec fn debug_text(text: Seq<char>) -> Seq<char>;

/// `Debug` formatting of a string slice. Trusted: the result is a function of
/// the characters alone.
#[verifier::external_body]
pub(crate) fn format_debug(text: &str) -> (quoted: String)
    ensures
        quoted@ == debug_text(text@),
{
    format!("{:?}", text)
}

/// The digit for `d`, in bases up to sixteen, in lower case.
pub open spec fn digit(d: int) -> char
    recommends
        0 <= d < 16,
{
    if d < 10 {
        ((48 + d) as u8) as char
    } else {
        ((87 + d) as u8) as char
    }
}

/// The decimal numeral of `n`.
pub open spec fn decimal(n: nat) -> Seq<char>
    decreases n,
{
    if n < 10 {
        seq![digit(n as int)]
    } else {
        decimal(n / 10).push(digit((n % 10) as int))
    }
}

/// The decimal numerals of `bytes`, separated by a comma and a space.
pub open spec fn byte_items(bytes: Seq<u8>) -> Seq<char>
    decreases bytes.len(),
{
    if bytes.len() == 0 {
        Seq::empty()
    } else if bytes.len() == 1 {
        decimal(bytes[0] as nat)
    } else {
        byte_items(bytes.drop_last()) + seq![',', ' '] + decimal(bytes.last() as nat)
    }
}

/// `bytes` as a list of decimal numerals in square brackets.
pub open spec fn byte_list(bytes: Seq<u8>) -> Seq<char> {
    seq!['['] + byte_items(bytes) + seq![']']
}

/// The digit for `d`.
pub fn digit_char(d: u8) -> (c: char)
    requires
        d < 16,
    ensures
        c == digit(d as int),
{
    if d < 10 {
        (48 + d) as char
    } else {
        (87 + d) as char
    }
}

/// Adds the decimal numeral of `byte` to `text`.
pub fn push_decimal(text: &mut String, byte: u8)
    ensures
        final(text)@ == old(text)@ + decimal(byte as nat),
{
    reveal_with_fuel(decimal, 3);
    if byte >= 100 {
        text.push(digit_char(byte / 100));
    }
    if byte >= 10 {
        text.push(digit_char((byte / 10) % 10));
    }
    text.push(digit_char(byte % 10));
    assert(text@ =~= old(text)@ + decimal(byte as nat));
}

/// `bytes` as a list of decimal numerals in square brackets.
pub fn render_bytes(bytes: &[u8]) -> (text: String)
    ensures
        text@ == byte_list(bytes@),
{
    let mut text = String::new();
    text.push('[');
    let mut at: usize = 0;
    while at < bytes.len()
        invariant
            at <= bytes@.len(),
            text@ == seq!['['] + byte_items(bytes@.take(at as int)),
        decreases bytes@.len() - at,
    {
        let ghost before = text@;
        if at > 0 {
            text.push(',');
            text.push(' ');
        }
        push_decimal(&mut text, bytes[at]);
        proof {
            let next = bytes@.take(at + 1);
            assert(next.drop_last() =~= bytes@.take(at as int));
            assert(next.last() == bytes@[at as int]);
            if at == 0 {
                assert(byte_items(bytes@.take(0)) =~= Seq::<char>::empty());
                assert(text@ =~= seq!['['] + byte_items(next));
            } else {
                assert(text@ =~= seq!['['] + byte_items(next));
            }
        }
        at += 1;
    }
    assert(bytes@.take(at as int) =~= bytes@);
    text.push(']');
    text
}

/// One byte as escaped ASCII: the usual backslash escapes, printable
/// characters as they are, and a two-digit hexadecimal escape for the rest.
pub open spec fn escaped_byte(byte: u8) -> Seq<char> {
    if byte == 0x09 {
        seq!['\\', 't']
    } else if byte == 0x0D {
        seq!['\\', 'r']
    } else if byte == 0x0A {
        seq!['\\', 'n']
    } else if byte == 0x27 {
        seq!['\\', '\'']
    } else if byte == 0x22 {
        seq!['\\', '"']
    } else if byte == 0x5C {
        seq!['\\', '\\']
    } else if 0x20 <= byte <= 0x7E {
        seq![byte as char]
    } else {
        seq!['\\', 'x', digit(byte as int / 16), digit(byte as int % 16)]
    }
}

/// `bytes` as escaped ASCII.
pub open spec fn escaped_ascii(bytes: Seq<u8>) -> Seq<char>
    decreases bytes.len(),
{
    if bytes.len() == 0 {
        Seq::empty()
    } else {
        escaped_ascii(bytes.drop_last()) + escaped_byte(bytes.last())
    }
}

/// `bytes` as escaped ASCII between double quotes.
pub open spec fn quoted_ascii(bytes: Seq<u8>) -> Seq<char> {
    seq!['"'] + escaped_ascii(bytes) + seq!['"']
}

/// Adds `byte` to `text` as escaped ASCII.
pub fn push_escaped(text: &mut String, byte: u8)
    ensures
        final(text)@ == old(text)@ + escaped_byte(byte),
{
    if byte == 0x09 {
        text.push('\\');
        text.push('t');
    } else if byte == 0x0D {
        text.push('\\');
        text.push('r');
    } else if byte == 0x0A {
        text.push('\\');
        text.push('n');
    } else if byte == 0x27 {
        text.push('\\');
        text.push('\'');
    } else if byte == 0x22 {
        text.push('\\');
        text.push('"');
    } else if byte == 0x5C {
        text.push('\\');
        text.push('\\');
    } else if 0x20 <= byte && byte <= 0x7E {
        text.push(byte as char);
    } else {
        text.push('\\');
        text.push('x');
        text.push(digit_char(byte / 16));
        text.push(digit_char(byte % 16));
    }
    assert(text@ =~= old(text)@ + escaped_byte(byte));
}

/// `bytes` as escaped ASCII between double quotes.
pub fn render_quoted_ascii(bytes: &[u8]) -> (text: String)
    ensures
        text@ == quoted_ascii(bytes@),
{
    let mut text = String::new();
    text.push('"');
    let mut at: usize = 0;
    while at < bytes.len()
        invariant
            at <= bytes@.len(),
            text@ == seq!['"'] + escaped_ascii(bytes@.take(at as int)),
        decreases bytes@.len() - at,
    {
        push_escaped(&mut text, bytes[at]);
        proof {
            let next = bytes@.take(at + 1);
            assert(next.drop_last() =~= bytes@.take(at as int));
            assert(text@ =~= seq!['"'] + escaped_ascii(next));
        }
        at += 1;
    }
    assert(bytes@.take(at as int) =~= bytes@);
    text.push('"');
    text
}

} // verus!
