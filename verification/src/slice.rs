//! An owned copy of a C character slice.

use vstd::prelude::*;
use vstd::utf8::decode_utf8;
use vstd::utf8::valid_utf8;
use std::borrow::Cow;
use crate::utf8::decode_strict;
use crate::utf8::strict_utf8;
use crate::utf8::string_from_utf8_lossy;
use crate::utf8::utf8_lossy;
use crate::utf8::Utf8Fault;

verus! {

/// The byte with the bit pattern of the C character `c`.
pub open spec fn byte_of_char(c: i8) -> u8 {
    if c >= 0 {
        c as u8
    } else {
        (c + 256) as u8
    }
}

/// The bytes that C characters stand for: each keeps its bit pattern.
pub open spec fn bytes_of(chars: Seq<i8>) -> Seq<u8> {
    Seq::new(chars.len(), |i: int| byte_of_char(chars[i]))
}

/// The byte with the bit pattern of `c`.
pub fn byte_of(c: i8) -> (byte: u8)
    ensures
        byte == byte_of_char(c),
{
    if c >= 0 {
        c as u8
    } else {
        (c as i16 + 256) as u8
    }
}

/// An owned copy of a slice of C characters, readable as characters and as
/// bytes.
#[derive(Debug)]
pub struct OwnedSlice {
    chars: Vec<i8>,
    bytes: Vec<u8>,
}

impl View for OwnedSlice {
    type V = Seq<i8>;

    closed spec fn view(&self) -> Seq<i8> {
        self.chars@
    }
}

impl OwnedSlice {
    #[verifier::type_invariant]
    closed spec fn well_formed(&self) -> bool {
        self.bytes@ == bytes_of(self.chars@)
    }

    /// Copies `a`.
    pub fn from_slice(a: &[i8]) -> (slice: Self)
        ensures
            slice@ == a@,
    {
        let mut chars: Vec<i8> = Vec::new();
        let mut bytes: Vec<u8> = Vec::new();
        let mut at: usize = 0;
        while at < a.len()
            invariant
                at <= a@.len(),
                chars@ == a@.take(at as int),
                bytes@ == bytes_of(chars@),
            decreases a@.len() - at,
        {
            chars.push(a[at]);
            bytes.push(byte_of(a[at]));
            assert(chars@ =~= a@.take(at + 1));
            assert(bytes@ =~= bytes_of(chars@));
            at += 1;
        }
        assert(a@.take(at as int) =~= a@);
        OwnedSlice { chars, bytes }
    }

    /// The characters.
    pub fn as_slice(&self) -> (chars: &[i8])
        ensures
            chars@ == self@,
    {
        self.chars.as_slice()
    }

    /// The characters as bytes.
    pub fn as_bytes(&self) -> (bytes: &[u8])
        ensures
            bytes@ == bytes_of(self@),
    {
        proof {
            use_type_invariant(self);
        }
        self.bytes.as_slice()
    }

    /// The contents as text, if they are valid UTF-8.
    pub fn to_str(&self) -> (result: Result<&str, Utf8Fault>)
        ensures
            match result {
                Ok(text) => strict_utf8(bytes_of(self@)) == Ok::<Seq<char>, Utf8Fault>(text@),
                Err(fault) => strict_utf8(bytes_of(self@)) == Err::<Seq<char>, Utf8Fault>(fault),
            },
    {
        decode_strict(self.as_bytes())
    }

    /// The contents as text, with U+FFFD in place of what is not UTF-8.
    pub fn to_string_lossy(&self) -> (text: Cow<'_, str>)
        ensures
            text@ == utf8_lossy(bytes_of(self@)),
            valid_utf8(bytes_of(self@)) ==> text@ == decode_utf8(bytes_of(self@)),
    {
        string_from_utf8_lossy(self.as_bytes())
    }
}

} // verus!
