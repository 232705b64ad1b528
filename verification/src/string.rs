//! Byte strings that the storage engine hands out: error messages and
//! looked-up values.

use vstd::prelude::*;
use vstd::slice::slice_subrange;
use vstd::slice::slice_to_vec;
use vstd::utf8::decode_utf8;
use vstd::utf8::valid_utf8;
use std::borrow::Cow;
use crate::render::quoted_ascii;
use crate::render::render_quoted_ascii;
use crate::utf8::decode_strict;
use crate::utf8::strict_utf8;
use crate::utf8::string_from_utf8_lossy;
use crate::utf8::utf8_lossy;
use crate::utf8::Utf8Fault;

verus! {

/// The index of the first zero byte in `memory`, or its length if it holds
/// none.
pub open spec fn first_nul(memory: Seq<u8>) -> int
    decreases memory.len(),
{
    if memory.len() == 0 || memory[0] == 0 {
        0
    } else {
        1 + first_nul(memory.drop_first())
    }
}

/// The bytes of `memory` before its first zero byte.
pub open spec fn until_nul(memory: Seq<u8>) -> Seq<u8> {
    memory.take(first_nul(memory))
}

/// `first_nul` is the least index that holds a zero byte.
pub proof fn lemma_first_nul_is_index(memory: Seq<u8>, k: int)
    requires
        0 <= k <= memory.len(),
        forall|i: int| 0 <= i < k ==> #[trigger] memory[i] != 0,
        k < memory.len() ==> memory[k] == 0,
    ensures
        first_nul(memory) == k,
    decreases k,
{
    if k > 0 {
        let rest = memory.drop_first();
        assert forall|i: int| 0 <= i < k - 1 implies #[trigger] rest[i] != 0 by {
            assert(rest[i] == memory[i + 1]);
        }
        lemma_first_nul_is_index(rest, k - 1);
    }
}

/// A byte string of the engine, with no specified encoding. Its length is
/// kept beside its bytes, so it may hold zero bytes.
///
/// The memory that the engine hands out is given to the constructors as a
/// slice that starts where the engine's pointer points, or as `None` for a
/// null pointer.
#[derive(Debug, PartialEq, Eq)]
pub struct String {
    bytes: Vec<u8>,
}

impl View for String {
    type V = Seq<u8>;

    closed spec fn view(&self) -> Seq<u8> {
        self.bytes@
    }
}

impl String {
    /// Makes a string of the bytes before the first zero byte of `memory`.
    pub fn from_ptr(memory: Option<&[u8]>) -> (string: Self)
        requires
            memory is Some,
        ensures
            string@ == until_nul(memory->0@),
    {
        Self::terminated(memory.unwrap())
    }

    /// Makes a string of the bytes before the first zero byte of `memory`.
    fn terminated(memory: &[u8]) -> (string: Self)
        ensures
            string@ == until_nul(memory@),
    {
        let mut len: usize = 0;
        while len < memory.len() && memory[len] != 0
            invariant
                len <= memory@.len(),
                forall|i: int| 0 <= i < len ==> #[trigger] memory@[i] != 0,
            decreases memory@.len() - len,
        {
            len += 1;
        }
        proof {
            lemma_first_nul_is_index(memory@, len as int);
        }
        Self::with_len(memory, len)
    }

    /// Makes a string of the first `len` bytes of `memory`.
    fn with_len(memory: &[u8], len: usize) -> (string: Self)
        requires
            len <= memory@.len(),
        ensures
            string@ == memory@.take(len as int),
    {
        let bytes = slice_to_vec(slice_subrange(memory, 0, len));
        assert(bytes@ =~= memory@.take(len as int));
        String { bytes }
    }

    /// Makes a string of the bytes before the first zero byte of `memory`;
    /// `None` for a null pointer.
    pub fn try_from_ptr(memory: Option<&[u8]>) -> (string: Option<Self>)
        ensures
            string is Some <==> memory is Some,
            string matches Some(string) ==> string@ == until_nul(memory->0@),
    {
        match memory {
            None => None,
            Some(memory) => Some(Self::terminated(memory)),
        }
    }

    /// Makes a string of the first `len` bytes of `memory`, zero bytes
    /// included; `None` for a null pointer.
    pub fn try_from_ptr_len(memory: Option<&[u8]>, len: usize) -> (string: Option<Self>)
        requires
            memory matches Some(memory) ==> len <= memory@.len(),
        ensures
            string is Some <==> memory is Some,
            string matches Some(string) ==> string@ == memory->0@.take(len as int),
    {
        match memory {
            None => None,
            Some(memory) => Some(Self::with_len(memory, len)),
        }
    }

    /// The contents as a byte slice.
    pub fn as_bytes(&self) -> (bytes: &[u8])
        ensures
            bytes@ == self@,
    {
        self.bytes.as_slice()
    }

    /// The contents as text, if they are valid UTF-8.
    pub fn to_str(&self) -> (result: Result<&str, Utf8Fault>)
        ensures
            match result {
                Ok(text) => strict_utf8(self@) == Ok::<Seq<char>, Utf8Fault>(text@),
                Err(fault) => strict_utf8(self@) == Err::<Seq<char>, Utf8Fault>(fault),
            },
    {
        decode_strict(self.as_bytes())
    }

    /// The contents as text, with U+FFFD in place of what is not UTF-8.
    pub fn to_string_lossy(&self) -> (text: Cow<'_, str>)
        ensures
            text@ == utf8_lossy(self@),
            valid_utf8(self@) ==> text@ == decode_utf8(self@),
    {
        string_from_utf8_lossy(self.as_bytes())
    }

    /// The contents for a diagnostic: escaped ASCII between double quotes.
    pub fn debug(&self) -> (text: std::string::String)
        ensures
            text@ == quoted_ascii(self@),
    {
        render_quoted_ascii(self.as_bytes())
    }
}

} // verus!
