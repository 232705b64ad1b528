//! Strict and lossy UTF-8 decoding of byte strings.

use vstd::prelude::*;
use vstd::utf8::decode_utf8;
use vstd::utf8::valid_utf8;
use std::borrow::Cow;

verus! {

/// Where strict UTF-8 decoding stopped, and on what.
#[derive(Debug, Clone, Copy, PartialEq, Eq)]
pub struct Utf8Fault {
    /// The length of the longest prefix that is valid UTF-8.
    pub valid_up_to: usize,
    /// The length of the invalid sequence that follows that prefix, or `None`
    /// where the input ends inside a character.
    pub error_len: Option<usize>,
}

/// Whether `n` is the length of the longest prefix of `bytes` that is valid
/// UTF-8.
pub open spec fn is_longest_valid_prefix(bytes: Seq<u8>, n: int) -> bool {
    &&& 0 <= n <= bytes.len()
    &&& valid_utf8(bytes.take(n))
    &&& forall|m: int| n < m <= bytes.len() ==> !valid_utf8(#[trigger] bytes.take(m))
}

/// The length of the longest prefix of `bytes` that is valid UTF-8.
pub open spec fn longest_valid_prefix(bytes: Seq<u8>) -> int {
    choose|n: int| is_longest_valid_prefix(bytes, n)
}

/// The length that the standard library reports for the invalid sequence
/// after the longest valid prefix of `bytes`; `None` where `bytes` ends
/// inside a character.
pub uninterp spec fn utf8_error_len(bytes: Seq<u8>) -> Option<usize>;

/// The text that the standard library's lossy decoder makes of `bytes`: each
/// invalid sequence becomes U+FFFD.
pub uninterp spec fn utf8_lossy(bytes: Seq<u8>) -> Seq<char>;

/// What a fault found in `bytes` has to say.
pub open spec fn fault_of(bytes: Seq<u8>) -> Utf8Fault {
    Utf8Fault {
        valid_up_to: longest_valid_prefix(bytes) as usize,
        error_len: utf8_error_len(bytes),
    }
}

/// What strict decoding makes of `bytes`.
pub open spec fn strict_utf8(bytes: Seq<u8>) -> Result<Seq<char>, Utf8Fault> {
    if valid_utf8(bytes) {
        Ok(decode_utf8(bytes))
    } else {
        Err(fault_of(bytes))
    }
}

/// At most one length is that of the longest valid prefix.
pub proof fn lemma_longest_valid_prefix_unique(bytes: Seq<u8>, n: int)
    requires
        is_longest_valid_prefix(bytes, n),
    ensures
        longest_valid_prefix(bytes) == n,
{
    let m = longest_valid_prefix(bytes);
    assert(is_longest_valid_prefix(bytes, m));
    if m < n {
        assert(!valid_utf8(bytes.take(n)));
    } else if n < m {
        assert(!valid_utf8(bytes.take(m)));
    }
}

/// `std::str::from_utf8`. Trusted: the call succeeds exactly on valid UTF-8
/// and then returns the decoded text; a failure reports the length of the
/// longest valid prefix, and the length of the offending sequence, which is
/// at least one byte within the input, or `None` with one to three bytes left.
#[verifier::external_body]
fn str_from_utf8<'a>(bytes: &'a [u8]) -> (result: Result<&'a str, Utf8Fault>)
    ensures
        result is Ok <==> valid_utf8(bytes@),
        result matches Ok(text) ==> text@ == decode_utf8(bytes@),
        result matches Err(fault) ==> {
            &&& is_longest_valid_prefix(bytes@, fault.valid_up_to as int)
            &&& fault.error_len == utf8_error_len(bytes@)
            &&& match fault.error_len {
                Some(len) => 1 <= len && fault.valid_up_to + len <= bytes@.len(),
                None => 1 <= bytes@.len() - fault.valid_up_to <= 3,
            }
        },
{
    match std::str::from_utf8(bytes) {
        Ok(text) => Ok(text),
        Err(error) => Err(
            Utf8Fault { valid_up_to: error.valid_up_to(), error_len: error.error_len() },
        ),
    }
}

/// `String::from_utf8_lossy`. Trusted: the result is the lossy decoding of
/// the bytes, which is their strict decoding where they are valid UTF-8.
#[verifier::external_body]
pub(crate) fn string_from_utf8_lossy<'a>(bytes: &'a [u8]) -> (text: Cow<'a, str>)
    ensures
        text@ == utf8_lossy(bytes@),
        valid_utf8(bytes@) ==> text@ == decode_utf8(bytes@),
{
    String::from_utf8_lossy(bytes)
}

/// Decodes `bytes` as UTF-8, strictly: nothing is substituted.
pub fn decode_strict<'a>(bytes: &'a [u8]) -> (result: Result<&'a str, Utf8Fault>)
    ensures
        match result {
            Ok(text) => strict_utf8(bytes@) == Ok::<Seq<char>, Utf8Fault>(text@),
            Err(fault) => strict_utf8(bytes@) == Err::<Seq<char>, Utf8Fault>(fault),
        },
        result matches Err(fault) ==> {
            &&& is_longest_valid_prefix(bytes@, fault.valid_up_to as int)
            &&& match fault.error_len {
                Some(len) => 1 <= len && fault.valid_up_to + len <= bytes@.len(),
                None => 1 <= bytes@.len() - fault.valid_up_to <= 3,
            }
        },
{
    let result = str_from_utf8(bytes);
    proof {
        if let Err(fault) = result {
            lemma_longest_valid_prefix_unique(bytes@, fault.valid_up_to as int);
        }
    }
    result
}

} // verus!
