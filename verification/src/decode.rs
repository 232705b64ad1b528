//! The decode pipeline: stored bytes and a selected format give a value to
//! display, or the reason why the bytes are not in that format.

use vstd::prelude::*;
use vstd::slice::slice_subrange;
use vstd::slice::slice_to_vec;
use vstd::utf8::decode_utf8_encode_utf8;
use vstd::utf8::encode_utf8;
use vstd::utf8::valid_utf8;
use crate::format::KeyFormat;
use crate::format::ValueFormat;
use crate::render::byte_list;
use crate::render::debug_text;
use crate::render::decimal;
use crate::render::format_debug;
use crate::render::push_decimal;
use crate::render::render_bytes;
use crate::utf16::decode_utf16;
use crate::utf16::native_byte_order;
use crate::utf16::string_from_utf16;
use crate::utf16::units_from_bytes;
use crate::utf16::units_of;
use crate::utf16::well_formed_utf16;
use crate::utf16::ByteOrder;
use crate::utf8::decode_strict;
use crate::utf8::strict_utf8;
use crate::utf8::Utf8Fault;

verus! {

/// Why bytes are not in the selected format.
#[derive(Debug, Clone, Copy, PartialEq, Eq)]
pub enum DecodeError {
    /// The bytes are not UTF-8.
    InvalidUtf8(Utf8Fault),
    /// The code units hold an unpaired surrogate.
    InvalidUtf16,
    /// The type tag is neither 0 nor 1.
    UnknownTag(u8),
    /// The value has no type tag, or its UTF-16 payload ends in half a code
    /// unit.
    MalformedValue,
}

/// A decoded key or value.
#[derive(Debug, Clone, PartialEq, Eq)]
pub enum Decoded {
    /// The bytes as they are.
    Bytes(Vec<u8>),
    /// The text that the bytes encode.
    Text(String),
}

/// The mathematical value of a [`Decoded`].
pub enum DecodedView {
    Bytes(Seq<u8>),
    Text(Seq<char>),
}

impl View for Decoded {
    type V = DecodedView;

    open spec fn view(&self) -> DecodedView {
        match self {
            Decoded::Bytes(bytes) => DecodedView::Bytes(bytes@),
            Decoded::Text(text) => DecodedView::Text(text@),
        }
    }
}

/// The mathematical value of a decoding result.
pub open spec fn decoding_view(result: Result<Decoded, DecodeError>) -> Result<
    DecodedView,
    DecodeError,
> {
    match result {
        Ok(decoded) => Ok(decoded@),
        Err(error) => Err(error),
    }
}

/// The decoding of UTF-8 text.
pub open spec fn utf8_decoding(bytes: Seq<u8>) -> Result<DecodedView, DecodeError> {
    match strict_utf8(bytes) {
        Ok(text) => Ok(DecodedView::Text(text)),
        Err(fault) => Err(DecodeError::InvalidUtf8(fault)),
    }
}

/// The decoding of UTF-16 text whose code units lie in `order`.
pub open spec fn utf16_decoding(payload: Seq<u8>, order: ByteOrder) -> Result<
    DecodedView,
    DecodeError,
> {
    if payload.len() % 2 != 0 {
        Err(DecodeError::MalformedValue)
    } else if well_formed_utf16(units_of(payload, order)) {
        Ok(DecodedView::Text(decode_utf16(units_of(payload, order))))
    } else {
        Err(DecodeError::InvalidUtf16)
    }
}

/// The decoding of a tagged value: tag 0 announces UTF-16, tag 1 UTF-8.
pub open spec fn tagged_decoding(bytes: Seq<u8>, order: ByteOrder) -> Result<
    DecodedView,
    DecodeError,
> {
    if bytes.len() == 0 {
        Err(DecodeError::MalformedValue)
    } else if bytes[0] == 0 {
        utf16_decoding(bytes.skip(1), order)
    } else if bytes[0] == 1 {
        utf8_decoding(bytes.skip(1))
    } else {
        Err(DecodeError::UnknownTag(bytes[0]))
    }
}

/// The decoding of a key in `format`.
pub open spec fn key_decoding(format: KeyFormat, bytes: Seq<u8>) -> Result<
    DecodedView,
    DecodeError,
> {
    match format {
        KeyFormat::Bytes => Ok(DecodedView::Bytes(bytes)),
        KeyFormat::Utf8 => utf8_decoding(bytes),
    }
}

/// The decoding of a value in `format`, on a machine whose byte order is
/// `order`.
pub open spec fn value_decoding(format: ValueFormat, bytes: Seq<u8>, order: ByteOrder) -> Result<
    DecodedView,
    DecodeError,
> {
    match format {
        ValueFormat::Bytes => Ok(DecodedView::Bytes(bytes)),
        ValueFormat::ChromeLocalStorage => tagged_decoding(bytes, order),
    }
}

/// Decodes UTF-8 text.
pub fn decode_utf8_text(bytes: &[u8]) -> (result: Result<Decoded, DecodeError>)
    ensures
        decoding_view(result) == utf8_decoding(bytes@),
{
    match decode_strict(bytes) {
        Ok(text) => Ok(Decoded::Text(text.to_owned())),
        Err(fault) => Err(DecodeError::InvalidUtf8(fault)),
    }
}

/// Decodes UTF-16 text whose code units lie in `order`.
pub fn decode_utf16_text(payload: &[u8], order: ByteOrder) -> (result: Result<
    Decoded,
    DecodeError,
>)
    ensures
        decoding_view(result) == utf16_decoding(payload@, order),
{
    if payload.len() % 2 != 0 {
        return Err(DecodeError::MalformedValue);
    }
    let units = units_from_bytes(payload, order);
    match string_from_utf16(units.as_slice()) {
        Some(text) => Ok(Decoded::Text(text)),
        None => Err(DecodeError::InvalidUtf16),
    }
}

/// Decodes a tagged value; `order` is the byte order of UTF-16 code units.
pub fn decode_tagged(bytes: &[u8], order: ByteOrder) -> (result: Result<Decoded, DecodeError>)
    ensures
        decoding_view(result) == tagged_decoding(bytes@, order),
{
    if bytes.len() == 0 {
        return Err(DecodeError::MalformedValue);
    }
    let tag: u8 = bytes[0];
    let payload = slice_subrange(bytes, 1, bytes.len());
    assert(payload@ =~= bytes@.skip(1));
    if tag == 0 {
        decode_utf16_text(payload, order)
    } else if tag == 1 {
        decode_utf8_text(payload)
    } else {
        Err(DecodeError::UnknownTag(tag))
    }
}

/// Decodes a key in `format`.
pub fn decode_key(format: KeyFormat, bytes: &[u8]) -> (result: Result<Decoded, DecodeError>)
    ensures
        decoding_view(result) == key_decoding(format, bytes@),
{
    match format {
        KeyFormat::Bytes => Ok(Decoded::Bytes(slice_to_vec(bytes))),
        KeyFormat::Utf8 => decode_utf8_text(bytes),
    }
}

/// Decodes a value in `format`, with UTF-16 code units in `order`.
pub fn decode_value_in(format: ValueFormat, bytes: &[u8], order: ByteOrder) -> (result: Result<
    Decoded,
    DecodeError,
>)
    ensures
        decoding_view(result) == value_decoding(format, bytes@, order),
{
    match format {
        ValueFormat::Bytes => Ok(Decoded::Bytes(slice_to_vec(bytes))),
        ValueFormat::ChromeLocalStorage => decode_tagged(bytes, order),
    }
}

/// Decodes a value in `format`, with UTF-16 code units in the byte order of
/// this machine.
pub fn decode_value(format: ValueFormat, bytes: &[u8]) -> (result: Result<Decoded, DecodeError>)
    ensures
        decoding_view(result) == value_decoding(format, bytes@, ByteOrder::Little)
            || decoding_view(result) == value_decoding(format, bytes@, ByteOrder::Big),
{
    decode_value_in(format, bytes, native_byte_order())
}

/// How a decoded value is displayed: bytes as a list of numbers, text
/// between quotes.
pub open spec fn decoded_text(decoded: DecodedView) -> Seq<char> {
    match decoded {
        DecodedView::Bytes(bytes) => byte_list(bytes),
        DecodedView::Text(text) => debug_text(text),
    }
}

/// What [`DecodeError::message`] says of an error.
pub open spec fn decode_error_text(error: DecodeError) -> Seq<char> {
    match error {
        DecodeError::InvalidUtf8(_) => "invalid utf8"@,
        DecodeError::InvalidUtf16 => "invalid utf16"@,
        DecodeError::UnknownTag(tag) => "Invalid type byte "@ + decimal(tag as nat),
        DecodeError::MalformedValue => "malformed value"@,
    }
}

/// How the outcome of a decoding is displayed.
pub open spec fn shown(result: Result<DecodedView, DecodeError>) -> Seq<char> {
    match result {
        Ok(decoded) => decoded_text(decoded),
        Err(error) => decode_error_text(error),
    }
}

impl Decoded {
    /// The text to display for this value.
    pub fn render(&self) -> (text: String)
        ensures
            text@ == decoded_text(self@),
    {
        match self {
            Decoded::Bytes(bytes) => render_bytes(bytes.as_slice()),
            Decoded::Text(text) => format_debug(text.as_str()),
        }
    }
}

impl DecodeError {
    /// The text that tells the user what is wrong with the bytes.
    pub fn message(&self) -> (text: String)
        ensures
            text@ == decode_error_text(*self),
    {
        match self {
            DecodeError::InvalidUtf8(_) => String::from_str("invalid utf8"),
            DecodeError::InvalidUtf16 => String::from_str("invalid utf16"),
            DecodeError::UnknownTag(tag) => {
                let mut text = String::from_str("Invalid type byte ");
                push_decimal(&mut text, *tag);
                text
            },
            DecodeError::MalformedValue => String::from_str("malformed value"),
        }
    }
}

/// The text to display for the outcome of a decoding.
pub fn show(result: &Result<Decoded, DecodeError>) -> (text: String)
    ensures
        text@ == shown(decoding_view(*result)),
{
    match result {
        Ok(decoded) => decoded.render(),
        Err(error) => error.message(),
    }
}

/// A key shown as bytes is decoded whatever it holds, to those same bytes.
pub proof fn lemma_bytes_key_always_decodes(bytes: Seq<u8>)
    ensures
        key_decoding(KeyFormat::Bytes, bytes) == Ok::<DecodedView, DecodeError>(
            DecodedView::Bytes(bytes),
        ),
{
}

/// A key that is valid UTF-8 decodes to text whose UTF-8 encoding is the key.
pub proof fn lemma_utf8_key_round_trips(bytes: Seq<u8>)
    requires
        valid_utf8(bytes),
    ensures
        key_decoding(KeyFormat::Utf8, bytes) matches Ok(DecodedView::Text(text)) && encode_utf8(
            text,
        ) == bytes,
{
    decode_utf8_encode_utf8(bytes);
}

/// A key that is not valid UTF-8 is refused as such.
pub proof fn lemma_utf8_key_rejects_invalid(bytes: Seq<u8>)
    requires
        !valid_utf8(bytes),
    ensures
        key_decoding(KeyFormat::Utf8, bytes) matches Err(DecodeError::InvalidUtf8(_)),
{
}

/// Tag 0 before an even number of bytes that hold no unpaired surrogate
/// decodes to the UTF-16 text of those bytes.
pub proof fn lemma_tagged_utf16_decodes(payload: Seq<u8>, order: ByteOrder)
    requires
        payload.len() % 2 == 0,
        well_formed_utf16(units_of(payload, order)),
    ensures
        value_decoding(ValueFormat::ChromeLocalStorage, seq![0u8] + payload, order) == Ok::<
            DecodedView,
            DecodeError,
        >(DecodedView::Text(decode_utf16(units_of(payload, order)))),
{
    assert((seq![0u8] + payload).skip(1) =~= payload);
}

} // verus!
