//! UTF-16: code units out of byte pairs, and their decoding to text.

use vstd::prelude::*;

verus! {

/// The order of the two bytes of a 16-bit code unit.
#[derive(Debug, Clone, Copy, PartialEq, Eq, Structural)]
pub enum ByteOrder {
    /// Least significant byte first.
    Little,
    /// Most significant byte first.
    Big,
}

/// The code unit whose bytes are `first` and `second`, in that order.
pub open spec fn unit_of(first: u8, second: u8, order: ByteOrder) -> u16 {
    match order {
        ByteOrder::Little => (first + 256 * second) as u16,
        ByteOrder::Big => (256 * first + second) as u16,
    }
}

/// The code units that an even number of bytes spell.
pub open spec fn units_of(bytes: Seq<u8>, order: ByteOrder) -> Seq<u16> {
    Seq::new(bytes.len() / 2, |i: int| unit_of(bytes[2 * i], bytes[2 * i + 1], order))
}

/// Whether `unit` is the first half of a surrogate pair.
pub open spec fn is_high_surrogate(unit: u16) -> bool {
    0xD800 <= unit <= 0xDBFF
}

/// Whether `unit` is the second half of a surrogate pair.
pub open spec fn is_low_surrogate(unit: u16) -> bool {
    0xDC00 <= unit <= 0xDFFF
}

/// Whether `units` begins with a surrogate pair.
pub open spec fn starts_with_pair(units: Seq<u16>) -> bool {
    units.len() >= 2 && is_high_surrogate(units[0]) && is_low_surrogate(units[1])
}

/// The scalar value that a surrogate pair encodes.
pub open spec fn pair_scalar(high: u16, low: u16) -> u32 {
    (0x10000 + (high - 0xD800) * 0x400 + (low - 0xDC00)) as u32
}

/// Whether `units` holds no unpaired surrogate.
pub open spec fn well_formed_utf16(units: Seq<u16>) -> bool
    decreases units.len(),
{
    if units.len() == 0 {
        true
    } else if starts_with_pair(units) {
        well_formed_utf16(units.skip(2))
    } else {
        !is_high_surrogate(units[0]) && !is_low_surrogate(units[0]) && well_formed_utf16(
            units.skip(1),
        )
    }
}

/// The text that well-formed `units` encode.
pub open spec fn decode_utf16(units: Seq<u16>) -> Seq<char>
    decreases units.len(),
{
    if units.len() == 0 {
        Seq::empty()
    } else if starts_with_pair(units) {
        seq![pair_scalar(units[0], units[1]) as char] + decode_utf16(units.skip(2))
    } else {
        seq![(units[0] as u32) as char] + decode_utf16(units.skip(1))
    }
}

/// `u16::from_ne_bytes` on the bytes 1 and 0. Trusted: the result is 1 where
/// the machine puts the least significant byte first, and 256 where it puts
/// it last.
#[verifier::external_body]
fn native_unit_of_one_zero() -> (unit: u16)
    ensures
        unit == 1 || unit == 256,
{
    u16::from_ne_bytes([1, 0])
}

/// `String::from_utf16`. Trusted: the call succeeds exactly where no
/// surrogate is unpaired, and then returns the decoded text.
#[verifier::external_body]
pub(crate) fn string_from_utf16(units: &[u16]) -> (text: Option<String>)
    ensures
        text is Some <==> well_formed_utf16(units@),
        text matches Some(text) ==> text@ == decode_utf16(units@),
{
    String::from_utf16(units).ok()
}

/// The byte order in which the bytes 1 and 0 spell `unit`: least significant
/// byte first where they spell 1, most significant byte first otherwise.
pub open spec fn order_spelling(unit: u16) -> ByteOrder {
    if unit == 1 {
        ByteOrder::Little
    } else {
        ByteOrder::Big
    }
}

/// The byte order of a machine on which the bytes 1 and 0 spell `unit`.
pub fn byte_order_of(unit: u16) -> (order: ByteOrder)
    ensures
        order == order_spelling(unit),
        unit_of(1, 0, order) == unit <==> unit == 1 || unit == 256,
{
    if unit == 1 {
        ByteOrder::Little
    } else {
        ByteOrder::Big
    }
}

/// The byte order of the machine that runs this code.
pub fn native_byte_order() -> ByteOrder {
    byte_order_of(native_unit_of_one_zero())
}

/// The code unit whose bytes are `first` and `second`, in that order.
pub fn unit_from_bytes(first: u8, second: u8, order: ByteOrder) -> (unit: u16)
    ensures
        unit == unit_of(first, second, order),
{
    match order {
        ByteOrder::Little => first as u16 + 256 * (second as u16),
        ByteOrder::Big => 256 * (first as u16) + second as u16,
    }
}

/// The code units that `bytes` spell, pair by pair.
pub fn units_from_bytes(bytes: &[u8], order: ByteOrder) -> (units: Vec<u16>)
    requires
        bytes@.len() % 2 == 0,
    ensures
        units@ == units_of(bytes@, order),
{
    let mut units: Vec<u16> = Vec::new();
    let count: usize = bytes.len() / 2;
    let mut at: usize = 0;
    while at < count
        invariant
            count == bytes@.len() / 2,
            bytes@.len() % 2 == 0,
            bytes@.len() <= usize::MAX,
            at <= count,
            units@.len() == at,
            forall|i: int| 0 <= i < at ==> #[trigger] units@[i] == unit_of(
                bytes@[2 * i],
                bytes@[2 * i + 1],
                order,
            ),
        decreases count - at,
    {
        units.push(unit_from_bytes(bytes[2 * at], bytes[2 * at + 1], order));
        at += 1;
    }
    assert(units@ =~= units_of(bytes@, order));
    units
}

} // verus!
