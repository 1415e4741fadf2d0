//! Fixed-capacity strings for session names and topics.
//!
//! The strings are `heapless::String`s, so that naming a session allocates
//! nothing. What such a string holds is known to the verifier only through
//! the functions of this module, each of which states what the `heapless`
//! source shows of the call it makes.
use core::fmt::Write;
use vstd::prelude::*;
use vstd::string::*;

verus! {

/// Capacity, in bytes, of a name or a topic.
pub const TEXT_CAPACITY: usize = 128;

/// Longest client identifier, in bytes, that an MQTT session accepts.
pub const CLIENT_ID_MAX: usize = 64;

/// Length, in bytes, of a hardware address written out.
pub const MAC_TEXT_LEN: usize = 17;

#[verifier::external_type_specification]
#[verifier::external_body]
pub struct ExHeaplessString<const N: usize>(heapless::String<N>);

/// The bytes that a string holds.
pub uninterp spec fn text_bytes(text: heapless::String<128>) -> Seq<u8>;

/// The lower-case hexadecimal digit for a value below sixteen.
pub open spec fn hex_digit(nibble: int) -> u8 {
    if nibble < 10 {
        (0x30 + nibble) as u8
    } else {
        (0x61 + nibble - 10) as u8
    }
}

/// A hardware address written out: each octet as two lower-case hexadecimal
/// digits, the octets separated by hyphens.
pub open spec fn mac_text(mac: Seq<u8>) -> Seq<u8> {
    Seq::new(
        MAC_TEXT_LEN as nat,
        |i: int|
            if i % 3 == 2 {
                0x2du8
            } else if i % 3 == 0 {
                hex_digit(mac[i / 3] as int / 16)
            } else {
                hex_digit(mac[i / 3] as int % 16)
            },
    )
}

/// `heapless::String::new`: a string that holds nothing.
#[verifier::external_body]
pub(crate) fn empty_text() -> (text: heapless::String<128>)
    ensures
        text_bytes(text) == Seq::<u8>::empty(),
{
    heapless::String::new()
}

/// `heapless::String::push_str`: appends the bytes of `part` if the result
/// fits the capacity, and otherwise changes nothing and fails.
#[verifier::external_body]
pub(crate) fn push_text(text: &mut heapless::String<128>, part: &str) -> (pushed: Result<(), ()>)
    ensures
        pushed is Ok <==> text_bytes(*old(text)).len() + part.spec_bytes().len() <= TEXT_CAPACITY,
        pushed is Ok ==> text_bytes(*final(text)) == text_bytes(*old(text)) + part.spec_bytes(),
        pushed is Err ==> text_bytes(*final(text)) == text_bytes(*old(text)),
{
    text.push_str(part)
}

/// `write!` of a `smoltcp::wire::EthernetAddress` into a `heapless::String`:
/// appends the address written out, and succeeds, if and only if the result
/// fits the capacity.
#[verifier::external_body]
pub(crate) fn push_mac(text: &mut heapless::String<128>, mac: [u8; 6]) -> (pushed: bool)
    ensures
        pushed <==> text_bytes(*old(text)).len() + MAC_TEXT_LEN <= TEXT_CAPACITY,
        pushed ==> text_bytes(*final(text)) == text_bytes(*old(text)) + mac_text(mac@),
{
    write!(text, "{}", smoltcp::wire::EthernetAddress(mac)).is_ok()
}

/// `heapless::String::as_str`: the string's bytes as a string slice.
#[verifier::external_body]
pub(crate) fn text_str(text: &heapless::String<128>) -> (slice: &str)
    ensures
        slice.spec_bytes() == text_bytes(*text),
{
    text.as_str()
}

} // verus!
