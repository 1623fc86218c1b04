//! The structured encoding of the encrypted protocol: integers, byte strings
//! and lists, each behind a length prefix.
//!
//! Encoding and decoding are the work of the `rlp` crate. This module gives
//! each result a name, so that the layout of a message can be stated over
//! the items that the crate finds in it.

use vstd::prelude::*;

verus! {

/// The item at position `index` of the list encoded in `list`, as `Rlp::at`
/// finds it; `None` where `Rlp::at` fails.
pub uninterp spec fn rlp_item_at(list: Seq<u8>, index: usize) -> Option<Seq<u8>>;

/// The number of items of the list encoded in `list`, as `Rlp::item_count`
/// counts them; `None` where it fails.
pub uninterp spec fn rlp_item_count(list: Seq<u8>) -> Option<usize>;

/// The integer encoded in `item`, as `Rlp::as_val::<u64>` reads it; `None`
/// where it fails.
pub uninterp spec fn rlp_u64(item: Seq<u8>) -> Option<u64>;

/// The integer encoded in `item`, as `Rlp::as_val::<u16>` reads it; `None`
/// where it fails.
pub uninterp spec fn rlp_u16(item: Seq<u8>) -> Option<u16>;

/// The text encoded in `item`, as `Rlp::as_val::<String>` reads it; `None`
/// where it fails.
pub uninterp spec fn rlp_text(item: Seq<u8>) -> Option<Seq<char>>;

/// The byte string encoded in `item`, as `Rlp::as_val::<Vec<u8>>` reads it;
/// `None` where it fails.
pub uninterp spec fn rlp_bytes(item: Seq<u8>) -> Option<Seq<u8>>;

/// The encoding of the integer `value`, as `rlp::encode` writes it.
pub uninterp spec fn rlp_of_u64(value: u64) -> Seq<u8>;

/// The encoding of the byte string `bytes`, as `rlp::encode` writes it.
pub uninterp spec fn rlp_of_bytes(bytes: Seq<u8>) -> Seq<u8>;

/// The encoding of the list whose items, already encoded and laid end to
/// end, are `payload`: what `RlpStream` puts before and around them.
pub uninterp spec fn rlp_of_list(payload: Seq<u8>) -> Seq<u8>;

/// What one byte alone decodes to as an integer: itself from 1 to 0x7f, and
/// zero for 0x80, the empty string. Every other byte is no integer.
pub open spec fn single_byte_value(byte: u8) -> Option<u8> {
    if 0 < byte < 0x80 {
        Some(byte)
    } else if byte == 0x80 {
        Some(0u8)
    } else {
        None
    }
}

/// The byte that encodes an integer below 0x80: 0x80 for zero, else the
/// integer itself.
pub open spec fn single_byte_of(value: u8) -> u8
    recommends
        value < 0x80,
{
    if value == 0 {
        0x80u8
    } else {
        value
    }
}

/// An integer below 0x80 is read back from the byte that encodes it.
pub proof fn lemma_single_byte_round_trip(value: u8)
    requires
        value < 0x80,
    ensures
        single_byte_value(single_byte_of(value)) == Some(value),
{
}

/// Calls `rlp::decode::<u8>` on the one byte.
///
/// Trusted: a byte from 1 to 0x7f is its own value; 0x80 is the empty
/// string, which is zero; the byte 0 is refused as a longer form of zero,
/// and a byte above 0x80 announces more bytes than there are.
#[verifier::external_body]
pub(crate) fn decode_single_byte(byte: u8) -> (value: Option<u8>)
    ensures
        value == single_byte_value(byte),
{
    rlp::decode::<u8>(&[byte]).ok()
}

/// Calls `Rlp::at` and `Rlp::as_raw`.
///
/// Trusted: the bytes of the item depend on `list` and `index` alone.
#[verifier::external_body]
pub(crate) fn item_at(list: &[u8], index: usize) -> (item: Option<Vec<u8>>)
    ensures
        item is Some <==> rlp_item_at(list@, index) is Some,
        item is Some ==> item->Some_0@ == rlp_item_at(list@, index)->Some_0,
{
    match rlp::Rlp::new(list).at(index) {
        Ok(item) => Some(item.as_raw().to_vec()),
        Err(_) => None,
    }
}

/// Calls `Rlp::item_count`.
///
/// Trusted: the count depends on `list` alone.
#[verifier::external_body]
pub(crate) fn item_count(list: &[u8]) -> (count: Option<usize>)
    ensures
        count == rlp_item_count(list@),
{
    rlp::Rlp::new(list).item_count().ok()
}

/// Calls `Rlp::as_val::<u64>`.
///
/// Trusted: the integer depends on `item` alone.
#[verifier::external_body]
pub(crate) fn as_u64(item: &[u8]) -> (value: Option<u64>)
    ensures
        value == rlp_u64(item@),
{
    rlp::Rlp::new(item).as_val::<u64>().ok()
}

/// Calls `Rlp::as_val::<u16>`.
///
/// Trusted: the integer depends on `item` alone.
#[verifier::external_body]
pub(crate) fn as_u16(item: &[u8]) -> (value: Option<u16>)
    ensures
        value == rlp_u16(item@),
{
    rlp::Rlp::new(item).as_val::<u16>().ok()
}

/// Calls `Rlp::as_val::<String>`.
///
/// Trusted: the text depends on `item` alone.
#[verifier::external_body]
pub(crate) fn as_text(item: &[u8]) -> (text: Option<String>)
    ensures
        text is Some <==> rlp_text(item@) is Some,
        text is Some ==> text->Some_0@ == rlp_text(item@)->Some_0,
{
    rlp::Rlp::new(item).as_val::<String>().ok()
}

/// Calls `Rlp::as_val::<Vec<u8>>`.
///
/// Trusted: the byte string depends on `item` alone.
#[verifier::external_body]
pub(crate) fn as_bytes(item: &[u8]) -> (bytes: Option<Vec<u8>>)
    ensures
        bytes is Some <==> rlp_bytes(item@) is Some,
        bytes is Some ==> bytes->Some_0@ == rlp_bytes(item@)->Some_0,
{
    rlp::Rlp::new(item).as_val::<Vec<u8>>().ok()
}

/// Calls `rlp::encode` on a `u64`.
///
/// Trusted: the bytes depend on `value` alone.
#[verifier::external_body]
pub(crate) fn encode_u64(value: u64) -> (out: Vec<u8>)
    ensures
        out@ == rlp_of_u64(value),
{
    rlp::encode(&value).to_vec()
}

/// Calls `rlp::encode` on a byte string.
///
/// Trusted: the bytes depend on `bytes` alone.
#[verifier::external_body]
pub(crate) fn encode_bytes(bytes: &[u8]) -> (out: Vec<u8>)
    ensures
        out@ == rlp_of_bytes(bytes@),
{
    rlp::encode(&bytes).to_vec()
}

/// Opens a list on an `RlpStream`, appends `payload` with `append_raw`, and
/// closes it.
///
/// Trusted: the bytes depend on `payload` alone.
#[verifier::external_body]
pub(crate) fn encode_list(payload: &[u8]) -> (out: Vec<u8>)
    ensures
        out@ == rlp_of_list(payload@),
{
    let mut stream = rlp::RlpStream::new();
    stream.begin_unbounded_list();
    stream.append_raw(payload, 1);
    stream.finalize_unbounded_list();
    stream.out().to_vec()
}

/// The unsigned integer at position `index` of a list, if it fits in `usize`.
pub open spec fn uint_at(list: Seq<u8>, index: usize) -> Option<usize> {
    match rlp_item_at(list, index) {
        Some(item) => match rlp_u64(item) {
            Some(value) => if value <= usize::MAX {
                Some(value as usize)
            } else {
                None
            },
            None => None,
        },
        None => None,
    }
}

/// The text at position `index` of a list.
pub open spec fn text_at(list: Seq<u8>, index: usize) -> Option<Seq<char>> {
    match rlp_item_at(list, index) {
        Some(item) => rlp_text(item),
        None => None,
    }
}

/// The port at position `index` of a list.
pub open spec fn port_at(list: Seq<u8>, index: usize) -> Option<u16> {
    match rlp_item_at(list, index) {
        Some(item) => rlp_u16(item),
        None => None,
    }
}

/// The byte string at position `index` of a list.
pub open spec fn bytes_at(list: Seq<u8>, index: usize) -> Option<Seq<u8>> {
    match rlp_item_at(list, index) {
        Some(item) => rlp_bytes(item),
        None => None,
    }
}

/// Reads the unsigned integer at position `index` of a list.
pub fn read_uint_at(list: &[u8], index: usize) -> (value: Option<usize>)
    ensures
        value == uint_at(list@, index),
{
    match item_at(list, index) {
        Some(item) => match as_u64(item.as_slice()) {
            Some(value) => if value <= usize::MAX as u64 {
                Some(value as usize)
            } else {
                None
            },
            None => None,
        },
        None => None,
    }
}

/// Reads the text at position `index` of a list.
pub fn read_text_at(list: &[u8], index: usize) -> (text: Option<String>)
    ensures
        text is Some <==> text_at(list@, index) is Some,
        text is Some ==> text->Some_0@ == text_at(list@, index)->Some_0,
{
    match item_at(list, index) {
        Some(item) => as_text(item.as_slice()),
        None => None,
    }
}

/// Reads the port at position `index` of a list.
pub fn read_port_at(list: &[u8], index: usize) -> (port: Option<u16>)
    ensures
        port == port_at(list@, index),
{
    match item_at(list, index) {
        Some(item) => as_u16(item.as_slice()),
        None => None,
    }
}

/// Reads the byte string at position `index` of a list.
pub fn read_bytes_at(list: &[u8], index: usize) -> (bytes: Option<Vec<u8>>)
    ensures
        bytes is Some <==> bytes_at(list@, index) is Some,
        bytes is Some ==> bytes->Some_0@ == bytes_at(list@, index)->Some_0,
{
    match item_at(list, index) {
        Some(item) => as_bytes(item.as_slice()),
        None => None,
    }
}

} // verus!
