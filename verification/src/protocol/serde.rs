//! Big-endian integers and length-prefixed strings, written and read with a cursor.

use vstd::prelude::*;
use vstd::slice::slice_to_vec;
use vstd::string::*;
use vstd::utf8::*;

use crate::protocol::text::{decimal, decimal_text, join3};

verus! {

/// The number that a sequence of bytes denotes when read most significant byte first.
pub open spec fn be_value(bytes: Seq<u8>) -> nat
    decreases bytes.len(),
{
    if bytes.len() == 0 {
        0
    } else {
        be_value(bytes.drop_last()) * 256 + bytes.last() as nat
    }
}

/// The `width` low-order bytes of `value`, most significant byte first.
pub open spec fn be_bytes(value: nat, width: nat) -> Seq<u8>
    decreases width,
{
    if width == 0 {
        Seq::empty()
    } else {
        be_bytes(value / 256, (width - 1) as nat).push((value % 256) as u8)
    }
}

/// The number of values that `width` bytes can tell apart.
pub open spec fn be_limit(width: nat) -> nat
    decreases width,
{
    if width == 0 {
        1
    } else {
        256 * be_limit((width - 1) as nat)
    }
}

/// The big-endian form in `width` bytes has `width` bytes.
pub proof fn lemma_be_bytes_len(value: nat, width: nat)
    ensures
        be_bytes(value, width).len() == width,
    decreases width,
{
    if width > 0 {
        lemma_be_bytes_len(value / 256, (width - 1) as nat);
    }
}

/// Reading back the big-endian form of a value that fits in `width` bytes gives the value.
pub proof fn lemma_be_value_of_bytes(value: nat, width: nat)
    requires
        value < be_limit(width),
    ensures
        be_value(be_bytes(value, width)) == value,
    decreases width,
{
    if width > 0 {
        let head = be_bytes(value / 256, (width - 1) as nat);
        let all = head.push((value % 256) as u8);
        lemma_be_value_of_bytes(value / 256, (width - 1) as nat);
        assert(all.drop_last() =~= head);
        assert(all.last() == (value % 256) as u8);
    }
}

/// Writing the number that a byte sequence denotes, in as many bytes, gives the sequence.
pub proof fn lemma_be_bytes_of_value(bytes: Seq<u8>)
    ensures
        be_bytes(be_value(bytes), bytes.len()) == bytes,
        be_value(bytes) < be_limit(bytes.len()),
    decreases bytes.len(),
{
    if bytes.len() > 0 {
        let head = bytes.drop_last();
        lemma_be_bytes_of_value(head);
        let v = be_value(bytes);
        assert(v / 256 == be_value(head));
        assert(v % 256 == bytes.last() as nat);
        assert(be_bytes(v, bytes.len()) =~= bytes);
    }
}

/// The limits of the four widths in use.
pub proof fn lemma_be_limits()
    ensures
        be_limit(1) == 0x100,
        be_limit(2) == 0x1_0000,
        be_limit(4) == 0x1_0000_0000,
        be_limit(8) == 0x1_0000_0000_0000_0000,
{
    reveal_with_fuel(be_limit, 9);
}

/// What went wrong while reading a value at the cursor.
#[derive(Debug, Clone, Copy, PartialEq, Eq, Structural)]
pub enum ParserError {
    /// Not all data was parsed.
    Incomplete,
    /// The value reaches past the end of the data, or does not fit its type.
    Overflow,
    /// The bytes of a string are not UTF-8.
    Utf8Error(Utf8Error),
    /// The byte that tells the variants of a value apart names none of them.
    UnknownTag(u8),
}

/// Where and how a byte sequence stops being UTF-8.
#[derive(Debug, Clone, Copy, PartialEq, Eq, Structural)]
pub struct Utf8Error {
    /// The length of the longest prefix that is valid.
    pub valid_up_to: usize,
    /// The length of the ill-formed sequence after it, unless the input ends within a character.
    pub error_len: Option<usize>,
}

/// One byte.
pub fn encode_u8(v: u8) -> (bytes: [u8; 1])
    ensures
        bytes@ == be_bytes(v as nat, 1),
{
    let bytes: [u8; 1] = [v];
    proof {
        reveal_with_fuel(be_bytes, 2);
        assert(bytes@ =~= be_bytes(v as nat, 1));
    }
    bytes
}

/// Two bytes, most significant first.
pub fn encode_u16(v: u16) -> (bytes: [u8; 2])
    ensures
        bytes@ == be_bytes(v as nat, 2),
{
    let bytes: [u8; 2] = [(v / 256) as u8, (v % 256) as u8];
    proof {
        reveal_with_fuel(be_bytes, 3);
        assert(bytes@ =~= be_bytes(v as nat, 2));
    }
    bytes
}

/// Four bytes, most significant first.
pub fn encode_u32(v: u32) -> (bytes: [u8; 4])
    ensures
        bytes@ == be_bytes(v as nat, 4),
{
    let a1: u32 = v / 256;
    let a2: u32 = a1 / 256;
    let a3: u32 = a2 / 256;
    let bytes: [u8; 4] = [(a3 % 256) as u8, (a2 % 256) as u8, (a1 % 256) as u8, (v % 256) as u8];
    proof {
        reveal_with_fuel(be_bytes, 5);
        assert(bytes@ =~= be_bytes(v as nat, 4));
    }
    bytes
}

/// Eight bytes, most significant first.
pub fn encode_u64(v: u64) -> (bytes: [u8; 8])
    ensures
        bytes@ == be_bytes(v as nat, 8),
{
    let a1: u64 = v / 256;
    let a2: u64 = a1 / 256;
    let a3: u64 = a2 / 256;
    let a4: u64 = a3 / 256;
    let a5: u64 = a4 / 256;
    let a6: u64 = a5 / 256;
    let a7: u64 = a6 / 256;
    let bytes: [u8; 8] = [
        (a7 % 256) as u8,
        (a6 % 256) as u8,
        (a5 % 256) as u8,
        (a4 % 256) as u8,
        (a3 % 256) as u8,
        (a2 % 256) as u8,
        (a1 % 256) as u8,
        (v % 256) as u8,
    ];
    proof {
        reveal_with_fuel(be_bytes, 9);
        assert(bytes@ =~= be_bytes(v as nat, 8));
    }
    bytes
}

/// Eight bytes, most significant first, whatever the machine's word.
pub fn encode_usize(v: usize) -> (bytes: [u8; 8])
    ensures
        bytes@ == be_bytes(v as nat, 8),
{
    encode_u64(v as u64)
}

/// The number in the first `width` bytes of `v`, or `Overflow` where `v` is shorter.
pub open spec fn decoded_int(v: Seq<u8>, width: nat) -> Result<nat, ParserError> {
    if v.len() < width {
        Err(ParserError::Overflow)
    } else {
        Ok(be_value(v.take(width as int)))
    }
}

/// Reads the first `width` bytes of `v` as one number.
fn decode_be(v: &[u8], width: usize) -> (x: u64)
    requires
        width <= 8,
        v.len() >= width,
    ensures
        x == be_value(v@.take(width as int)),
        x < be_limit(width as nat),
{
    let mut acc: u64 = 0;
    let mut i: usize = 0;
    proof {
        assert(v@.take(0) =~= Seq::<u8>::empty());
    }
    while i < width
        invariant
            i <= width <= 8,
            v.len() >= width,
            acc == be_value(v@.take(i as int)),
            acc < be_limit(i as nat),
        decreases width - i,
    {
        proof {
            reveal_with_fuel(be_limit, 9);
            assert(v@.take(i + 1).drop_last() =~= v@.take(i as int));
            assert(v@.take(i + 1).last() == v@[i as int]);
        }
        acc = acc * 256 + v[i] as u64;
        i += 1;
    }
    acc
}

/// The number in the first byte of `v`.
pub fn decode_u8(v: &[u8]) -> (r: Result<u8, ParserError>)
    ensures
        r matches Ok(x) ==> decoded_int(v@, 1) == Ok::<nat, ParserError>(x as nat),
        r matches Err(e) ==> decoded_int(v@, 1) == Err::<nat, ParserError>(e),
{
    if v.len() < 1 {
        return Err(ParserError::Overflow);
    }
    proof {
        lemma_be_limits();
    }
    Ok(decode_be(v, 1) as u8)
}

/// The number in the first two bytes of `v`.
pub fn decode_u16(v: &[u8]) -> (r: Result<u16, ParserError>)
    ensures
        r matches Ok(x) ==> decoded_int(v@, 2) == Ok::<nat, ParserError>(x as nat),
        r matches Err(e) ==> decoded_int(v@, 2) == Err::<nat, ParserError>(e),
{
    if v.len() < 2 {
        return Err(ParserError::Overflow);
    }
    proof {
        lemma_be_limits();
    }
    Ok(decode_be(v, 2) as u16)
}

/// The number in the first four bytes of `v`.
pub fn decode_u32(v: &[u8]) -> (r: Result<u32, ParserError>)
    ensures
        r matches Ok(x) ==> decoded_int(v@, 4) == Ok::<nat, ParserError>(x as nat),
        r matches Err(e) ==> decoded_int(v@, 4) == Err::<nat, ParserError>(e),
{
    if v.len() < 4 {
        return Err(ParserError::Overflow);
    }
    proof {
        lemma_be_limits();
    }
    Ok(decode_be(v, 4) as u32)
}

/// The number in the first eight bytes of `v`.
pub fn decode_u64(v: &[u8]) -> (r: Result<u64, ParserError>)
    ensures
        r matches Ok(x) ==> decoded_int(v@, 8) == Ok::<nat, ParserError>(x as nat),
        r matches Err(e) ==> decoded_int(v@, 8) == Err::<nat, ParserError>(e),
{
    if v.len() < 8 {
        return Err(ParserError::Overflow);
    }
    Ok(decode_be(v, 8))
}

/// The eight-byte number at the start of `v`, where it fits the machine's word.
pub open spec fn decoded_usize(v: Seq<u8>) -> Result<nat, ParserError> {
    match decoded_int(v, 8) {
        Ok(x) => if x <= usize::MAX {
            Ok(x)
        } else {
            Err(ParserError::Overflow)
        },
        Err(e) => Err(e),
    }
}

/// The number in the first eight bytes of `v`, where the machine's word holds it.
pub fn decode_usize(v: &[u8]) -> (r: Result<usize, ParserError>)
    ensures
        r matches Ok(x) ==> decoded_usize(v@) == Ok::<nat, ParserError>(x as nat),
        r matches Err(e) ==> decoded_usize(v@) == Err::<nat, ParserError>(e),
{
    if v.len() < 8 {
        return Err(ParserError::Overflow);
    }
    let x: u64 = decode_be(v, 8);
    if x > usize::MAX as u64 {
        return Err(ParserError::Overflow);
    }
    Ok(x as usize)
}

/// The name of the error that `core::str::from_utf8` reports on bytes that are not UTF-8.
pub uninterp spec fn utf8_failure(bytes: Seq<u8>) -> Utf8Error;

/// Calls `core::str::from_utf8`. The standard library documents that it accepts exactly the
/// well-formed UTF-8 sequences and borrows the text from the bytes; its error is carried over
/// field by field.
#[verifier::external_body]
fn from_utf8(bytes: &[u8]) -> (result: Result<&str, Utf8Error>)
    ensures
        result is Ok <==> valid_utf8(bytes@),
        result matches Ok(text) ==> text@ == decode_utf8(bytes@),
        result matches Err(e) ==> e == utf8_failure(bytes@),
{
    match core::str::from_utf8(bytes) {
        Ok(text) => Ok(text),
        Err(e) => Err(Utf8Error { valid_up_to: e.valid_up_to(), error_len: e.error_len() }),
    }
}

/// The text that `bytes` hold, or how they fail to be UTF-8.
pub open spec fn decoded_text(bytes: Seq<u8>) -> Result<Seq<char>, ParserError> {
    if valid_utf8(bytes) {
        Ok(decode_utf8(bytes))
    } else {
        Err(ParserError::Utf8Error(utf8_failure(bytes)))
    }
}

/// Turns bytes into an owned string.
pub fn decode_text(bytes: &[u8]) -> (r: Result<String, ParserError>)
    ensures
        r matches Ok(text) ==> decoded_text(bytes@) == Ok::<Seq<char>, ParserError>(text@),
        r matches Err(e) ==> decoded_text(bytes@) == Err::<Seq<char>, ParserError>(e),
{
    match from_utf8(bytes) {
        Ok(text) => Ok(text.to_owned()),
        Err(e) => Err(ParserError::Utf8Error(e)),
    }
}

/// A string as `encode_s16` writes it: sixteen bits of byte length, then the bytes.
pub open spec fn s16_wire(text: Seq<char>) -> Seq<u8> {
    be_bytes(encode_utf8(text).len() % 0x1_0000, 2) + encode_utf8(text)
}

/// A string behind sixteen bits of length. A longer string than the prefix can tell is
/// written whole, under the low sixteen bits of its length.
pub fn encode_s16(v: &str) -> (data: Vec<u8>)
    ensures
        data@ == s16_wire(v@),
{
    let bytes = v.as_bytes();
    let prefix: [u8; 2] = encode_u16((bytes.len() % 0x1_0000) as u16);
    let mut data: Vec<u8> = slice_to_vec(prefix.as_slice());
    data.extend_from_slice(bytes);
    proof {
        assert(data@ =~= s16_wire(v@));
    }
    data
}

/// What `decode_s16` finds at the start of `v`: the bytes consumed and the text.
pub open spec fn decoded_s16(v: Seq<u8>) -> Result<(nat, Seq<char>), ParserError> {
    match decoded_int(v, 2) {
        Err(e) => Err(e),
        Ok(len) => if 2 + len > v.len() {
            Err(ParserError::Overflow)
        } else {
            match decoded_text(v.subrange(2, (2 + len) as int)) {
                Ok(text) => Ok(((2 + len) as nat, text)),
                Err(e) => Err(e),
            }
        },
    }
}

/// Reads a string that stands behind sixteen bits of length.
pub fn decode_s16(v: &[u8]) -> (r: Result<(usize, String), ParserError>)
    ensures
        r matches Ok((size, text)) ==> decoded_s16(v@) == Ok::<(nat, Seq<char>), ParserError>(
            (size as nat, text@),
        ),
        r matches Err(e) ==> decoded_s16(v@) == Err::<(nat, Seq<char>), ParserError>(e),
{
    let len: u16 = match decode_u16(v) {
        Ok(len) => len,
        Err(e) => {
            return Err(e);
        },
    };
    if v.len() - 2 < len as usize {
        return Err(ParserError::Overflow);
    }
    let end: usize = 2 + len as usize;
    match decode_text(&v[2..end]) {
        Ok(text) => Ok((end, text)),
        Err(e) => Err(e),
    }
}

/// The length prefix of a string of `len` bytes: one byte below 128, else four bytes
/// that hold the low 31 bits of `len` under a set high bit.
pub open spec fn len_prefix(len: nat) -> Seq<u8> {
    if len < 128 {
        seq![len as u8]
    } else {
        be_bytes(0x8000_0000 + len % 0x8000_0000, 4)
    }
}

/// The length prefix of a string of `len` bytes.
pub fn encode_len(len: usize) -> (data: Vec<u8>)
    ensures
        data@ == len_prefix(len as nat),
{
    if len < 128 {
        let data: Vec<u8> = vec![len as u8];
        proof {
            assert(data@ =~= len_prefix(len as nat));
        }
        data
    } else {
        let low: u32 = (len % 0x8000_0000) as u32;
        let bytes: [u8; 4] = encode_u32(low + 0x8000_0000);
        slice_to_vec(bytes.as_slice())
    }
}

/// What `decode_len` finds at the start of `v`: the width of the prefix and the length in it.
pub open spec fn decoded_len(v: Seq<u8>) -> Result<(nat, nat), ParserError> {
    if v.len() == 0 {
        Err(ParserError::Overflow)
    } else if v[0] < 128 {
        Ok((1, v[0] as nat))
    } else if v.len() < 4 {
        Err(ParserError::Overflow)
    } else {
        Ok((4, (be_value(v.take(4)) - 0x8000_0000) as nat))
    }
}

/// Four bytes that start with a set high bit denote at least 2^31 and less than 2^32.
pub proof fn lemma_long_prefix_range(bytes: Seq<u8>)
    requires
        bytes.len() == 4,
    ensures
        bytes[0] >= 128 <==> be_value(bytes) >= 0x8000_0000,
        be_value(bytes) < 0x1_0000_0000,
{
    reveal_with_fuel(be_value, 5);
    let b3 = bytes.drop_last();
    let b2 = b3.drop_last();
    let b1 = b2.drop_last();
    assert(b1.last() == bytes[0]);
    assert(b2.last() == bytes[1]);
    assert(b3.last() == bytes[2]);
    assert(b1.drop_last().len() == 0);
}

/// Reads a length prefix: its width, and the length in it.
pub fn decode_len(v: &[u8]) -> (r: Result<(usize, usize), ParserError>)
    ensures
        r matches Ok((size, len)) ==> decoded_len(v@) == Ok::<(nat, nat), ParserError>(
            (size as nat, len as nat),
        ),
        r matches Err(e) ==> decoded_len(v@) == Err::<(nat, nat), ParserError>(e),
{
    if v.len() == 0 {
        return Err(ParserError::Overflow);
    }
    if v[0] < 128 {
        return Ok((1, v[0] as usize));
    }
    if v.len() < 4 {
        return Err(ParserError::Overflow);
    }
    let raw: u64 = decode_be(v, 4);
    proof {
        lemma_long_prefix_range(v@.take(4));
    }
    Ok((4, (raw - 0x8000_0000) as usize))
}

/// A string on the wire: its length prefix, then its UTF-8 bytes.
pub open spec fn str_wire(text: Seq<char>) -> Seq<u8> {
    len_prefix(encode_utf8(text).len()) + encode_utf8(text)
}

/// A string on the wire: its length prefix, then its bytes.
pub fn encode_str(v: &str) -> (data: Vec<u8>)
    ensures
        data@ == str_wire(v@),
{
    let bytes = v.as_bytes();
    let mut data: Vec<u8> = encode_len(bytes.len());
    data.extend_from_slice(bytes);
    proof {
        assert(data@ =~= str_wire(v@));
    }
    data
}

/// What `decode_str` finds at the start of `v`: the bytes consumed and the text.
pub open spec fn decoded_str(v: Seq<u8>) -> Result<(nat, Seq<char>), ParserError> {
    match decoded_len(v) {
        Err(e) => Err(e),
        Ok((size, len)) => if size + len > v.len() {
            Err(ParserError::Overflow)
        } else {
            match decoded_text(v.subrange(size as int, (size + len) as int)) {
                Ok(text) => Ok((size + len, text)),
                Err(e) => Err(e),
            }
        },
    }
}

/// Reads a string that stands behind its length prefix.
pub fn decode_str(v: &[u8]) -> (r: Result<(usize, String), ParserError>)
    ensures
        r matches Ok((size, text)) ==> decoded_str(v@) == Ok::<(nat, Seq<char>), ParserError>(
            (size as nat, text@),
        ),
        r matches Err(e) ==> decoded_str(v@) == Err::<(nat, Seq<char>), ParserError>(e),
{
    let (size, len) = match decode_len(v) {
        Ok(found) => found,
        Err(e) => {
            return Err(e);
        },
    };
    if v.len() - size < len {
        return Err(ParserError::Overflow);
    }
    let end: usize = size + len;
    match decode_text(&v[size..end]) {
        Ok(text) => Ok((end, text)),
        Err(e) => Err(e),
    }
}

/// An integer that fits in `width` bytes is read back from its big-endian form, and the
/// read takes exactly `width` bytes.
pub proof fn lemma_int_round_trip(value: nat, width: nat)
    requires
        value < be_limit(width),
    ensures
        decoded_int(be_bytes(value, width), width) == Ok::<nat, ParserError>(value),
        be_bytes(value, width).len() == width,
{
    lemma_be_bytes_len(value, width);
    lemma_be_value_of_bytes(value, width);
    assert(be_bytes(value, width).take(width as int) =~= be_bytes(value, width));
}

/// Below 128 the prefix is the one byte `len`; from 128 up it is four bytes, the first with
/// its high bit set, which denote `len` once that bit is taken off.
pub proof fn lemma_len_prefix_shape(len: nat)
    requires
        len < 0x8000_0000,
    ensures
        len < 128 ==> len_prefix(len) == seq![len as u8],
        len >= 128 ==> len_prefix(len).len() == 4 && len_prefix(len)[0] >= 128 && be_value(
            len_prefix(len),
        ) == 0x8000_0000 + len,
        decoded_len(len_prefix(len)) == Ok::<(nat, nat), ParserError>(
            (len_prefix(len).len(), len),
        ),
{
    if len >= 128 {
        let prefix = len_prefix(len);
        lemma_be_limits();
        lemma_be_bytes_len(0x8000_0000 + len, 4);
        lemma_be_value_of_bytes(0x8000_0000 + len, 4);
        lemma_long_prefix_range(prefix);
        assert(prefix.take(4) =~= prefix);
    }
}

/// A string of fewer than 2^31 bytes is read back from its wire form, and the read takes
/// the whole of it.
pub proof fn lemma_str_round_trip(text: Seq<char>)
    requires
        encode_utf8(text).len() < 0x8000_0000,
    ensures
        decoded_str(str_wire(text)) == Ok::<(nat, Seq<char>), ParserError>(
            (str_wire(text).len(), text),
        ),
{
    let bytes = encode_utf8(text);
    let prefix = len_prefix(bytes.len());
    let wire = str_wire(text);
    lemma_len_prefix_shape(bytes.len());
    lemma_str_round_trip_after(text, Seq::empty());
    assert(wire + Seq::<u8>::empty() =~= wire);
}

/// The same with more bytes behind the string: the read stops where the string ends.
pub proof fn lemma_str_round_trip_after(text: Seq<char>, tail: Seq<u8>)
    requires
        encode_utf8(text).len() < 0x8000_0000,
    ensures
        decoded_str(str_wire(text) + tail) == Ok::<(nat, Seq<char>), ParserError>(
            (str_wire(text).len(), text),
        ),
{
    let bytes = encode_utf8(text);
    let prefix = len_prefix(bytes.len());
    let all = str_wire(text) + tail;
    lemma_len_prefix_shape(bytes.len());
    if bytes.len() >= 128 {
        assert(all.take(4) =~= prefix);
    }
    assert(all[0] == prefix[0]);
    assert(decoded_len(all) == Ok::<(nat, nat), ParserError>((prefix.len(), bytes.len())));
    assert(all.subrange(prefix.len() as int, (prefix.len() + bytes.len()) as int) =~= bytes);
    encode_utf8_valid_utf8(text);
    encode_utf8_decode_utf8(text);
}

/// Collects the bytes of a message body, field after field.
#[derive(Debug)]
pub struct Encoder {
    data: Vec<u8>,
}

impl View for Encoder {
    type V = Seq<u8>;

    closed spec fn view(&self) -> Seq<u8> {
        self.data@
    }
}

impl Encoder {
    /// An encoder that holds nothing.
    pub fn new() -> (e: Self)
        ensures
            e@ == Seq::<u8>::empty(),
    {
        Encoder { data: Vec::new() }
    }

    /// The bytes collected.
    pub fn complete(self) -> (data: Vec<u8>)
        ensures
            data@ == self@,
    {
        self.data
    }

    /// Adds bytes at the end.
    pub fn extend_from_slice(&mut self, v: &[u8])
        ensures
            final(self)@ == old(self)@ + v@,
    {
        self.data.extend_from_slice(v);
        proof {
            assert(self.data@ =~= old(self).data@ + v@);
        }
    }

    /// Adds bytes at the end.
    pub fn extend_from_vec(&mut self, v: Vec<u8>)
        ensures
            final(self)@ == old(self)@ + v@,
    {
        let mut v = v;
        self.data.append(&mut v);
    }
}

/// A value with a form on the wire.
pub trait Encode: Sized + View {
    /// The bytes that stand for a value, given by its view.
    spec fn wire(value: Self::V) -> Seq<u8>;

    fn encode(self) -> (bytes: Vec<u8>)
        ensures
            bytes@ == Self::wire(self@),
    ;
}

impl Encode for u8 {
    open spec fn wire(value: u8) -> Seq<u8> {
        be_bytes(value as nat, 1)
    }

    fn encode(self) -> (bytes: Vec<u8>) {
        let bytes: [u8; 1] = encode_u8(self);
        slice_to_vec(bytes.as_slice())
    }
}

impl Encode for u16 {
    open spec fn wire(value: u16) -> Seq<u8> {
        be_bytes(value as nat, 2)
    }

    fn encode(self) -> (bytes: Vec<u8>) {
        let bytes: [u8; 2] = encode_u16(self);
        slice_to_vec(bytes.as_slice())
    }
}

impl Encode for u32 {
    open spec fn wire(value: u32) -> Seq<u8> {
        be_bytes(value as nat, 4)
    }

    fn encode(self) -> (bytes: Vec<u8>) {
        let bytes: [u8; 4] = encode_u32(self);
        slice_to_vec(bytes.as_slice())
    }
}

impl Encode for u64 {
    open spec fn wire(value: u64) -> Seq<u8> {
        be_bytes(value as nat, 8)
    }

    fn encode(self) -> (bytes: Vec<u8>) {
        let bytes: [u8; 8] = encode_u64(self);
        slice_to_vec(bytes.as_slice())
    }
}

impl Encode for usize {
    open spec fn wire(value: usize) -> Seq<u8> {
        be_bytes(value as nat, 8)
    }

    fn encode(self) -> (bytes: Vec<u8>) {
        let bytes: [u8; 8] = encode_usize(self);
        slice_to_vec(bytes.as_slice())
    }
}

impl Encode for String {
    open spec fn wire(value: Seq<char>) -> Seq<u8> {
        str_wire(value)
    }

    fn encode(self) -> (bytes: Vec<u8>) {
        encode_str(self.as_str())
    }
}

/// A byte buffer with a cursor that moves over it as values are read.
#[derive(Debug)]
pub struct Parser {
    data: Vec<u8>,
    position: usize,
}

impl Parser {
    #[verifier::type_invariant]
    spec fn cursor_in_data(self) -> bool {
        self.position <= self.data.len()
    }

    /// The whole buffer.
    pub closed spec fn data(self) -> Seq<u8> {
        self.data@
    }

    /// How many bytes have been read.
    pub closed spec fn position(self) -> nat {
        self.position as nat
    }

    /// The bytes that have not been read.
    pub open spec fn remaining(self) -> Seq<u8> {
        self.data().skip(self.position() as int)
    }

    /// A parser at the start of `data`.
    pub fn new(data: Vec<u8>) -> (p: Self)
        ensures
            p.data() == data@,
            p.position() == 0,
    {
        Parser { data: data, position: 0 }
    }

    /// Hands out the next `n` bytes and moves the cursor behind them.
    pub fn next(&mut self, n: usize) -> (r: Result<&[u8], ParserError>)
        ensures
            final(self).data() == old(self).data(),
            old(self).position() <= old(self).data().len(),
            old(self).position() + n <= old(self).data().len() ==> (r matches Ok(bytes)
                && bytes@ == old(self).data().subrange(
                old(self).position() as int,
                old(self).position() + n,
            ) && final(self).position() == old(self).position() + n),
            old(self).position() + n > old(self).data().len() ==> r == Err::<
                &[u8],
                ParserError,
            >(ParserError::Overflow) && final(self).position() == old(self).position(),
    {
        proof {
            use_type_invariant(&*self);
        }
        if n > self.data.len() - self.position {
            return Err(ParserError::Overflow);
        }
        let start: usize = self.position;
        self.position = start + n;
        Ok(&self.data.as_slice()[start..start + n])
    }

    /// The bytes from the cursor to the end.
    pub fn rest(&self) -> (bytes: &[u8])
        ensures
            bytes@ == self.remaining(),
            self.position() <= self.data().len(),
    {
        proof {
            use_type_invariant(self);
        }
        let end: usize = self.data.len();
        &self.data.as_slice()[self.position..end]
    }

    /// Moves the cursor `n` bytes on.
    pub(crate) fn skip(&mut self, n: usize)
        requires
            old(self).position() + n <= old(self).data().len(),
        ensures
            final(self).data() == old(self).data(),
            final(self).position() == old(self).position() + n,
    {
        proof {
            use_type_invariant(&*self);
        }
        self.position = self.position + n;
    }

    /// Moves the cursor `n` bytes back.
    pub(crate) fn rewind(&mut self, n: usize)
        requires
            n <= old(self).position(),
        ensures
            final(self).data() == old(self).data(),
            final(self).position() == old(self).position() - n,
    {
        proof {
            use_type_invariant(&*self);
        }
        self.position = self.position - n;
    }

    /// Succeeds where the cursor stands at the end of the buffer.
    pub fn complete(self) -> (r: Result<(), ParserError>)
        ensures
            self.position() <= self.data().len(),
            self.position() == self.data().len() ==> r == Ok::<(), ParserError>(()),
            self.position() != self.data().len() ==> r == Err::<(), ParserError>(
                ParserError::Incomplete,
            ),
    {
        proof {
            use_type_invariant(&self);
        }
        if self.position == self.data.len() {
            Ok(())
        } else {
            Err(ParserError::Incomplete)
        }
    }
}

/// What a read of `width` bytes at `position` finds: the number and the position behind it.
pub open spec fn int_at(data: Seq<u8>, position: nat, width: nat) -> Result<
    (nat, nat),
    ParserError,
> {
    if position + width > data.len() {
        Err(ParserError::Overflow)
    } else {
        Ok((be_value(data.subrange(position as int, (position + width) as int)), position + width))
    }
}

/// What a read of a string at `position` finds: the text and the position behind it.
pub open spec fn str_at(data: Seq<u8>, position: nat) -> Result<(Seq<char>, nat), ParserError> {
    match decoded_str(data.skip(position as int)) {
        Ok((size, text)) => Ok((text, position + size)),
        Err(e) => Err(e),
    }
}

/// A value that can be read at a parser's cursor.
pub trait Parse: Sized + View {
    /// What a read at `position` of `data` finds: the value's view and the position behind
    /// it, or the error.
    spec fn parsed(data: Seq<u8>, position: nat) -> Result<(Self::V, nat), ParserError>;

    /// Reads one value and moves the cursor behind it; on an error the cursor stays.
    fn parse_from(parser: &mut Parser) -> (r: Result<Self, ParserError>)
        ensures
            final(parser).data() == old(parser).data(),
            r matches Ok(value) ==> Self::parsed(old(parser).data(), old(parser).position())
                == Ok::<(Self::V, nat), ParserError>((value@, final(parser).position())),
            r matches Err(e) ==> Self::parsed(old(parser).data(), old(parser).position()) == Err::<
                (Self::V, nat),
                ParserError,
            >(e) && final(parser).position() == old(parser).position(),
    ;
}

impl Parse for u8 {
    open spec fn parsed(data: Seq<u8>, position: nat) -> Result<(u8, nat), ParserError> {
        match int_at(data, position, 1) {
            Ok((value, next)) => Ok((value as u8, next)),
            Err(e) => Err(e),
        }
    }

    fn parse_from(parser: &mut Parser) -> (r: Result<u8, ParserError>) {
        match parser.next(1) {
            Ok(bytes) => {
                proof {
                    assert(bytes@.take(1) =~= bytes@);
                }
                decode_u8(bytes)
            },
            Err(e) => Err(e),
        }
    }
}

impl Parse for u16 {
    open spec fn parsed(data: Seq<u8>, position: nat) -> Result<(u16, nat), ParserError> {
        match int_at(data, position, 2) {
            Ok((value, next)) => Ok((value as u16, next)),
            Err(e) => Err(e),
        }
    }

    fn parse_from(parser: &mut Parser) -> (r: Result<u16, ParserError>) {
        match parser.next(2) {
            Ok(bytes) => {
                proof {
                    assert(bytes@.take(2) =~= bytes@);
                }
                decode_u16(bytes)
            },
            Err(e) => Err(e),
        }
    }
}

impl Parse for u32 {
    open spec fn parsed(data: Seq<u8>, position: nat) -> Result<(u32, nat), ParserError> {
        match int_at(data, position, 4) {
            Ok((value, next)) => Ok((value as u32, next)),
            Err(e) => Err(e),
        }
    }

    fn parse_from(parser: &mut Parser) -> (r: Result<u32, ParserError>) {
        match parser.next(4) {
            Ok(bytes) => {
                proof {
                    assert(bytes@.take(4) =~= bytes@);
                }
                decode_u32(bytes)
            },
            Err(e) => Err(e),
        }
    }
}

impl Parse for u64 {
    open spec fn parsed(data: Seq<u8>, position: nat) -> Result<(u64, nat), ParserError> {
        match int_at(data, position, 8) {
            Ok((value, next)) => Ok((value as u64, next)),
            Err(e) => Err(e),
        }
    }

    fn parse_from(parser: &mut Parser) -> (r: Result<u64, ParserError>) {
        match parser.next(8) {
            Ok(bytes) => {
                proof {
                    assert(bytes@.take(8) =~= bytes@);
                    lemma_be_bytes_of_value(bytes@);
                    lemma_be_limits();
                }
                let r = decode_u64(bytes);
                proof {
                    assert(r matches Ok(value) && u64::parsed(
                        old(parser).data(),
                        old(parser).position(),
                    ) == Ok::<(u64, nat), ParserError>((value, parser.position())));
                }
                r
            },
            Err(e) => Err(e),
        }
    }
}

impl Parse for usize {
    /// Eight bytes; a number above the machine's word is an `Overflow`, and the cursor stays.
    open spec fn parsed(data: Seq<u8>, position: nat) -> Result<(usize, nat), ParserError> {
        match int_at(data, position, 8) {
            Ok((value, next)) => if value <= usize::MAX {
                Ok((value as usize, next))
            } else {
                Err(ParserError::Overflow)
            },
            Err(e) => Err(e),
        }
    }

    fn parse_from(parser: &mut Parser) -> (r: Result<usize, ParserError>) {
        let value: u64 = match u64::parse_from(parser) {
            Ok(value) => value,
            Err(e) => {
                return Err(e);
            },
        };
        proof {
            let taken = old(parser).data().subrange(
                old(parser).position() as int,
                (old(parser).position() + 8) as int,
            );
            lemma_be_bytes_of_value(taken);
            lemma_be_limits();
        }
        if value > usize::MAX as u64 {
            parser.rewind(8);
            return Err(ParserError::Overflow);
        }
        Ok(value as usize)
    }
}

impl Parse for String {
    open spec fn parsed(data: Seq<u8>, position: nat) -> Result<(Seq<char>, nat), ParserError> {
        str_at(data, position)
    }

    fn parse_from(parser: &mut Parser) -> (r: Result<String, ParserError>) {
        let (size, text) = match decode_str(parser.rest()) {
            Ok(found) => found,
            Err(e) => {
                return Err(e);
            },
        };
        parser.skip(size);
        Ok(text)
    }
}

impl Utf8Error {
    /// The error as debugging output names it.
    pub open spec fn debug_text(self) -> Seq<char> {
        "Utf8Error { valid_up_to: "@ + decimal_text(self.valid_up_to as nat) + ", error_len: "@
            + match self.error_len {
            None => "None"@,
            Some(len) => "Some("@ + decimal_text(len as nat) + ")"@,
        } + " }"@
    }

    /// The value as debugging output shows it.
    pub fn debug_string(&self) -> (text: String)
        ensures
            text@ == self.debug_text(),
    {
        let mut text = "Utf8Error { valid_up_to: ".to_owned();
        let up_to = decimal(self.valid_up_to as u64);
        text.append(up_to.as_str());
        text.append(", error_len: ");
        match self.error_len {
            None => {
                text.append("None");
            },
            Some(len) => {
                let number = decimal(len as u64);
                text.append("Some(");
                text.append(number.as_str());
                text.append(")");
            },
        }
        text.append(" }");
        proof {
            assert(text@ =~= self.debug_text());
        }
        text
    }
}

impl ParserError {
    /// The error as debugging output names it.
    pub open spec fn debug_text(self) -> Seq<char> {
        match self {
            ParserError::Incomplete => "Incomplete"@,
            ParserError::Overflow => "Overflow"@,
            ParserError::Utf8Error(e) => "Utf8Error("@ + e.debug_text() + ")"@,
            ParserError::UnknownTag(tag) => "UnknownTag("@ + decimal_text(tag as nat) + ")"@,
        }
    }

    /// The value as debugging output shows it.
    pub fn debug_string(&self) -> (text: String)
        ensures
            text@ == self.debug_text(),
    {
        match self {
            ParserError::Incomplete => "Incomplete".to_owned(),
            ParserError::Overflow => "Overflow".to_owned(),
            ParserError::Utf8Error(e) => {
                let inner = e.debug_string();
                join3("Utf8Error(", inner.as_str(), ")")
            },
            ParserError::UnknownTag(tag) => {
                let number = decimal(*tag as u64);
                join3("UnknownTag(", number.as_str(), ")")
            },
        }
    }
}

/// An integer written between other bytes is read back at the place where it stands.
pub proof fn lemma_int_at(head: Seq<u8>, value: nat, width: nat, tail: Seq<u8>)
    requires
        value < be_limit(width),
    ensures
        int_at(head + be_bytes(value, width) + tail, head.len(), width) == Ok::<
            (nat, nat),
            ParserError,
        >((value, head.len() + width)),
{
    let data = head + be_bytes(value, width) + tail;
    lemma_be_bytes_len(value, width);
    lemma_be_value_of_bytes(value, width);
    assert(data.subrange(head.len() as int, (head.len() + width) as int) =~= be_bytes(
        value,
        width,
    ));
}

/// A string written between other bytes is read back at the place where it stands.
pub proof fn lemma_str_at(head: Seq<u8>, text: Seq<char>, tail: Seq<u8>)
    requires
        encode_utf8(text).len() < 0x8000_0000,
    ensures
        str_at(head + str_wire(text) + tail, head.len()) == Ok::<(Seq<char>, nat), ParserError>(
            (text, head.len() + str_wire(text).len()),
        ),
{
    let data = head + str_wire(text) + tail;
    lemma_str_round_trip_after(text, tail);
    assert(data.skip(head.len() as int) =~= str_wire(text) + tail);
}

} // verus!
