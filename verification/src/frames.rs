//! Reading NetworkTables binary frames: each message is a MessagePack array of topic id,
//! timestamp, type tag and value. The MessagePack primitives are read with `rmp`.
use vstd::prelude::*;

use crate::nt::{BinaryData, BinaryMessage};

verus! {

// ---------------------------------------------------------------------------------------------
// Values as the frames carry them
// ---------------------------------------------------------------------------------------------

/// The value a `BinaryData` holds, with strings as their characters.
pub enum BinaryValue {
    Boolean(bool),
    Double(u64),
    Int(i64),
    Float(u32),
    Str(Seq<char>),
    Bin(Seq<u8>),
    BoolArray(Seq<bool>),
    DoubleArray(Seq<u64>),
    IntArray(Seq<i64>),
    FloatArray(Seq<u32>),
    StringArray(Seq<Seq<char>>),
}

impl View for BinaryData {
    type V = BinaryValue;

    open spec fn view(&self) -> BinaryValue {
        match self {
            BinaryData::Boolean(b) => BinaryValue::Boolean(*b),
            BinaryData::Double(d) => BinaryValue::Double(*d),
            BinaryData::Int(i) => BinaryValue::Int(*i),
            BinaryData::Float(f) => BinaryValue::Float(*f),
            BinaryData::Str(s) => BinaryValue::Str(s@),
            BinaryData::Bin(b) => BinaryValue::Bin(b@),
            BinaryData::BoolArray(v) => BinaryValue::BoolArray(v@),
            BinaryData::DoubleArray(v) => BinaryValue::DoubleArray(v@),
            BinaryData::IntArray(v) => BinaryValue::IntArray(v@),
            BinaryData::FloatArray(v) => BinaryValue::FloatArray(v@),
            BinaryData::StringArray(v) => BinaryValue::StringArray(v@.map_values(|s: String| s@)),
        }
    }
}

/// Why a binary frame could not be read.
#[derive(Debug, Clone, Copy, PartialEq, Eq)]
pub enum BinaryMessageError {
    /// An integer could not be read or does not fit its type.
    IntError,
    /// Another MessagePack value could not be read.
    ValueReadError,
    /// The type tag names no known type.
    UnknownDataType(u8),
    /// A string is not UTF-8.
    InvalidUTF8,
    /// The frame ended inside a string or binary value.
    IoError,
    /// A message is not an array of four elements.
    MessageLen(u32),
}

// ---------------------------------------------------------------------------------------------
// MessagePack primitives
// ---------------------------------------------------------------------------------------------

/// The big-endian unsigned value of the `n` bytes of `s` from `off`.
pub open spec fn be_uint(s: Seq<u8>, off: int, n: nat) -> int
    decreases n,
{
    if n == 0 {
        0
    } else {
        be_uint(s, off, (n - 1) as nat) * 256 + s[off + n - 1]
    }
}

/// The two's-complement value of the `n` big-endian bytes of `s` from `off`.
pub open spec fn be_sint(s: Seq<u8>, off: int, n: nat) -> int {
    let u = be_uint(s, off, n);
    if s[off] < 128 {
        u
    } else {
        u - vstd::arithmetic::power2::pow2(8 * n)
    }
}

/// A MessagePack value whose marker byte is followed by `n` data bytes, read by `f`, when `s`
/// holds them all.
pub open spec fn with_data<T>(s: Seq<u8>, n: nat, v: T) -> Option<(T, nat)> {
    if s.len() >= 1 + n {
        Some((v, 1 + n))
    } else {
        None
    }
}

/// The integer a MessagePack integer at the start of `s` encodes, and how many bytes it takes;
/// `None` when `s` does not start with a complete integer. Fixed positive (`0x00`-`0x7f`) and
/// fixed negative (`0xe0`-`0xff`) integers are the marker itself; `0xcc`-`0xcf` are followed
/// by a big-endian unsigned integer of 1, 2, 4 or 8 bytes, `0xd0`-`0xd3` by a signed one.
#[verifier::opaque]
pub open spec fn mp_int(s: Seq<u8>) -> Option<(int, nat)> {
    if s.len() == 0 {
        None
    } else {
        let b = s[0];
        if b <= 0x7f {
            Some((b as int, 1))
        } else if b >= 0xe0 {
            Some((b - 256, 1))
        } else if b == 0xcc {
            with_data(s, 1, be_uint(s, 1, 1))
        } else if b == 0xcd {
            with_data(s, 2, be_uint(s, 1, 2))
        } else if b == 0xce {
            with_data(s, 4, be_uint(s, 1, 4))
        } else if b == 0xcf {
            with_data(s, 8, be_uint(s, 1, 8))
        } else if b == 0xd0 {
            with_data(s, 1, be_sint(s, 1, 1))
        } else if b == 0xd1 {
            with_data(s, 2, be_sint(s, 1, 2))
        } else if b == 0xd2 {
            with_data(s, 4, be_sint(s, 1, 4))
        } else if b == 0xd3 {
            with_data(s, 8, be_sint(s, 1, 8))
        } else {
            None
        }
    }
}

/// The boolean at the start of `s` and its length in bytes, if `s` starts with one: `0xc2` is
/// false and `0xc3` true.
#[verifier::opaque]
pub open spec fn mp_bool(s: Seq<u8>) -> Option<(bool, nat)> {
    if s.len() >= 1 && s[0] == 0xc2 {
        Some((false, 1))
    } else if s.len() >= 1 && s[0] == 0xc3 {
        Some((true, 1))
    } else {
        None
    }
}

/// The bit pattern of the 64-bit float at the start of `s` and its length in bytes, if `s`
/// starts with one: the marker `0xcb` and eight big-endian bytes.
#[verifier::opaque]
pub open spec fn mp_f64_bits(s: Seq<u8>) -> Option<(u64, nat)> {
    if s.len() >= 1 && s[0] == 0xcb {
        with_data(s, 8, be_uint(s, 1, 8) as u64)
    } else {
        None
    }
}

/// The bit pattern of the 32-bit float at the start of `s` and its length in bytes, if `s`
/// starts with one: the marker `0xca` and four big-endian bytes.
#[verifier::opaque]
pub open spec fn mp_f32_bits(s: Seq<u8>) -> Option<(u32, nat)> {
    if s.len() >= 1 && s[0] == 0xca {
        with_data(s, 4, be_uint(s, 1, 4) as u32)
    } else {
        None
    }
}

/// A length header: a fixed-length marker from `fix_lo` to `fix_hi` holds the length in its
/// low bits (`fix_mask`); the markers `m8`, `m16` and `m32` are followed by a big-endian length
/// of 1, 2 or 4 bytes. A marker given as 0 does not occur.
pub open spec fn mp_len(s: Seq<u8>, fix_lo: u8, fix_hi: u8, fix_mask: u8, m8: u8, m16: u8, m32: u8) -> Option<(u32, nat)> {
    if s.len() == 0 {
        None
    } else {
        let b = s[0];
        if fix_lo <= b <= fix_hi && fix_hi != 0 {
            Some(((b & fix_mask) as u32, 1))
        } else if b == m8 && m8 != 0 {
            with_data(s, 1, be_uint(s, 1, 1) as u32)
        } else if b == m16 {
            with_data(s, 2, be_uint(s, 1, 2) as u32)
        } else if b == m32 {
            with_data(s, 4, be_uint(s, 1, 4) as u32)
        } else {
            None
        }
    }
}

/// The length a string header at the start of `s` announces, and the header's length in bytes:
/// `0xa0`-`0xbf` hold it in their low five bits, `0xd9`, `0xda`, `0xdb` are followed by it in
/// 1, 2 or 4 bytes.
#[verifier::opaque]
pub open spec fn mp_str_len(s: Seq<u8>) -> Option<(u32, nat)> {
    mp_len(s, 0xa0, 0xbf, 0x1f, 0xd9, 0xda, 0xdb)
}

/// The length a binary header at the start of `s` announces, and the header's length in bytes:
/// `0xc4`, `0xc5`, `0xc6` are followed by it in 1, 2 or 4 bytes.
#[verifier::opaque]
pub open spec fn mp_bin_len(s: Seq<u8>) -> Option<(u32, nat)> {
    mp_len(s, 0, 0, 0, 0xc4, 0xc5, 0xc6)
}

/// The length an array header at the start of `s` announces, and the header's length in bytes:
/// `0x90`-`0x9f` hold it in their low four bits, `0xdc` and `0xdd` are followed by it in 2 or 4
/// bytes.
#[verifier::opaque]
pub open spec fn mp_array_len(s: Seq<u8>) -> Option<(u32, nat)> {
    mp_len(s, 0x90, 0x9f, 0x0f, 0, 0xdc, 0xdd)
}

/// The characters `b` encodes in UTF-8, if it is valid UTF-8.
pub uninterp spec fn utf8_chars(b: Seq<u8>) -> Option<Seq<char>>;

/// `rmp::decode::read_int` on the bytes from `pos`, read as an `i128`, which holds every
/// MessagePack integer: the value and how many bytes are left after it.
#[verifier::external_body]
fn read_int(bytes: &[u8], pos: usize) -> (r: Result<(i128, usize), ()>)
    requires
        pos <= bytes@.len(),
    ensures
        r matches Ok((v, rest)) ==> rest < bytes@.len() - pos && mp_int(bytes@.skip(pos as int))
            == Some((v as int, (bytes@.len() - pos - rest) as nat)),
        r is Err ==> mp_int(bytes@.skip(pos as int)) is None,
{
    let mut rd = &bytes[pos..];
    match rmp::decode::read_int::<i128, _>(&mut rd) {
        Ok(v) => Ok((v, rd.len())),
        Err(_) => Err(()),
    }
}

/// `rmp::decode::read_bool` on the bytes from `pos`: the value and how many bytes are left.
#[verifier::external_body]
fn read_bool(bytes: &[u8], pos: usize) -> (r: Result<(bool, usize), ()>)
    requires
        pos <= bytes@.len(),
    ensures
        r matches Ok((v, rest)) ==> rest < bytes@.len() - pos && mp_bool(bytes@.skip(pos as int))
            == Some((v, (bytes@.len() - pos - rest) as nat)),
        r is Err ==> mp_bool(bytes@.skip(pos as int)) is None,
{
    let mut rd = &bytes[pos..];
    match rmp::decode::read_bool(&mut rd) {
        Ok(v) => Ok((v, rd.len())),
        Err(_) => Err(()),
    }
}

/// `rmp::decode::read_f64` on the bytes from `pos`, the value taken as its bit pattern, and
/// how many bytes are left.
#[verifier::external_body]
fn read_f64_bits(bytes: &[u8], pos: usize) -> (r: Result<(u64, usize), ()>)
    requires
        pos <= bytes@.len(),
    ensures
        r matches Ok((v, rest)) ==> rest < bytes@.len() - pos && mp_f64_bits(
            bytes@.skip(pos as int),
        ) == Some((v, (bytes@.len() - pos - rest) as nat)),
        r is Err ==> mp_f64_bits(bytes@.skip(pos as int)) is None,
{
    let mut rd = &bytes[pos..];
    match rmp::decode::read_f64(&mut rd) {
        Ok(v) => Ok((v.to_bits(), rd.len())),
        Err(_) => Err(()),
    }
}

/// `rmp::decode::read_f32` on the bytes from `pos`, the value taken as its bit pattern, and
/// how many bytes are left.
#[verifier::external_body]
fn read_f32_bits(bytes: &[u8], pos: usize) -> (r: Result<(u32, usize), ()>)
    requires
        pos <= bytes@.len(),
    ensures
        r matches Ok((v, rest)) ==> rest < bytes@.len() - pos && mp_f32_bits(
            bytes@.skip(pos as int),
        ) == Some((v, (bytes@.len() - pos - rest) as nat)),
        r is Err ==> mp_f32_bits(bytes@.skip(pos as int)) is None,
{
    let mut rd = &bytes[pos..];
    match rmp::decode::read_f32(&mut rd) {
        Ok(v) => Ok((v.to_bits(), rd.len())),
        Err(_) => Err(()),
    }
}

/// `rmp::decode::read_str_len` on the bytes from `pos`: the announced length and how many
/// bytes are left after the header.
#[verifier::external_body]
fn read_str_len(bytes: &[u8], pos: usize) -> (r: Result<(u32, usize), ()>)
    requires
        pos <= bytes@.len(),
    ensures
        r matches Ok((v, rest)) ==> rest < bytes@.len() - pos && mp_str_len(
            bytes@.skip(pos as int),
        ) == Some((v, (bytes@.len() - pos - rest) as nat)),
        r is Err ==> mp_str_len(bytes@.skip(pos as int)) is None,
{
    let mut rd = &bytes[pos..];
    match rmp::decode::read_str_len(&mut rd) {
        Ok(v) => Ok((v, rd.len())),
        Err(_) => Err(()),
    }
}

/// `rmp::decode::read_bin_len` on the bytes from `pos`: the announced length and how many
/// bytes are left after the header.
#[verifier::external_body]
fn read_bin_len(bytes: &[u8], pos: usize) -> (r: Result<(u32, usize), ()>)
    requires
        pos <= bytes@.len(),
    ensures
        r matches Ok((v, rest)) ==> rest < bytes@.len() - pos && mp_bin_len(
            bytes@.skip(pos as int),
        ) == Some((v, (bytes@.len() - pos - rest) as nat)),
        r is Err ==> mp_bin_len(bytes@.skip(pos as int)) is None,
{
    let mut rd = &bytes[pos..];
    match rmp::decode::read_bin_len(&mut rd) {
        Ok(v) => Ok((v, rd.len())),
        Err(_) => Err(()),
    }
}

/// `rmp::decode::read_array_len` on the bytes from `pos`: the announced length and how many
/// bytes are left after the header.
#[verifier::external_body]
fn read_array_len(bytes: &[u8], pos: usize) -> (r: Result<(u32, usize), ()>)
    requires
        pos <= bytes@.len(),
    ensures
        r matches Ok((v, rest)) ==> rest < bytes@.len() - pos && mp_array_len(
            bytes@.skip(pos as int),
        ) == Some((v, (bytes@.len() - pos - rest) as nat)),
        r is Err ==> mp_array_len(bytes@.skip(pos as int)) is None,
{
    let mut rd = &bytes[pos..];
    match rmp::decode::read_array_len(&mut rd) {
        Ok(v) => Ok((v, rd.len())),
        Err(_) => Err(()),
    }
}

/// `String::from_utf8`: the string `data` encodes, if it is valid UTF-8.
#[verifier::external_body]
fn string_from_utf8(data: Vec<u8>) -> (r: Result<String, ()>)
    ensures
        r matches Ok(s) ==> utf8_chars(data@) == Some(s@),
        r is Err ==> utf8_chars(data@) is None,
{
    match String::from_utf8(data) {
        Ok(s) => Ok(s),
        Err(_) => Err(()),
    }
}


// ---------------------------------------------------------------------------------------------
// What a frame holds
// ---------------------------------------------------------------------------------------------

/// An integer of the range of `u8` at the start of `t`.
pub open spec fn u8_elem(t: Seq<u8>) -> Result<(u8, nat), BinaryMessageError> {
    match mp_int(t) {
        Some((x, c)) => if 0 <= x <= u8::MAX {
            Ok((x as u8, c))
        } else {
            Err(BinaryMessageError::IntError)
        },
        None => Err(BinaryMessageError::IntError),
    }
}

/// An integer of the range of `i64` at the start of `t`.
pub open spec fn i64_elem(t: Seq<u8>) -> Result<(i64, nat), BinaryMessageError> {
    match mp_int(t) {
        Some((x, c)) => if i64::MIN <= x <= i64::MAX {
            Ok((x as i64, c))
        } else {
            Err(BinaryMessageError::IntError)
        },
        None => Err(BinaryMessageError::IntError),
    }
}

/// An integer of the range of `u64` at the start of `t`.
pub open spec fn u64_elem(t: Seq<u8>) -> Result<(u64, nat), BinaryMessageError> {
    match mp_int(t) {
        Some((x, c)) => if 0 <= x <= u64::MAX {
            Ok((x as u64, c))
        } else {
            Err(BinaryMessageError::IntError)
        },
        None => Err(BinaryMessageError::IntError),
    }
}

/// A boolean at the start of `t`.
pub open spec fn bool_elem(t: Seq<u8>) -> Result<(bool, nat), BinaryMessageError> {
    match mp_bool(t) {
        Some(p) => Ok(p),
        None => Err(BinaryMessageError::ValueReadError),
    }
}

/// A 64-bit float, as its bit pattern, at the start of `t`.
pub open spec fn f64_elem(t: Seq<u8>) -> Result<(u64, nat), BinaryMessageError> {
    match mp_f64_bits(t) {
        Some(p) => Ok(p),
        None => Err(BinaryMessageError::ValueReadError),
    }
}

/// A 32-bit float, as its bit pattern, at the start of `t`.
pub open spec fn f32_elem(t: Seq<u8>) -> Result<(u32, nat), BinaryMessageError> {
    match mp_f32_bits(t) {
        Some(p) => Ok(p),
        None => Err(BinaryMessageError::ValueReadError),
    }
}

/// A string at the start of `t`: a string header, then that many bytes of UTF-8.
pub open spec fn str_elem(t: Seq<u8>) -> Result<(Seq<char>, nat), BinaryMessageError> {
    match mp_str_len(t) {
        None => Err(BinaryMessageError::ValueReadError),
        Some((len, c)) => if c + len > t.len() {
            Err(BinaryMessageError::IoError)
        } else {
            match utf8_chars(t.subrange(c as int, c + len)) {
                None => Err(BinaryMessageError::InvalidUTF8),
                Some(chars) => Ok((chars, (c + len) as nat)),
            }
        },
    }
}

/// A binary value at the start of `t`: a binary header, then that many bytes.
pub open spec fn bin_elem(t: Seq<u8>) -> Result<(Seq<u8>, nat), BinaryMessageError> {
    match mp_bin_len(t) {
        None => Err(BinaryMessageError::ValueReadError),
        Some((len, c)) => if c + len > t.len() {
            Err(BinaryMessageError::IoError)
        } else {
            Ok((t.subrange(c as int, c + len), (c + len) as nat))
        },
    }
}

/// `n` elements read one after another from the start of `s` by `elem`, and the bytes they
/// take; the first failure is the result.
pub open spec fn parse_list<T>(
    s: Seq<u8>,
    n: nat,
    elem: spec_fn(Seq<u8>) -> Result<(T, nat), BinaryMessageError>,
) -> Result<(Seq<T>, nat), BinaryMessageError>
    decreases n,
{
    if n == 0 {
        Ok((Seq::empty(), 0))
    } else {
        match parse_list(s, (n - 1) as nat, elem) {
            Err(e) => Err(e),
            Ok((xs, c)) => match elem(s.skip(c as int)) {
                Err(e) => Err(e),
                Ok((x, c2)) => Ok((xs.push(x), c + c2)),
            },
        }
    }
}

/// An array at the start of `t`: an array header, then its elements read by `elem`.
pub open spec fn array_of<T>(
    t: Seq<u8>,
    elem: spec_fn(Seq<u8>) -> Result<(T, nat), BinaryMessageError>,
) -> Result<(Seq<T>, nat), BinaryMessageError> {
    match mp_array_len(t) {
        None => Err(BinaryMessageError::ValueReadError),
        Some((len, c)) => match parse_list(t.skip(c as int), len as nat, elem) {
            Err(e) => Err(e),
            Ok((xs, c2)) => Ok((xs, c + c2)),
        },
    }
}

/// Wraps a value read after a type tag of `c` bytes.
pub open spec fn tagged<T>(
    r: Result<(T, nat), BinaryMessageError>,
    c: nat,
    wrap: spec_fn(T) -> BinaryValue,
) -> Result<(BinaryValue, nat), BinaryMessageError> {
    match r {
        Err(e) => Err(e),
        Ok((x, c2)) => Ok((wrap(x), c + c2)),
    }
}

/// The value at the start of `s`: a type tag, then a value of that type; and the bytes it
/// takes.
pub open spec fn parse_data(s: Seq<u8>) -> Result<(BinaryValue, nat), BinaryMessageError> {
    match u8_elem(s) {
        Err(e) => Err(e),
        Ok((ty, c)) => {
            let t = s.skip(c as int);
            if ty == 0 {
                tagged(bool_elem(t), c, |x: bool| BinaryValue::Boolean(x))
            } else if ty == 1 {
                tagged(f64_elem(t), c, |x: u64| BinaryValue::Double(x))
            } else if ty == 2 {
                tagged(i64_elem(t), c, |x: i64| BinaryValue::Int(x))
            } else if ty == 3 {
                tagged(f32_elem(t), c, |x: u32| BinaryValue::Float(x))
            } else if ty == 4 {
                tagged(str_elem(t), c, |x: Seq<char>| BinaryValue::Str(x))
            } else if ty == 5 {
                tagged(bin_elem(t), c, |x: Seq<u8>| BinaryValue::Bin(x))
            } else if ty == 16 {
                tagged(array_of(t, |u: Seq<u8>| bool_elem(u)), c, |x: Seq<bool>| BinaryValue::BoolArray(x))
            } else if ty == 17 {
                tagged(array_of(t, |u: Seq<u8>| f64_elem(u)), c, |x: Seq<u64>| BinaryValue::DoubleArray(x))
            } else if ty == 18 {
                tagged(array_of(t, |u: Seq<u8>| i64_elem(u)), c, |x: Seq<i64>| BinaryValue::IntArray(x))
            } else if ty == 19 {
                tagged(array_of(t, |u: Seq<u8>| f32_elem(u)), c, |x: Seq<u32>| BinaryValue::FloatArray(x))
            } else if ty == 20 {
                tagged(
                    array_of(t, |u: Seq<u8>| str_elem(u)),
                    c,
                    |x: Seq<Seq<char>>| BinaryValue::StringArray(x),
                )
            } else {
                Err(BinaryMessageError::UnknownDataType(ty))
            }
        },
    }
}


/// A message at the start of `s`: an array header announcing four elements, the topic id, the
/// timestamp and the tagged value; and the bytes it takes.
pub open spec fn parse_message(s: Seq<u8>) -> Result<(i64, u64, BinaryValue, nat), BinaryMessageError> {
    match mp_array_len(s) {
        None => Err(BinaryMessageError::ValueReadError),
        Some((len, c)) => if len != 4 {
            Err(BinaryMessageError::MessageLen(len))
        } else {
            match i64_elem(s.skip(c as int)) {
                Err(e) => Err(e),
                Ok((id, c2)) => match u64_elem(s.skip((c + c2) as int)) {
                    Err(e) => Err(e),
                    Ok((timestamp, c3)) => match parse_data(s.skip((c + c2 + c3) as int)) {
                        Err(e) => Err(e),
                        Ok((data, c4)) => Ok((id, timestamp, data, c + c2 + c3 + c4)),
                    },
                },
            }
        },
    }
}

/// Whether a read that started at `pos` and returned `r` (the value and the position after it)
/// did what `expected` (the value and the bytes it takes) says.
pub open spec fn read_as<T>(
    bytes: Seq<u8>,
    pos: int,
    r: Result<(T, usize), BinaryMessageError>,
    expected: Result<(T, nat), BinaryMessageError>,
) -> bool {
    match r {
        Ok((v, next)) => pos <= next <= bytes.len() && expected == Ok::<(T, nat), BinaryMessageError>(
            (v, (next - pos) as nat),
        ),
        Err(e) => expected == Err::<(T, nat), BinaryMessageError>(e),
    }
}

// ---------------------------------------------------------------------------------------------
// Reading
// ---------------------------------------------------------------------------------------------

/// An integer that must fit a `u8`; one out of range fails as `read_int` does for `u8`.
fn elem_u8(bytes: &[u8], pos: usize) -> (r: Result<(u8, usize), BinaryMessageError>)
    requires
        pos <= bytes@.len(),
    ensures
        read_as(bytes@, pos as int, r, u8_elem(bytes@.skip(pos as int))),
{
    match read_int(bytes, pos) {
        Ok((v, rest)) => {
            if 0 <= v && v <= 255 {
                Ok((v as u8, bytes.len() - rest))
            } else {
                Err(BinaryMessageError::IntError)
            }
        },
        Err(()) => Err(BinaryMessageError::IntError),
    }
}

/// An integer that must fit an `i64`.
fn elem_i64(bytes: &[u8], pos: usize) -> (r: Result<(i64, usize), BinaryMessageError>)
    requires
        pos <= bytes@.len(),
    ensures
        read_as(bytes@, pos as int, r, i64_elem(bytes@.skip(pos as int))),
{
    match read_int(bytes, pos) {
        Ok((v, rest)) => {
            if -9223372036854775808 <= v && v <= 9223372036854775807 {
                Ok((v as i64, bytes.len() - rest))
            } else {
                Err(BinaryMessageError::IntError)
            }
        },
        Err(()) => Err(BinaryMessageError::IntError),
    }
}

/// An integer that must fit a `u64`.
fn elem_u64(bytes: &[u8], pos: usize) -> (r: Result<(u64, usize), BinaryMessageError>)
    requires
        pos <= bytes@.len(),
    ensures
        read_as(bytes@, pos as int, r, u64_elem(bytes@.skip(pos as int))),
{
    match read_int(bytes, pos) {
        Ok((v, rest)) => {
            if 0 <= v && v <= 18446744073709551615 {
                Ok((v as u64, bytes.len() - rest))
            } else {
                Err(BinaryMessageError::IntError)
            }
        },
        Err(()) => Err(BinaryMessageError::IntError),
    }
}

fn elem_bool(bytes: &[u8], pos: usize) -> (r: Result<(bool, usize), BinaryMessageError>)
    requires
        pos <= bytes@.len(),
    ensures
        read_as(bytes@, pos as int, r, bool_elem(bytes@.skip(pos as int))),
{
    match read_bool(bytes, pos) {
        Ok((v, rest)) => Ok((v, bytes.len() - rest)),
        Err(()) => Err(BinaryMessageError::ValueReadError),
    }
}

fn elem_f64(bytes: &[u8], pos: usize) -> (r: Result<(u64, usize), BinaryMessageError>)
    requires
        pos <= bytes@.len(),
    ensures
        read_as(bytes@, pos as int, r, f64_elem(bytes@.skip(pos as int))),
{
    match read_f64_bits(bytes, pos) {
        Ok((v, rest)) => Ok((v, bytes.len() - rest)),
        Err(()) => Err(BinaryMessageError::ValueReadError),
    }
}

fn elem_f32(bytes: &[u8], pos: usize) -> (r: Result<(u32, usize), BinaryMessageError>)
    requires
        pos <= bytes@.len(),
    ensures
        read_as(bytes@, pos as int, r, f32_elem(bytes@.skip(pos as int))),
{
    match read_f32_bits(bytes, pos) {
        Ok((v, rest)) => Ok((v, bytes.len() - rest)),
        Err(()) => Err(BinaryMessageError::ValueReadError),
    }
}

/// The bytes from `from` up to `to`.
fn copy_bytes(bytes: &[u8], from: usize, to: usize) -> (v: Vec<u8>)
    requires
        from <= to <= bytes@.len(),
    ensures
        v@ == bytes@.subrange(from as int, to as int),
{
    let mut v: Vec<u8> = Vec::new();
    let mut i = from;
    while i < to
        invariant
            from <= i <= to,
            to <= bytes@.len(),
            v@ == bytes@.subrange(from as int, i as int),
        decreases to - i,
    {
        v.push(bytes[i]);
        i += 1;
        assert(v@ =~= bytes@.subrange(from as int, i as int));
    }
    v
}

/// Reads a header, then checks that the `len` bytes it announces are there: the position of
/// the data and the position after it.
fn data_span(bytes: &[u8], after_header: usize, len: u32) -> (r: Option<usize>)
    requires
        after_header <= bytes@.len(),
    ensures
        r is None <==> after_header + len > bytes@.len(),
        r matches Some(end) ==> end == after_header + len,
{
    if len as usize > bytes.len() - after_header {
        None
    } else {
        Some(after_header + len as usize)
    }
}

fn elem_str(bytes: &[u8], pos: usize) -> (r: Result<(String, usize), BinaryMessageError>)
    requires
        pos <= bytes@.len(),
    ensures
        match r {
            Ok((v, next)) => pos <= next <= bytes@.len() && str_elem(bytes@.skip(pos as int)) == Ok::<
                (Seq<char>, nat),
                BinaryMessageError,
            >((v@, (next - pos) as nat)),
            Err(e) => str_elem(bytes@.skip(pos as int)) == Err::<(Seq<char>, nat), BinaryMessageError>(e),
        },
{
    let (len, rest) = match read_str_len(bytes, pos) {
        Ok(p) => p,
        Err(()) => return Err(BinaryMessageError::ValueReadError),
    };
    let start = bytes.len() - rest;
    let end = match data_span(bytes, start, len) {
        Some(end) => end,
        None => return Err(BinaryMessageError::IoError),
    };
    let data = copy_bytes(bytes, start, end);
    assert(data@ =~= bytes@.skip(pos as int).subrange((start - pos) as int, (start - pos) + len));
    match string_from_utf8(data) {
        Ok(text) => Ok((text, end)),
        Err(()) => Err(BinaryMessageError::InvalidUTF8),
    }
}

fn elem_bin(bytes: &[u8], pos: usize) -> (r: Result<(Vec<u8>, usize), BinaryMessageError>)
    requires
        pos <= bytes@.len(),
    ensures
        match r {
            Ok((v, next)) => pos <= next <= bytes@.len() && bin_elem(bytes@.skip(pos as int)) == Ok::<
                (Seq<u8>, nat),
                BinaryMessageError,
            >((v@, (next - pos) as nat)),
            Err(e) => bin_elem(bytes@.skip(pos as int)) == Err::<(Seq<u8>, nat), BinaryMessageError>(e),
        },
{
    let (len, rest) = match read_bin_len(bytes, pos) {
        Ok(p) => p,
        Err(()) => return Err(BinaryMessageError::ValueReadError),
    };
    let start = bytes.len() - rest;
    let end = match data_span(bytes, start, len) {
        Some(end) => end,
        None => return Err(BinaryMessageError::IoError),
    };
    let data = copy_bytes(bytes, start, end);
    assert(data@ =~= bytes@.skip(pos as int).subrange((start - pos) as int, (start - pos) + len));
    Ok((data, end))
}


/// Once reading the first `k + 1` elements fails, reading any more fails the same way.
proof fn lemma_list_fails_from<T>(
    s: Seq<u8>,
    k: nat,
    n: nat,
    f: spec_fn(Seq<u8>) -> Result<(T, nat), BinaryMessageError>,
)
    requires
        k < n,
        parse_list(s, k, f) is Ok,
        f(s.skip(parse_list(s, k, f)->Ok_0.1 as int)) is Err,
    ensures
        parse_list(s, n, f) == Err::<(Seq<T>, nat), BinaryMessageError>(
            f(s.skip(parse_list(s, k, f)->Ok_0.1 as int))->Err_0,
        ),
    decreases n - k,
{
    if n == k + 1 {
    } else {
        lemma_list_fails_from(s, k, (n - 1) as nat, f);
    }
}

fn list_bool(bytes: &[u8], pos: usize, n: u32) -> (r: Result<(Vec<bool>, usize), BinaryMessageError>)
    requires
        pos <= bytes@.len(),
    ensures
        match r {
            Ok((v, next)) => pos <= next <= bytes@.len() && parse_list(
                bytes@.skip(pos as int),
                n as nat,
                |u: Seq<u8>| bool_elem(u),
            ) == Ok::<(Seq<bool>, nat), BinaryMessageError>((v@, (next - pos) as nat)),
            Err(e) => parse_list(bytes@.skip(pos as int), n as nat, |u: Seq<u8>| bool_elem(u))
                == Err::<(Seq<bool>, nat), BinaryMessageError>(e),
        },
{
    let ghost s = bytes@.skip(pos as int);
    let ghost f = |u: Seq<u8>| bool_elem(u);
    let mut v: Vec<bool> = Vec::new();
    let mut cur = pos;
    let mut k: u32 = 0;
    while k < n
        invariant
            k <= n,
            pos <= cur <= bytes@.len(),
            s == bytes@.skip(pos as int),
            f == (|u: Seq<u8>| bool_elem(u)),
            parse_list(s, k as nat, f) == Ok::<(Seq<bool>, nat), BinaryMessageError>(
                (v@, (cur - pos) as nat),
            ),
        decreases n - k,
    {
        assert(s.skip(cur - pos) =~= bytes@.skip(cur as int));
        match elem_bool(bytes, cur) {
            Ok((x, next)) => {
                v.push(x);
                cur = next;
            },
            Err(e) => {
                proof {
                    lemma_list_fails_from(s, k as nat, n as nat, f);
                }
                return Err(e);
            },
        }
        k += 1;
    }
    Ok((v, cur))
}


fn list_f64(bytes: &[u8], pos: usize, n: u32) -> (r: Result<(Vec<u64>, usize), BinaryMessageError>)
    requires
        pos <= bytes@.len(),
    ensures
        match r {
            Ok((v, next)) => pos <= next <= bytes@.len() && parse_list(
                bytes@.skip(pos as int),
                n as nat,
                |u: Seq<u8>| f64_elem(u),
            ) == Ok::<(Seq<u64>, nat), BinaryMessageError>((v@, (next - pos) as nat)),
            Err(e) => parse_list(bytes@.skip(pos as int), n as nat, |u: Seq<u8>| f64_elem(u))
                == Err::<(Seq<u64>, nat), BinaryMessageError>(e),
        },
{
    let ghost s = bytes@.skip(pos as int);
    let ghost f = |u: Seq<u8>| f64_elem(u);
    let mut v: Vec<u64> = Vec::new();
    let mut cur = pos;
    let mut k: u32 = 0;
    while k < n
        invariant
            k <= n,
            pos <= cur <= bytes@.len(),
            s == bytes@.skip(pos as int),
            f == (|u: Seq<u8>| f64_elem(u)),
            parse_list(s, k as nat, f) == Ok::<(Seq<u64>, nat), BinaryMessageError>(
                (v@, (cur - pos) as nat),
            ),
        decreases n - k,
    {
        assert(s.skip(cur - pos) =~= bytes@.skip(cur as int));
        match elem_f64(bytes, cur) {
            Ok((x, next)) => {
                v.push(x);
                cur = next;
            },
            Err(e) => {
                proof {
                    lemma_list_fails_from(s, k as nat, n as nat, f);
                }
                return Err(e);
            },
        }
        k += 1;
    }
    Ok((v, cur))
}

fn list_i64(bytes: &[u8], pos: usize, n: u32) -> (r: Result<(Vec<i64>, usize), BinaryMessageError>)
    requires
        pos <= bytes@.len(),
    ensures
        match r {
            Ok((v, next)) => pos <= next <= bytes@.len() && parse_list(
                bytes@.skip(pos as int),
                n as nat,
                |u: Seq<u8>| i64_elem(u),
            ) == Ok::<(Seq<i64>, nat), BinaryMessageError>((v@, (next - pos) as nat)),
            Err(e) => parse_list(bytes@.skip(pos as int), n as nat, |u: Seq<u8>| i64_elem(u))
                == Err::<(Seq<i64>, nat), BinaryMessageError>(e),
        },
{
    let ghost s = bytes@.skip(pos as int);
    let ghost f = |u: Seq<u8>| i64_elem(u);
    let mut v: Vec<i64> = Vec::new();
    let mut cur = pos;
    let mut k: u32 = 0;
    while k < n
        invariant
            k <= n,
            pos <= cur <= bytes@.len(),
            s == bytes@.skip(pos as int),
            f == (|u: Seq<u8>| i64_elem(u)),
            parse_list(s, k as nat, f) == Ok::<(Seq<i64>, nat), BinaryMessageError>(
                (v@, (cur - pos) as nat),
            ),
        decreases n - k,
    {
        assert(s.skip(cur - pos) =~= bytes@.skip(cur as int));
        match elem_i64(bytes, cur) {
            Ok((x, next)) => {
                v.push(x);
                cur = next;
            },
            Err(e) => {
                proof {
                    lemma_list_fails_from(s, k as nat, n as nat, f);
                }
                return Err(e);
            },
        }
        k += 1;
    }
    Ok((v, cur))
}

fn list_f32(bytes: &[u8], pos: usize, n: u32) -> (r: Result<(Vec<u32>, usize), BinaryMessageError>)
    requires
        pos <= bytes@.len(),
    ensures
        match r {
            Ok((v, next)) => pos <= next <= bytes@.len() && parse_list(
                bytes@.skip(pos as int),
                n as nat,
                |u: Seq<u8>| f32_elem(u),
            ) == Ok::<(Seq<u32>, nat), BinaryMessageError>((v@, (next - pos) as nat)),
            Err(e) => parse_list(bytes@.skip(pos as int), n as nat, |u: Seq<u8>| f32_elem(u))
                == Err::<(Seq<u32>, nat), BinaryMessageError>(e),
        },
{
    let ghost s = bytes@.skip(pos as int);
    let ghost f = |u: Seq<u8>| f32_elem(u);
    let mut v: Vec<u32> = Vec::new();
    let mut cur = pos;
    let mut k: u32 = 0;
    while k < n
        invariant
            k <= n,
            pos <= cur <= bytes@.len(),
            s == bytes@.skip(pos as int),
            f == (|u: Seq<u8>| f32_elem(u)),
            parse_list(s, k as nat, f) == Ok::<(Seq<u32>, nat), BinaryMessageError>(
                (v@, (cur - pos) as nat),
            ),
        decreases n - k,
    {
        assert(s.skip(cur - pos) =~= bytes@.skip(cur as int));
        match elem_f32(bytes, cur) {
            Ok((x, next)) => {
                v.push(x);
                cur = next;
            },
            Err(e) => {
                proof {
                    lemma_list_fails_from(s, k as nat, n as nat, f);
                }
                return Err(e);
            },
        }
        k += 1;
    }
    Ok((v, cur))
}

fn list_str(bytes: &[u8], pos: usize, n: u32) -> (r: Result<(Vec<String>, usize), BinaryMessageError>)
    requires
        pos <= bytes@.len(),
    ensures
        match r {
            Ok((v, next)) => pos <= next <= bytes@.len() && parse_list(
                bytes@.skip(pos as int),
                n as nat,
                |u: Seq<u8>| str_elem(u),
            ) == Ok::<(Seq<Seq<char>>, nat), BinaryMessageError>(
                (v@.map_values(|t: String| t@), (next - pos) as nat),
            ),
            Err(e) => parse_list(bytes@.skip(pos as int), n as nat, |u: Seq<u8>| str_elem(u))
                == Err::<(Seq<Seq<char>>, nat), BinaryMessageError>(e),
        },
{
    let ghost s = bytes@.skip(pos as int);
    let ghost f = |u: Seq<u8>| str_elem(u);
    let mut v: Vec<String> = Vec::new();
    assert(v@.map_values(|t: String| t@) =~= Seq::<Seq<char>>::empty());
    let mut cur = pos;
    let mut k: u32 = 0;
    while k < n
        invariant
            k <= n,
            pos <= cur <= bytes@.len(),
            s == bytes@.skip(pos as int),
            f == (|u: Seq<u8>| str_elem(u)),
            parse_list(s, k as nat, f) == Ok::<(Seq<Seq<char>>, nat), BinaryMessageError>(
                (v@.map_values(|t: String| t@), (cur - pos) as nat),
            ),
        decreases n - k,
    {
        assert(s.skip(cur - pos) =~= bytes@.skip(cur as int));
        match elem_str(bytes, cur) {
            Ok((x, next)) => {
                let ghost before = v@;
                v.push(x);
                assert(v@.map_values(|t: String| t@) =~= before.map_values(|t: String| t@).push(
                    x@,
                ));
                cur = next;
            },
            Err(e) => {
                proof {
                    lemma_list_fails_from(s, k as nat, n as nat, f);
                }
                return Err(e);
            },
        }
        k += 1;
    }
    Ok((v, cur))
}


/// An array header at `pos`: the announced length and the position after the header.
fn array_header(bytes: &[u8], pos: usize) -> (r: Result<(u32, usize), BinaryMessageError>)
    requires
        pos <= bytes@.len(),
    ensures
        match r {
            Ok((len, next)) => pos < next <= bytes@.len() && mp_array_len(bytes@.skip(pos as int))
                == Some((len, (next - pos) as nat)),
            Err(e) => e == BinaryMessageError::ValueReadError && mp_array_len(
                bytes@.skip(pos as int),
            ) is None,
        },
{
    match read_array_len(bytes, pos) {
        Ok((len, rest)) => Ok((len, bytes.len() - rest)),
        Err(()) => Err(BinaryMessageError::ValueReadError),
    }
}

impl BinaryData {
    /// Reads a type tag and the value that follows it from `bytes`, starting at `pos`.
    /// Returns the value and the position after it; see `parse_data` for what is read and
    /// which error a malformed value gives.
    pub fn from_reader(bytes: &[u8], pos: usize) -> (r: Result<(BinaryData, usize), BinaryMessageError>)
        requires
            pos <= bytes@.len(),
        ensures
            match r {
                Ok((d, next)) => pos <= next <= bytes@.len() && parse_data(bytes@.skip(pos as int))
                    == Ok::<(BinaryValue, nat), BinaryMessageError>((d@, (next - pos) as nat)),
                Err(e) => parse_data(bytes@.skip(pos as int)) == Err::<
                    (BinaryValue, nat),
                    BinaryMessageError,
                >(e),
            },
    {
        let ghost s = bytes@.skip(pos as int);
        let (ty, at) = match elem_u8(bytes, pos) {
            Ok(p) => p,
            Err(e) => return Err(e),
        };
        let ghost t = s.skip(at - pos);
        assert(t =~= bytes@.skip(at as int));
        if ty == 0 {
            match elem_bool(bytes, at) {
                Ok((x, next)) => Ok((BinaryData::Boolean(x), next)),
                Err(e) => Err(e),
            }
        } else if ty == 1 {
            match elem_f64(bytes, at) {
                Ok((x, next)) => Ok((BinaryData::Double(x), next)),
                Err(e) => Err(e),
            }
        } else if ty == 2 {
            match elem_i64(bytes, at) {
                Ok((x, next)) => Ok((BinaryData::Int(x), next)),
                Err(e) => Err(e),
            }
        } else if ty == 3 {
            match elem_f32(bytes, at) {
                Ok((x, next)) => Ok((BinaryData::Float(x), next)),
                Err(e) => Err(e),
            }
        } else if ty == 4 {
            match elem_str(bytes, at) {
                Ok((x, next)) => Ok((BinaryData::Str(x), next)),
                Err(e) => Err(e),
            }
        } else if ty == 5 {
            match elem_bin(bytes, at) {
                Ok((x, next)) => Ok((BinaryData::Bin(x), next)),
                Err(e) => Err(e),
            }
        } else if 16 <= ty && ty <= 20 {
            let (len, body) = match array_header(bytes, at) {
                Ok(p) => p,
                Err(e) => return Err(e),
            };
            assert(t.skip(body - at) =~= bytes@.skip(body as int));
            if ty == 16 {
                match list_bool(bytes, body, len) {
                    Ok((v, next)) => Ok((BinaryData::BoolArray(v), next)),
                    Err(e) => Err(e),
                }
            } else if ty == 17 {
                match list_f64(bytes, body, len) {
                    Ok((v, next)) => Ok((BinaryData::DoubleArray(v), next)),
                    Err(e) => Err(e),
                }
            } else if ty == 18 {
                match list_i64(bytes, body, len) {
                    Ok((v, next)) => Ok((BinaryData::IntArray(v), next)),
                    Err(e) => Err(e),
                }
            } else if ty == 19 {
                match list_f32(bytes, body, len) {
                    Ok((v, next)) => Ok((BinaryData::FloatArray(v), next)),
                    Err(e) => Err(e),
                }
            } else {
                match list_str(bytes, body, len) {
                    Ok((v, next)) => Ok((BinaryData::StringArray(v), next)),
                    Err(e) => Err(e),
                }
            }
        } else {
            Err(BinaryMessageError::UnknownDataType(ty))
        }
    }
}

impl BinaryMessage {
    /// Reads one message from `bytes`, starting at `pos`: an array of four elements holding the
    /// topic id, the timestamp, and the tagged value. Returns the message and the position
    /// after it; see `parse_message` for what is read and which error a malformed message
    /// gives.
    pub fn from_reader(bytes: &[u8], pos: usize) -> (r: Result<(BinaryMessage, usize), BinaryMessageError>)
        requires
            pos <= bytes@.len(),
        ensures
            match r {
                Ok((m, next)) => pos < next <= bytes@.len() && parse_message(bytes@.skip(pos as int))
                    == Ok::<(i64, u64, BinaryValue, nat), BinaryMessageError>(
                    (m.id, m.timestamp, m.data@, (next - pos) as nat),
                ),
                Err(e) => parse_message(bytes@.skip(pos as int)) == Err::<
                    (i64, u64, BinaryValue, nat),
                    BinaryMessageError,
                >(e),
            },
    {
        let ghost s = bytes@.skip(pos as int);
        let (len, at) = match array_header(bytes, pos) {
            Ok(p) => p,
            Err(e) => return Err(e),
        };
        if len != 4 {
            return Err(BinaryMessageError::MessageLen(len));
        }
        assert(s.skip(at - pos) =~= bytes@.skip(at as int));
        let (id, at2) = match elem_i64(bytes, at) {
            Ok(p) => p,
            Err(e) => return Err(e),
        };
        assert(s.skip(at2 - pos) =~= bytes@.skip(at2 as int));
        let (timestamp, at3) = match elem_u64(bytes, at2) {
            Ok(p) => p,
            Err(e) => return Err(e),
        };
        assert(s.skip(at3 - pos) =~= bytes@.skip(at3 as int));
        match BinaryData::from_reader(bytes, at3) {
            Ok((data, next)) => Ok((BinaryMessage { id, timestamp, data }, next)),
            Err(e) => Err(e),
        }
    }
}

/// What a message reads as: its id, timestamp and value.
pub open spec fn message_view(m: BinaryMessage) -> (i64, u64, BinaryValue) {
    (m.id, m.timestamp, m.data@)
}

/// The messages a binary frame `s` holds, read one after another until it ends, and how the
/// reading ended: `Ok` at the end of the frame, or the error of the first malformed message,
/// after the messages read before it.
pub open spec fn parse_frame(s: Seq<u8>) -> (Seq<(i64, u64, BinaryValue)>, Result<(), BinaryMessageError>)
    decreases s.len(),
{
    if s.len() == 0 {
        (Seq::empty(), Ok(()))
    } else {
        match parse_message(s) {
            Err(e) => (Seq::empty(), Err(e)),
            Ok((id, timestamp, value, c)) => if 0 < c <= s.len() {
                let rest = parse_frame(s.skip(c as int));
                (seq![(id, timestamp, value)] + rest.0, rest.1)
            } else {
                (seq![(id, timestamp, value)], Ok(()))
            },
        }
    }
}

/// Reads every message of a binary frame, in order, until the frame ends or a message is
/// malformed; returns the messages read and how the reading ended (see `parse_frame`).
pub fn read_frame(frame: &[u8]) -> (r: (Vec<BinaryMessage>, Result<(), BinaryMessageError>))
    ensures
        (r.0@.map_values(|m: BinaryMessage| message_view(m)), r.1) == parse_frame(frame@),
{
    let mut out: Vec<BinaryMessage> = Vec::new();
    let mut pos: usize = 0;
    proof {
        assert(frame@.skip(0) =~= frame@);
    }
    while pos < frame.len()
        invariant
            pos <= frame@.len(),
            parse_frame(frame@) == (out@.map_values(|m: BinaryMessage| message_view(m)) + parse_frame(
                frame@.skip(pos as int),
            ).0, parse_frame(frame@.skip(pos as int)).1),
        decreases frame@.len() - pos,
    {
        let ghost before = out@;
        match BinaryMessage::from_reader(frame, pos) {
            Ok((m, next)) => {
                proof {
                    let s = frame@.skip(pos as int);
                    assert(s.skip(next - pos) =~= frame@.skip(next as int));
                    assert(out@.map_values(|m: BinaryMessage| message_view(m)).push(message_view(m))
                        =~= out@.push(m).map_values(|m: BinaryMessage| message_view(m)));
                    assert(out@.map_values(|m: BinaryMessage| message_view(m)) + (seq![message_view(m)]
                        + parse_frame(frame@.skip(next as int)).0) =~= out@.push(m).map_values(
                        |m: BinaryMessage| message_view(m),
                    ) + parse_frame(frame@.skip(next as int)).0);
                }
                out.push(m);
                pos = next;
            },
            Err(e) => {
                proof {
                    assert(out@.map_values(|m: BinaryMessage| message_view(m)) + Seq::<(i64, u64, BinaryValue)>::empty()
                        =~= out@.map_values(|m: BinaryMessage| message_view(m)));
                }
                return (out, Err(e));
            },
        }
    }
    proof {
        assert(frame@.skip(pos as int) =~= Seq::<u8>::empty());
        assert(out@.map_values(|m: BinaryMessage| message_view(m)) + Seq::<(i64, u64, BinaryValue)>::empty()
            =~= out@.map_values(|m: BinaryMessage| message_view(m)));
    }
    (out, Ok(()))
}

} // verus!
