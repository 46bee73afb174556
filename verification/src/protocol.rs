//! The navX-MXP serial and binary protocol: little-endian field codecs, ASCII hex codecs,
//! checksums and message framing.
use vstd::prelude::*;

verus! {

pub const PACKET_START_CHAR: u8 = 33;
pub const BINARY_PACKET_INDICATOR_CHAR: u8 = 35;
pub const CHECKSUM_LENGTH: i32 = 2;
pub const TERMINATOR_LENGTH: i32 = 2;
pub const PROTOCOL_FLOAT_LENGTH: i32 = 7;

// ---------------------------------------------------------------------------------------------
// Little-endian integer fields
// ---------------------------------------------------------------------------------------------

/// The unsigned 16-bit value stored little-endian at `off`.
pub open spec fn le_u16(s: Seq<u8>, off: int) -> u16 {
    (s[off] + 256 * s[off + 1]) as u16
}

/// The unsigned 32-bit value stored little-endian at `off`.
pub open spec fn le_u32(s: Seq<u8>, off: int) -> u32 {
    (s[off] + 256 * s[off + 1] + 65536 * s[off + 2] + 16777216 * s[off + 3]) as u32
}

/// The two's-complement 16-bit value stored little-endian at `off`.
pub open spec fn le_i16(s: Seq<u8>, off: int) -> i16 {
    let u = s[off] + 256 * s[off + 1];
    if u < 32768 {
        u as i16
    } else {
        (u - 65536) as i16
    }
}

/// The 16-bit two's-complement bit pattern of `v`.
pub open spec fn i16_bits(v: i16) -> u16 {
    if v >= 0 {
        v as u16
    } else {
        (v + 65536) as u16
    }
}

/// `s` with the bytes of `v` written little-endian at `off`.
pub open spec fn put_u16(s: Seq<u8>, off: int, v: u16) -> Seq<u8> {
    s.update(off, (v % 256) as u8).update(off + 1, (v / 256) as u8)
}

/// `s` with the bytes of `v` written little-endian at `off`.
pub open spec fn put_u32(s: Seq<u8>, off: int, v: u32) -> Seq<u8> {
    s.update(off, (v % 256) as u8).update(off + 1, ((v / 256) % 256) as u8).update(
        off + 2,
        ((v / 65536) % 256) as u8,
    ).update(off + 3, (v / 16777216) as u8)
}

/// Reads the little-endian `u16` at `offset`.
pub fn decode_u16(buffer: &[u8], offset: usize) -> (r: u16)
    requires
        offset + 2 <= buffer@.len(),
    ensures
        r == le_u16(buffer@, offset as int),
{
    buffer[offset] as u16 + (buffer[offset + 1] as u16) * 256
}

/// Writes `val` little-endian at `offset`.
pub fn encode_u16(val: u16, buffer: &mut [u8], offset: usize)
    requires
        offset + 2 <= old(buffer)@.len(),
    ensures
        final(buffer)@ == put_u16(old(buffer)@, offset as int, val),
{
    buffer[offset] = (val % 256) as u8;
    buffer[offset + 1] = (val / 256) as u8;
}

/// Reads the little-endian `u32` at `offset`.
pub fn decode_u32(buffer: &[u8], offset: usize) -> (r: u32)
    requires
        offset + 4 <= buffer@.len(),
    ensures
        r == le_u32(buffer@, offset as int),
{
    buffer[offset] as u32 + (buffer[offset + 1] as u32) * 256 + (buffer[offset + 2] as u32) * 65536
        + (buffer[offset + 3] as u32) * 16777216
}

/// Writes `val` little-endian at `offset`.
pub fn encode_u32(val: u32, buffer: &mut [u8], offset: usize)
    requires
        offset + 4 <= old(buffer)@.len(),
    ensures
        final(buffer)@ == put_u32(old(buffer)@, offset as int, val),
{
    buffer[offset] = (val % 256) as u8;
    buffer[offset + 1] = ((val / 256) % 256) as u8;
    buffer[offset + 2] = ((val / 65536) % 256) as u8;
    buffer[offset + 3] = (val / 16777216) as u8;
}

/// Reads the little-endian two's-complement `i16` at `offset`.
pub fn decode_i16(buffer: &[u8], offset: usize) -> (r: i16)
    requires
        offset + 2 <= buffer@.len(),
    ensures
        r == le_i16(buffer@, offset as int),
{
    let u = decode_u16(buffer, offset);
    if u < 32768 {
        u as i16
    } else {
        (u as i32 - 65536) as i16
    }
}

/// Writes `val` little-endian, in two's complement, at `offset`.
pub fn encode_i16(val: i16, buffer: &mut [u8], offset: usize)
    requires
        offset + 2 <= old(buffer)@.len(),
    ensures
        final(buffer)@ == put_u16(old(buffer)@, offset as int, i16_bits(val)),
{
    let bits: u16 = if val >= 0 {
        val as u16
    } else {
        (val as i32 + 65536) as u16
    };
    encode_u16(bits, buffer, offset);
}

/// Reading a `u16` back where one was written gives the value written.
pub proof fn lemma_u16_roundtrip(s: Seq<u8>, off: int, v: u16)
    requires
        0 <= off,
        off + 2 <= s.len(),
    ensures
        le_u16(put_u16(s, off, v), off) == v,
{
}

/// Reading a `u32` back where one was written gives the value written.
pub proof fn lemma_u32_roundtrip(s: Seq<u8>, off: int, v: u32)
    requires
        0 <= off,
        off + 4 <= s.len(),
    ensures
        le_u32(put_u32(s, off, v), off) == v,
{
}

/// Reading an `i16` back where one was written gives the value written.
pub proof fn lemma_i16_roundtrip(s: Seq<u8>, off: int, v: i16)
    requires
        0 <= off,
        off + 2 <= s.len(),
    ensures
        le_i16(put_u16(s, off, i16_bits(v)), off) == v,
{
}

// ---------------------------------------------------------------------------------------------
// ASCII hex fields and checksums
// ---------------------------------------------------------------------------------------------

/// The upper-case ASCII hex digit for a nibble.
pub open spec fn hex_char(n: int) -> u8 {
    if n < 10 {
        (48 + n) as u8
    } else {
        (55 + n) as u8
    }
}

/// The digit value the decoder assigns to the character `c`: `c - '0'` for characters up to
/// `'9'` and `c - 'A' + 10` for the others, computed modulo 256.
pub open spec fn hex_digit_value(c: u8) -> u8 {
    if c <= 57 {
        ((c - 48) % 256) as u8
    } else {
        ((c - 55) % 256) as u8
    }
}

/// The two hex characters of a byte, high nibble first.
pub open spec fn hex_byte(b: u8) -> Seq<u8> {
    seq![hex_char((b / 16) as int), hex_char((b % 16) as int)]
}

/// Sum of the bytes of `s`.
pub open spec fn byte_sum(s: Seq<u8>) -> nat
    decreases s.len(),
{
    if s.len() == 0 {
        0
    } else {
        byte_sum(s.drop_last()) + s.last() as nat
    }
}

/// The checksum of a message body: the sum of its bytes modulo 256.
pub open spec fn checksum_of(s: Seq<u8>) -> u8 {
    (byte_sum(s) % 256) as u8
}

/// The value `decode_u16_hex` reads from the four characters at `off`, modulo 2^16.
pub open spec fn hex_u16_value(s: Seq<u8>, off: int) -> u16 {
    ((hex_digit_value(s[off]) * 4096 + hex_digit_value(s[off + 1]) * 256 + hex_digit_value(
        s[off + 2],
    ) * 16 + hex_digit_value(s[off + 3])) % 65536) as u16
}

/// The value `decode_u8_hex` reads from the two characters at `off`, high nibble first, modulo
/// 256.
pub open spec fn hex_u8_value(s: Seq<u8>, off: int) -> u8 {
    ((hex_digit_value(s[off]) * 16 + hex_digit_value(s[off + 1])) % 256) as u8
}

/// Whether the checksum field after `content_length` bytes at `off` matches their sum.
pub open spec fn checksum_matches(s: Seq<u8>, off: int, content_length: int) -> bool {
    checksum_of(s.subrange(off, off + content_length)) == hex_u8_value(s, off + content_length)
}

fn hex_digit(n: u8) -> (c: u8)
    requires
        n < 16,
    ensures
        c == hex_char(n as int),
{
    if n < 10 {
        48 + n
    } else {
        55 + n
    }
}

fn digit_value(c: u8) -> (d: u8)
    ensures
        d == hex_digit_value(c),
{
    if c <= 57 {
        c.wrapping_sub(48)
    } else {
        c.wrapping_sub(65).wrapping_add(10)
    }
}

/// Writes the two upper-case hex characters of `thebyte` at `offset`.
pub fn byte_to_hex(thebyte: u8, dest: &mut [u8], offset: usize)
    requires
        offset + 2 <= old(dest)@.len(),
    ensures
        final(dest)@ == old(dest)@.update(offset as int, hex_char((thebyte / 16) as int)).update(
            offset + 1,
            hex_char((thebyte % 16) as int),
        ),
{
    let v = thebyte;
    dest[offset] = hex_digit(v / 16);
    dest[offset + 1] = hex_digit(v % 16);
}

/// Reads four hex characters at `offset` as a 16-bit value, high nibble first.
pub fn decode_u16_hex(uint16_string: &[u8], offset: usize) -> (r: u16)
    requires
        offset + 4 <= uint16_string@.len(),
    ensures
        r == hex_u16_value(uint16_string@, offset as int),
{
    let d0 = digit_value(uint16_string[offset]) as u32;
    let d1 = digit_value(uint16_string[offset + 1]) as u32;
    let d2 = digit_value(uint16_string[offset + 2]) as u32;
    let d3 = digit_value(uint16_string[offset + 3]) as u32;
    ((d0 * 4096 + d1 * 256 + d2 * 16 + d3) % 65536) as u16
}

/// Reads the checksum byte from the two hex characters at `offset`, high nibble first.
pub fn decode_u8_hex(checksum: &[u8], offset: usize) -> (r: u8)
    requires
        offset + 2 <= checksum@.len(),
    ensures
        r == hex_u8_value(checksum@, offset as int),
{
    let first_digit = digit_value(checksum[offset]);
    let second_digit = digit_value(checksum[offset + 1]);
    ((first_digit as u32 * 16 + second_digit as u32) % 256) as u8
}

proof fn lemma_byte_sum_step(s: Seq<u8>, lo: int, i: int)
    requires
        0 <= lo <= i < s.len(),
    ensures
        byte_sum(s.subrange(lo, i + 1)) == byte_sum(s.subrange(lo, i)) + s[i],
{
    assert(s.subrange(lo, i + 1).drop_last() =~= s.subrange(lo, i));
}

fn sum_bytes(buffer: &[u8], offset: usize, content_length: usize) -> (r: u8)
    requires
        offset + content_length <= buffer@.len(),
    ensures
        r == checksum_of(buffer@.subrange(offset as int, offset + content_length)),
{
    let _ = buffer.len();
    let mut checksum: u8 = 0;
    let mut i: usize = 0;
    while i < content_length
        invariant
            i <= content_length,
            buffer@.len() <= usize::MAX,
            offset + content_length <= buffer@.len(),
            checksum == checksum_of(buffer@.subrange(offset as int, offset + i)),
        decreases content_length - i,
    {
        proof {
            lemma_byte_sum_step(buffer@, offset as int, offset + i);
        }
        checksum = checksum.wrapping_add(buffer[offset + i]);
        i += 1;
    }
    checksum
}

/// Whether the checksum field after the `content_length` bytes at `offset` matches their sum.
pub fn verify_checksum(buffer: &[u8], offset: usize, content_length: usize) -> (r: bool)
    requires
        offset + content_length + 1 < buffer@.len(),
    ensures
        r == checksum_matches(buffer@, offset as int, content_length as int),
{
    let _ = buffer.len();
    let checksum = sum_bytes(buffer, offset, content_length);
    let decoded_checksum = decode_u8_hex(buffer, offset + content_length);
    checksum == decoded_checksum
}

// ---------------------------------------------------------------------------------------------
// Message framing
// ---------------------------------------------------------------------------------------------

/// A complete message: its body, the two hex characters of the body's checksum, then CR LF.
pub open spec fn frame(body: Seq<u8>) -> Seq<u8> {
    body + hex_byte(checksum_of(body)) + seq![13u8, 10u8]
}

/// Whether `encode_termination` writes anything for these lengths.
pub open spec fn termination_fits(total_length: int, content_length: int) -> bool {
    total_length >= CHECKSUM_LENGTH + TERMINATOR_LENGTH && total_length >= content_length
        + CHECKSUM_LENGTH + TERMINATOR_LENGTH
}

/// Appends the checksum of the first `content_length` bytes and the CR LF terminator, when the
/// message of `total_length` bytes has room for them; otherwise leaves the buffer unchanged.
pub fn encode_termination(buffer: &mut [u8], total_length: usize, content_length: usize)
    requires
        content_length + 4 <= usize::MAX,
        termination_fits(total_length as int, content_length as int) ==> content_length + 4
            <= old(buffer)@.len(),
    ensures
        termination_fits(total_length as int, content_length as int) ==> final(buffer)@ == frame(
            old(buffer)@.subrange(0, content_length as int),
        ) + old(buffer)@.subrange(content_length + 4, old(buffer)@.len() as int),
        !termination_fits(total_length as int, content_length as int) ==> final(buffer)@ == old(
            buffer,
        )@,
{
    if total_length >= 4 && total_length >= content_length + 4 {
        let ghost orig = buffer@;
        let checksum = sum_bytes(buffer, 0, content_length);
        byte_to_hex(checksum, buffer, content_length);
        buffer[content_length + 2] = 13;
        buffer[content_length + 3] = 10;
        assert(buffer@ =~= frame(orig.subrange(0, content_length as int)) + orig.subrange(
            content_length + 4,
            orig.len() as int,
        ));
    }
}

// ---------------------------------------------------------------------------------------------
// Message layouts
// ---------------------------------------------------------------------------------------------

/// Message id of the enable-stream command (`'S'`).
pub const MSGID_STREAM_CMD: u8 = 83;
pub const STREAM_CMD_STREAM_TYPE_INDEX: i32 = 2;
pub const STREAM_CMD_UPDATE_RATE_HZ_INDEX: i32 = 3;
pub const STREAM_CMD_CHECKSUM_INDEX: i32 = 5;
pub const STREAM_CMD_TERMINATOR_INDEX: i32 = 7;
pub const STREAM_CMD_MESSAGE_LENGTH: i32 = 9;

/// Message id of the data-get request (`'D'`).
pub const MSGID_DATA_REQUEST: u8 = 68;
pub const DATA_REQUEST_DATATYPE_VALUE_INDEX: i32 = 4;
pub const DATA_REQUEST_VARIABLEID_VALUE_INDEX: i32 = 5;
pub const DATA_REQUEST_CHECKSUM_INDEX: i32 = 6;
pub const DATA_REQUEST_TERMINATOR_INDEX: i32 = 8;
pub const DATA_REQUEST_MESSAGE_LENGTH: i32 = 10;

/// Message id of the data-set response (`'v'`).
pub const MSGID_DATA_SET_RESPONSE: u8 = 118;
pub const DATA_SET_RESPONSE_DATATYPE_VALUE_INDEX: i32 = 4;
pub const DATA_SET_RESPONSE_VARID_VALUE_INDEX: i32 = 5;
pub const DATA_SET_RESPONSE_STATUS_VALUE_INDEX: i32 = 6;
pub const DATA_SET_RESPONSE_MESSAGE_CHECKSUM_INDEX: i32 = 7;
pub const DATA_SET_RESPONSE_MESSAGE_TERMINATOR_INDEX: i32 = 9;
pub const DATA_SET_RESPONSE_MESSAGE_LENGTH: i32 = 11;

/// Message id of the integration-control command (`'I'`).
pub const MSGID_INTEGRATION_CONTROL_CMD: u8 = 73;
pub const INTEGRATION_CONTROL_CMD_ACTION_INDEX: i32 = 4;
pub const INTEGRATION_CONTROL_CMD_PARAMETER_INDEX: i32 = 5;
pub const INTEGRATION_CONTROL_CMD_MESSAGE_CHECKSUM_INDEX: i32 = 9;
pub const INTEGRATION_CONTROL_CMD_MESSAGE_TERMINATOR_INDEX: i32 = 11;
pub const INTEGRATION_CONTROL_CMD_MESSAGE_LENGTH: i32 = 13;

/// Message id of the integration-control response (`'j'`).
pub const MSGID_INTEGRATION_CONTROL_RESP: u8 = 106;
pub const INTEGRATION_CONTROL_RESP_ACTION_INDEX: i32 = 4;
pub const INTEGRATION_CONTROL_RESP_PARAMETER_INDEX: i32 = 5;
pub const INTEGRATION_CONTROL_RESP_MESSAGE_CHECKSUM_INDEX: i32 = 9;
pub const INTEGRATION_CONTROL_RESP_MESSAGE_TERMINATOR_INDEX: i32 = 11;
pub const INTEGRATION_CONTROL_RESP_MESSAGE_LENGTH: i32 = 13;

/// Message id of the board-identity response (`'i'`).
pub const MSGID_BOARD_IDENTITY_RESPONSE: u8 = 105;
pub const BOARD_IDENTITY_BOARDTYPE_VALUE_INDEX: i32 = 4;
pub const BOARD_IDENTITY_HWREV_VALUE_INDEX: i32 = 5;
pub const BOARD_IDENTITY_FW_VER_MAJOR: i32 = 6;
pub const BOARD_IDENTITY_FW_VER_MINOR: i32 = 7;
pub const BOARD_IDENTITY_FW_VER_REVISION_VALUE_INDEX: i32 = 8;
pub const BOARD_IDENTITY_UNIQUE_ID_0: i32 = 10;
pub const BOARD_IDENTITY_RESPONSE_CHECKSUM_INDEX: i32 = 22;
pub const BOARD_IDENTITY_RESPONSE_TERMINATOR_INDEX: i32 = 24;
pub const BOARD_IDENTITY_RESPONSE_MESSAGE_LENGTH: i32 = 26;

/// The reads of an ASCII decoder stay inside `s`: it reads the start character, then (if it
/// matched) the message id, then (if that matched too) up to and including the first checksum
/// character at `checksum_index`.
pub open spec fn ascii_reads_fit(s: Seq<u8>, off: int, msgid: u8, checksum_index: int) -> bool {
    &&& 0 <= off < s.len()
    &&& s[off] == PACKET_START_CHAR ==> {
        &&& off + 1 < s.len()
        &&& s[off + 1] == msgid ==> off + checksum_index + 1 < s.len()
    }
}

/// The ASCII header `!<msgid>` stands at `off`.
pub open spec fn ascii_header_at(s: Seq<u8>, off: int, msgid: u8) -> bool {
    &&& 0 <= off
    &&& off + 2 <= s.len()
    &&& s[off] == PACKET_START_CHAR
    &&& s[off + 1] == msgid
}

/// The reads of a binary decoder stay inside `s`: it reads the header bytes in order while they
/// match `!#<len><msgid>`, and after a full match everything up to and including the first
/// checksum character at `checksum_index`.
pub open spec fn binary_reads_fit(
    s: Seq<u8>,
    off: int,
    len_byte: u8,
    msgid: u8,
    checksum_index: int,
) -> bool {
    &&& 0 <= off < s.len()
    &&& s[off] == PACKET_START_CHAR ==> {
        &&& off + 1 < s.len()
        &&& s[off + 1] == BINARY_PACKET_INDICATOR_CHAR ==> {
            &&& off + 2 < s.len()
            &&& s[off + 2] == len_byte ==> {
                &&& off + 3 < s.len()
                &&& s[off + 3] == msgid ==> off + checksum_index + 1 < s.len()
            }
        }
    }
}

/// The binary header `!#<len><msgid>` stands at `off`.
pub open spec fn binary_header_at(s: Seq<u8>, off: int, len_byte: u8, msgid: u8) -> bool {
    &&& 0 <= off
    &&& off + 4 <= s.len()
    &&& s[off] == PACKET_START_CHAR
    &&& s[off + 1] == BINARY_PACKET_INDICATOR_CHAR
    &&& s[off + 2] == len_byte
    &&& s[off + 3] == msgid
}

/// Whether a decoder given `length` available bytes accepts the message at `off`: the buffer is
/// long enough, the header matches and the checksum matches.
pub open spec fn binary_accepts(
    s: Seq<u8>,
    off: int,
    length: int,
    msg_len: int,
    msgid: u8,
    checksum_index: int,
) -> bool {
    &&& length >= msg_len
    &&& binary_header_at(s, off, (msg_len - 2) as u8, msgid)
    &&& checksum_matches(s, off, checksum_index)
}

fn binary_header_matches(buffer: &[u8], offset: usize, len_byte: u8, msgid: u8, checksum_index: usize) -> (r: bool)
    requires
        binary_reads_fit(buffer@, offset as int, len_byte, msgid, checksum_index as int),
    ensures
        r == binary_header_at(buffer@, offset as int, len_byte, msgid),
{
    buffer[offset + 0] == PACKET_START_CHAR && buffer[offset + 1] == BINARY_PACKET_INDICATOR_CHAR
        && buffer[offset + 2] == len_byte && buffer[offset + 3] == msgid
}

/// The body of an enable-stream command.
pub open spec fn stream_command_body(stream_type: u8, update_rate_hz: u8) -> Seq<u8> {
    seq![PACKET_START_CHAR, MSGID_STREAM_CMD, stream_type] + hex_byte(update_rate_hz)
}

/// A decoded enable-stream command.
#[derive(Debug, Clone, Copy, Default, PartialEq, Eq)]
pub struct StreamCommand {
    pub stream_type: u8,
}

/// Writes an enable-stream command into the first nine bytes of `protocol_buffer` and returns
/// its length.
pub fn encode_stream_command(protocol_buffer: &mut [u8], stream_type: u8, update_rate_hz: u8) -> (r:
    i32)
    requires
        old(protocol_buffer)@.len() >= STREAM_CMD_MESSAGE_LENGTH,
    ensures
        r == STREAM_CMD_MESSAGE_LENGTH,
        final(protocol_buffer)@ == frame(stream_command_body(stream_type, update_rate_hz)) + old(
            protocol_buffer,
        )@.subrange(STREAM_CMD_MESSAGE_LENGTH as int, old(protocol_buffer)@.len() as int),
{
    let ghost orig = protocol_buffer@;
    protocol_buffer[0] = PACKET_START_CHAR;
    protocol_buffer[1] = MSGID_STREAM_CMD;
    protocol_buffer[2] = stream_type;
    byte_to_hex(update_rate_hz, protocol_buffer, 3);
    assert(protocol_buffer@.subrange(0, 5) =~= stream_command_body(stream_type, update_rate_hz));
    let ghost mid = protocol_buffer@;
    encode_termination(protocol_buffer, 9, 5);
    assert(protocol_buffer@ =~= frame(stream_command_body(stream_type, update_rate_hz)) + orig.subrange(
        9,
        orig.len() as int,
    ));
    STREAM_CMD_MESSAGE_LENGTH
}

/// Decodes an enable-stream command at `offset`. Returns the message length and fills `c` when
/// the buffer holds at least a full message and header and checksum match; otherwise returns 0
/// and leaves `c` unchanged.
pub fn decode_stream_command(buffer: &[u8], offset: usize, length: usize, c: &mut StreamCommand) -> (r:
    i32)
    requires
        length >= STREAM_CMD_MESSAGE_LENGTH ==> ascii_reads_fit(
            buffer@,
            offset as int,
            MSGID_STREAM_CMD,
            STREAM_CMD_CHECKSUM_INDEX as int,
        ),
    ensures
        r == (if length >= STREAM_CMD_MESSAGE_LENGTH && ascii_header_at(
            buffer@,
            offset as int,
            MSGID_STREAM_CMD,
        ) && checksum_matches(buffer@, offset as int, STREAM_CMD_CHECKSUM_INDEX as int) {
            STREAM_CMD_MESSAGE_LENGTH
        } else {
            0
        }),
        r != 0 ==> *final(c) == (StreamCommand { stream_type: buffer@[offset + 2] }),
        r == 0 ==> *final(c) == *old(c),
{
    let _ = buffer.len();
    if length < 9 {
        return 0;
    }
    if buffer[offset + 0] == PACKET_START_CHAR && buffer[offset + 1] == MSGID_STREAM_CMD {
        if !verify_checksum(buffer, offset, 5) {
            return 0;
        }
        c.stream_type = buffer[offset + 2];
        return STREAM_CMD_MESSAGE_LENGTH;
    }
    return 0;
}

/// The body of a data-get request.
pub open spec fn data_get_request_body(ty: u8, var_id: u8) -> Seq<u8> {
    seq![
        PACKET_START_CHAR,
        BINARY_PACKET_INDICATOR_CHAR,
        (DATA_REQUEST_MESSAGE_LENGTH - 2) as u8,
        MSGID_DATA_REQUEST,
        ty,
        var_id,
    ]
}

/// Writes a request for a tuning variable, the magnetometer calibration or the board identity
/// into the first ten bytes of `buffer` and returns its length.
pub fn encode_data_get_request(buffer: &mut [u8], ty: u8, var_id: u8) -> (r: i32)
    requires
        old(buffer)@.len() >= DATA_REQUEST_MESSAGE_LENGTH,
    ensures
        r == DATA_REQUEST_MESSAGE_LENGTH,
        final(buffer)@ == frame(data_get_request_body(ty, var_id)) + old(buffer)@.subrange(
            DATA_REQUEST_MESSAGE_LENGTH as int,
            old(buffer)@.len() as int,
        ),
{
    let ghost orig = buffer@;
    buffer[0] = PACKET_START_CHAR;
    buffer[1] = BINARY_PACKET_INDICATOR_CHAR;
    buffer[2] = 8;
    buffer[3] = MSGID_DATA_REQUEST;
    buffer[4] = ty;
    buffer[5] = var_id;
    assert(buffer@.subrange(0, 6) =~= data_get_request_body(ty, var_id));
    encode_termination(buffer, 10, 6);
    assert(buffer@ =~= frame(data_get_request_body(ty, var_id)) + orig.subrange(10, orig.len() as int));
    DATA_REQUEST_MESSAGE_LENGTH
}

/// An integration-control command or response: an action and its parameter.
#[derive(Debug, Clone, Copy, Default, PartialEq, Eq)]
pub struct IntegrationControl {
    pub action: u8,
    pub parameter: u32,
}

/// The body of an integration-control command.
pub open spec fn integration_control_body(action: u8, parameter: u32) -> Seq<u8> {
    put_u32(
        seq![
            PACKET_START_CHAR,
            BINARY_PACKET_INDICATOR_CHAR,
            (INTEGRATION_CONTROL_CMD_MESSAGE_LENGTH - 2) as u8,
            MSGID_INTEGRATION_CONTROL_CMD,
            action,
            0u8,
            0u8,
            0u8,
            0u8,
        ],
        INTEGRATION_CONTROL_CMD_PARAMETER_INDEX as int,
        parameter,
    )
}

/// Writes an integration-control command into the first thirteen bytes of `buffer` and returns
/// its length.
pub fn encode_integration_control_cmd(buffer: &mut [u8], u: &IntegrationControl) -> (r: i32)
    requires
        old(buffer)@.len() >= INTEGRATION_CONTROL_CMD_MESSAGE_LENGTH,
    ensures
        r == INTEGRATION_CONTROL_CMD_MESSAGE_LENGTH,
        final(buffer)@ == frame(integration_control_body(u.action, u.parameter)) + old(
            buffer,
        )@.subrange(INTEGRATION_CONTROL_CMD_MESSAGE_LENGTH as int, old(buffer)@.len() as int),
{
    let ghost orig = buffer@;
    buffer[0] = PACKET_START_CHAR;
    buffer[1] = BINARY_PACKET_INDICATOR_CHAR;
    buffer[2] = 11;
    buffer[3] = MSGID_INTEGRATION_CONTROL_CMD;
    buffer[4] = u.action;
    encode_u32(u.parameter, buffer, 5);
    assert(buffer@.subrange(0, 9) =~= integration_control_body(u.action, u.parameter));
    encode_termination(buffer, 13, 9);
    assert(buffer@ =~= frame(integration_control_body(u.action, u.parameter)) + orig.subrange(
        13,
        orig.len() as int,
    ));
    INTEGRATION_CONTROL_CMD_MESSAGE_LENGTH
}

/// Decodes an integration-control response at `offset`. Returns the message length and fills
/// `u` when the buffer holds a full message whose header and checksum match; otherwise returns
/// 0 and leaves `u` unchanged.
pub fn decode_integration_control_response(
    buffer: &[u8],
    offset: usize,
    length: usize,
    u: &mut IntegrationControl,
) -> (r: i32)
    requires
        length >= INTEGRATION_CONTROL_RESP_MESSAGE_LENGTH ==> binary_reads_fit(
            buffer@,
            offset as int,
            11,
            MSGID_INTEGRATION_CONTROL_RESP,
            INTEGRATION_CONTROL_RESP_MESSAGE_CHECKSUM_INDEX as int,
        ),
    ensures
        r == (if binary_accepts(
            buffer@,
            offset as int,
            length as int,
            INTEGRATION_CONTROL_RESP_MESSAGE_LENGTH as int,
            MSGID_INTEGRATION_CONTROL_RESP,
            INTEGRATION_CONTROL_RESP_MESSAGE_CHECKSUM_INDEX as int,
        ) {
            INTEGRATION_CONTROL_RESP_MESSAGE_LENGTH
        } else {
            0
        }),
        r != 0 ==> *final(u) == (IntegrationControl {
            action: buffer@[offset + 4],
            parameter: le_u32(buffer@, offset + 5),
        }),
        r == 0 ==> *final(u) == *old(u),
        r != 0 ==> final(u).action == buffer@[offset + INTEGRATION_CONTROL_RESP_ACTION_INDEX],
        r != 0 ==> final(u).parameter == le_u32(buffer@, offset + INTEGRATION_CONTROL_RESP_PARAMETER_INDEX),
{
    let _ = buffer.len();
    if length < 13 {
        return 0;
    }
    if binary_header_matches(buffer, offset, 11, MSGID_INTEGRATION_CONTROL_RESP, 9) {
        if !verify_checksum(buffer, offset, 9) {
            return 0;
        }
        u.action = buffer[offset + 4];
        u.parameter = decode_u32(buffer, offset + 5);
        return INTEGRATION_CONTROL_RESP_MESSAGE_LENGTH;
    }
    return 0;
}

/// The response to storing a tuning variable or the magnetometer calibration.
#[derive(Debug, Clone, Copy, Default, PartialEq, Eq)]
pub struct DataSetResponse {
    pub data_type: u8,
    pub var_id: u8,
    pub status: u8,
}

/// Decodes a data-set response at `offset`. Returns the message length and fills `d` when the
/// buffer holds a full message whose header and checksum match; otherwise returns 0 and leaves
/// `d` unchanged.
pub fn decode_data_set_response(
    buffer: &[u8],
    offset: usize,
    length: usize,
    d: &mut DataSetResponse,
) -> (r: i32)
    requires
        length >= DATA_SET_RESPONSE_MESSAGE_LENGTH ==> binary_reads_fit(
            buffer@,
            offset as int,
            9,
            MSGID_DATA_SET_RESPONSE,
            DATA_SET_RESPONSE_MESSAGE_CHECKSUM_INDEX as int,
        ),
    ensures
        r == (if binary_accepts(
            buffer@,
            offset as int,
            length as int,
            DATA_SET_RESPONSE_MESSAGE_LENGTH as int,
            MSGID_DATA_SET_RESPONSE,
            DATA_SET_RESPONSE_MESSAGE_CHECKSUM_INDEX as int,
        ) {
            DATA_SET_RESPONSE_MESSAGE_LENGTH
        } else {
            0
        }),
        r != 0 ==> *final(d) == (DataSetResponse {
            data_type: buffer@[offset + 4],
            var_id: buffer@[offset + 5],
            status: buffer@[offset + 6],
        }),
        r == 0 ==> *final(d) == *old(d),
        r != 0 ==> final(d).data_type == buffer@[offset + DATA_SET_RESPONSE_DATATYPE_VALUE_INDEX],
        r != 0 ==> final(d).var_id == buffer@[offset + DATA_SET_RESPONSE_VARID_VALUE_INDEX],
        r != 0 ==> final(d).status == buffer@[offset + DATA_SET_RESPONSE_STATUS_VALUE_INDEX],
{
    let _ = buffer.len();
    if length < 11 {
        return 0;
    }
    if binary_header_matches(buffer, offset, 9, MSGID_DATA_SET_RESPONSE, 7) {
        if !verify_checksum(buffer, offset, 7) {
            return 0;
        }
        d.data_type = buffer[offset + 4];
        d.var_id = buffer[offset + 5];
        d.status = buffer[offset + 6];
        return DATA_SET_RESPONSE_MESSAGE_LENGTH;
    }
    return 0;
}

/// The identity of a navX board.
#[derive(Debug, Clone, Copy, Default, PartialEq, Eq)]
pub struct BoardID {
    pub ty: u8,
    pub hw_rev: u8,
    pub fw_ver_major: u8,
    pub fw_ver_minor: u8,
    pub fw_revision: u16,
    pub unique_id: [u8; 12],
}

/// Decodes a board-identity response at `offset`. Returns the message length and fills `id`
/// when the buffer holds a full message whose header and checksum match; otherwise returns 0
/// and leaves `id` unchanged.
pub fn decode_board_idget_response(buffer: &[u8], offset: usize, length: usize, id: &mut BoardID) -> (r:
    i32)
    requires
        length >= BOARD_IDENTITY_RESPONSE_MESSAGE_LENGTH ==> binary_reads_fit(
            buffer@,
            offset as int,
            24,
            MSGID_BOARD_IDENTITY_RESPONSE,
            BOARD_IDENTITY_RESPONSE_CHECKSUM_INDEX as int,
        ),
    ensures
        r == (if binary_accepts(
            buffer@,
            offset as int,
            length as int,
            BOARD_IDENTITY_RESPONSE_MESSAGE_LENGTH as int,
            MSGID_BOARD_IDENTITY_RESPONSE,
            BOARD_IDENTITY_RESPONSE_CHECKSUM_INDEX as int,
        ) {
            BOARD_IDENTITY_RESPONSE_MESSAGE_LENGTH
        } else {
            0
        }),
        r != 0 ==> {
            &&& final(id).ty == buffer@[offset + 4]
            &&& final(id).hw_rev == buffer@[offset + 5]
            &&& final(id).fw_ver_major == buffer@[offset + 6]
            &&& final(id).fw_ver_minor == buffer@[offset + 7]
            &&& final(id).fw_revision == le_u16(buffer@, offset + 8)
            &&& final(id).unique_id@ == buffer@.subrange(offset + 10, offset + 22)
        },
        r == 0 ==> *final(id) == *old(id),
        r != 0 ==> final(id).ty == buffer@[offset + BOARD_IDENTITY_BOARDTYPE_VALUE_INDEX],
        r != 0 ==> final(id).hw_rev == buffer@[offset + BOARD_IDENTITY_HWREV_VALUE_INDEX],
        r != 0 ==> final(id).fw_ver_major == buffer@[offset + BOARD_IDENTITY_FW_VER_MAJOR],
        r != 0 ==> final(id).fw_ver_minor == buffer@[offset + BOARD_IDENTITY_FW_VER_MINOR],
        r != 0 ==> final(id).fw_revision == le_u16(buffer@, offset + BOARD_IDENTITY_FW_VER_REVISION_VALUE_INDEX),
{
    let _ = buffer.len();
    if length < 26 {
        return 0;
    }
    if binary_header_matches(buffer, offset, 24, MSGID_BOARD_IDENTITY_RESPONSE, 22) {
        if !verify_checksum(buffer, offset, 22) {
            return 0;
        }
        id.ty = buffer[offset + 4];
        id.hw_rev = buffer[offset + 5];
        id.fw_ver_major = buffer[offset + 6];
        id.fw_ver_minor = buffer[offset + 7];
        id.fw_revision = decode_u16(buffer, offset + 8);
        let mut i: usize = 0;
        while i < 12
            invariant
                i <= 12,
                offset + 22 < buffer@.len(),
                buffer@.len() <= usize::MAX,
                id.unique_id@.len() == 12,
                forall|j: int| 0 <= j < i ==> id.unique_id@[j] == buffer@[offset + 10 + j],
                id.ty == buffer@[offset + 4],
                id.hw_rev == buffer@[offset + 5],
                id.fw_ver_major == buffer@[offset + 6],
                id.fw_ver_minor == buffer@[offset + 7],
                id.fw_revision == le_u16(buffer@, offset + 8),
            decreases 12 - i,
        {
            id.unique_id[i] = buffer[offset + 10 + i];
            i += 1;
        }
        assert(id.unique_id@ =~= buffer@.subrange(offset + 10, offset + 22));
        return BOARD_IDENTITY_RESPONSE_MESSAGE_LENGTH;
    }
    return 0;
}

// ---------------------------------------------------------------------------------------------
// AHRS updates
// ---------------------------------------------------------------------------------------------

/// Message id of the AHRS update (`'a'`).
pub const MSGID_AHRS_UPDATE: u8 = 97;
pub const AHRS_UPDATE_YAW_VALUE_INDEX: i32 = 4;
pub const AHRS_UPDATE_PITCH_VALUE_INDEX: i32 = 6;
pub const AHRS_UPDATE_ROLL_VALUE_INDEX: i32 = 8;
pub const AHRS_UPDATE_HEADING_VALUE_INDEX: i32 = 10;
pub const AHRS_UPDATE_ALTITUDE_VALUE_INDEX: i32 = 12;
pub const AHRS_UPDATE_FUSED_HEADING_VALUE_INDEX: i32 = 16;
pub const AHRS_UPDATE_LINEAR_ACCEL_X_VALUE_INDEX: i32 = 18;
pub const AHRS_UPDATE_LINEAR_ACCEL_Y_VALUE_INDEX: i32 = 20;
pub const AHRS_UPDATE_LINEAR_ACCEL_Z_VALUE_INDEX: i32 = 22;
pub const AHRS_UPDATE_CAL_MAG_X_VALUE_INDEX: i32 = 24;
pub const AHRS_UPDATE_CAL_MAG_Y_VALUE_INDEX: i32 = 26;
pub const AHRS_UPDATE_CAL_MAG_Z_VALUE_INDEX: i32 = 28;
pub const AHRS_UPDATE_CAL_MAG_NORM_RATIO_VALUE_INDEX: i32 = 30;
pub const AHRS_UPDATE_CAL_MAG_SCALAR_VALUE_INDEX: i32 = 32;
pub const AHRS_UPDATE_MPU_TEMP_VAUE_INDEX: i32 = 36;
pub const AHRS_UPDATE_RAW_MAG_X_VALUE_INDEX: i32 = 38;
pub const AHRS_UPDATE_RAW_MAG_Y_VALUE_INDEX: i32 = 40;
pub const AHRS_UPDATE_RAW_MAG_Z_VALUE_INDEX: i32 = 42;
pub const AHRS_UPDATE_QUAT_W_VALUE_INDEX: i32 = 44;
pub const AHRS_UPDATE_QUAT_X_VALUE_INDEX: i32 = 46;
pub const AHRS_UPDATE_QUAT_Y_VALUE_INDEX: i32 = 48;
pub const AHRS_UPDATE_QUAT_Z_VALUE_INDEX: i32 = 50;
pub const AHRS_UPDATE_BARO_PRESSURE_VALUE_INDEX: i32 = 52;
pub const AHRS_UPDATE_OPSTATUS_VALUE_INDEX: i32 = 58;
pub const AHRS_UPDATE_SENSOR_STATUS_VALUE_INDEX: i32 = 59;
pub const AHRS_UPDATE_CAL_STATUS_VALUE_INDEX: i32 = 60;
pub const AHRS_UPDATE_SELFTEST_STATUS_VALUE_INDEX: i32 = 61;
pub const AHRS_UPDATE_MESSAGE_CHECKSUM_INDEX: i32 = 62;
pub const AHRS_UPDATE_MESSAGE_TERMINATOR_INDEX: i32 = 64;
pub const AHRS_UPDATE_MESSAGE_LENGTH: i32 = 66;

/// Message id of the AHRS-and-positioning update (`'p'`).
pub const MSGID_AHRSPOS_UPDATE: u8 = 112;
pub const AHRSPOS_UPDATE_MESSAGE_CHECKSUM_INDEX: i32 = 62;
pub const AHRSPOS_UPDATE_MESSAGE_TERMINATOR_INDEX: i32 = 64;
pub const AHRSPOS_UPDATE_MESSAGE_LENGTH: i32 = 66;

/// Message id of the timestamped AHRS-and-positioning update (`'t'`).
pub const MSGID_AHRSPOS_TS_UPDATE: u8 = 116;
pub const AHRSPOS_TS_UPDATE_MESSAGE_CHECKSUM_INDEX: i32 = 90;
pub const AHRSPOS_TS_UPDATE_MESSAGE_TERMINATOR_INDEX: i32 = 92;
pub const AHRSPOS_TS_UPDATE_MESSAGE_LENGTH: i32 = 94;

/// Message id of the timestamped AHRS-and-positioning update with raw data (`'u'`).
pub const MSGID_AHRSPOS_TS_RAW_UPDATE: u8 = 117;
pub const AHRSPOS_TS_RAW_UPDATE_MESSAGE_CHECKSUM_INDEX: i32 = 110;
pub const AHRSPOS_TS_RAW_UPDATE_MESSAGE_TERMINATOR_INDEX: i32 = 112;
pub const AHRSPOS_TS_RAW_UPDATE_MESSAGE_LENGTH: i32 = 114;

pub const MAX_BINARY_MESSAGE_LENGTH: i32 = 114;

/// A real-valued field as the protocol carries it: the wire integer together with its
/// encoding. `to_f32` style conversions happen at the edge of the library.
#[derive(Debug, Clone, Copy, PartialEq, Eq)]
pub enum ProtocolFloat {
    /// Signed hundredths, read as an `i16` (divide by 100).
    SignedHundredths(i16),
    /// Unsigned hundredths, read as a `u16` (divide by 100).
    UnsignedHundredths(u16),
    /// Thousandths, read as a `u16` (divide by 1000).
    Thousandths(u16),
    /// 16:16 fixed point, read as a `u32` (divide by 65536).
    Fixed1616(u32),
    /// A quaternion component read as an `i16` (divide by 32768).
    QuaternionI16(i16),
    /// A quaternion component in 16:16 fixed point read as a `u32` (divide by 65536, then by
    /// 32768).
    QuaternionFixed1616(u32),
    /// A decimal number written as seven ASCII characters.
    Text([u8; 7]),
}

impl Default for ProtocolFloat {
    fn default() -> (r: Self)
        ensures
            r == ProtocolFloat::Fixed1616(0),
    {
        ProtocolFloat::Fixed1616(0)
    }
}

/// The orientation and status fields shared by all AHRS updates.
#[derive(Debug, Clone, Copy, Default, PartialEq, Eq)]
pub struct AHRSUpdateBase {
    pub yaw: ProtocolFloat,
    pub pitch: ProtocolFloat,
    pub roll: ProtocolFloat,
    pub compass_heading: ProtocolFloat,
    pub altitude: ProtocolFloat,
    pub fused_heading: ProtocolFloat,
    pub linear_accel_x: ProtocolFloat,
    pub linear_accel_y: ProtocolFloat,
    pub linear_accel_z: ProtocolFloat,
    pub mpu_temp: ProtocolFloat,
    pub quat_w: ProtocolFloat,
    pub quat_x: ProtocolFloat,
    pub quat_y: ProtocolFloat,
    pub quat_z: ProtocolFloat,
    pub barometric_pressure: ProtocolFloat,
    pub op_status: u8,
    pub sensor_status: u8,
    pub cal_status: u8,
    pub selftest_status: u8,
}

/// An AHRS update: orientation plus magnetometer data.
#[derive(Debug, Clone, Copy, Default, PartialEq, Eq)]
pub struct AHRSUpdate {
    pub base: AHRSUpdateBase,
    pub cal_mag_x: i16,
    pub cal_mag_y: i16,
    pub cal_mag_z: i16,
    pub mag_field_norm_ratio: ProtocolFloat,
    pub mag_field_norm_scalar: ProtocolFloat,
    pub raw_mag_x: i16,
    pub raw_mag_y: i16,
    pub raw_mag_z: i16,
}

/// Velocity and displacement from an AHRS-and-positioning update.
#[derive(Debug, Clone, Copy, Default, PartialEq, Eq)]
pub struct AHRSPosUpdate {
    pub vel_x: ProtocolFloat,
    pub vel_y: ProtocolFloat,
    pub vel_z: ProtocolFloat,
    pub disp_x: ProtocolFloat,
    pub disp_y: ProtocolFloat,
    pub disp_z: ProtocolFloat,
}

/// Positioning data with the sensor timestamp in milliseconds.
#[derive(Debug, Clone, Copy, Default, PartialEq, Eq)]
pub struct AHRSPosTSUpdate {
    pub pos: AHRSPosUpdate,
    pub timestamp: u32,
}

/// Timestamped positioning data with raw gyro and accelerometer readings in device units.
#[derive(Debug, Clone, Copy, Default, PartialEq, Eq)]
pub struct AHRSPosTSRawUpdate {
    pub pos: AHRSPosTSUpdate,
    pub raw_gyro_x: i16,
    pub raw_gyro_y: i16,
    pub raw_gyro_z: i16,
    pub accel_x: i16,
    pub accel_y: i16,
    pub accel_z: i16,
    pub delta_t_sec: ProtocolFloat,
    pub gyro_bias_updated: bool,
}

/// The fields of an AHRS update message at `off`.
pub open spec fn ahrs_update_at(s: Seq<u8>, off: int) -> AHRSUpdate {
    AHRSUpdate {
        base: AHRSUpdateBase {
            yaw: ProtocolFloat::SignedHundredths(le_i16(s, off + 4)),
            pitch: ProtocolFloat::SignedHundredths(le_i16(s, off + 8)),
            roll: ProtocolFloat::SignedHundredths(le_i16(s, off + 6)),
            compass_heading: ProtocolFloat::UnsignedHundredths(le_u16(s, off + 10)),
            altitude: ProtocolFloat::Fixed1616(le_u32(s, off + 12)),
            fused_heading: ProtocolFloat::UnsignedHundredths(le_u16(s, off + 16)),
            linear_accel_x: ProtocolFloat::Thousandths(le_u16(s, off + 18)),
            linear_accel_y: ProtocolFloat::Thousandths(le_u16(s, off + 20)),
            linear_accel_z: ProtocolFloat::Thousandths(le_u16(s, off + 22)),
            mpu_temp: ProtocolFloat::SignedHundredths(le_i16(s, off + 36)),
            quat_w: ProtocolFloat::QuaternionI16(le_i16(s, off + 44)),
            quat_x: ProtocolFloat::QuaternionI16(le_i16(s, off + 46)),
            quat_y: ProtocolFloat::QuaternionI16(le_i16(s, off + 48)),
            quat_z: ProtocolFloat::QuaternionI16(le_i16(s, off + 50)),
            barometric_pressure: ProtocolFloat::Fixed1616(le_u32(s, off + 52)),
            op_status: s[off + 58],
            sensor_status: s[off + 59],
            cal_status: s[off + 60],
            selftest_status: s[off + 61],
        },
        cal_mag_x: le_i16(s, off + 24),
        cal_mag_y: le_i16(s, off + 26),
        cal_mag_z: le_i16(s, off + 28),
        mag_field_norm_ratio: ProtocolFloat::UnsignedHundredths(le_u16(s, off + 30)),
        mag_field_norm_scalar: ProtocolFloat::Fixed1616(le_u32(s, off + 32)),
        raw_mag_x: le_i16(s, off + 38),
        raw_mag_y: le_i16(s, off + 40),
        raw_mag_z: le_i16(s, off + 42),
    }
}

/// Field positions within the other messages.
pub const QUATERNION_UPDATE_ACCEL_X_VALUE_INDEX: i32 = 18;
pub const QUATERNION_UPDATE_ACCEL_Y_VALUE_INDEX: i32 = 22;
pub const QUATERNION_UPDATE_ACCEL_Z_VALUE_INDEX: i32 = 26;
pub const QUATERNION_UPDATE_MAG_X_VALUE_INDEX: i32 = 30;
pub const QUATERNION_UPDATE_MAG_Y_VALUE_INDEX: i32 = 34;
pub const QUATERNION_UPDATE_MAG_Z_VALUE_INDEX: i32 = 38;
pub const QUATERNION_UPDATE_QUAT1_VALUE_INDEX: i32 = 2;
pub const QUATERNION_UPDATE_QUAT2_VALUE_INDEX: i32 = 6;
pub const QUATERNION_UPDATE_QUAT3_VALUE_INDEX: i32 = 10;
pub const QUATERNION_UPDATE_QUAT4_VALUE_INDEX: i32 = 14;

/// Field positions within the AHRS-and-positioning messages.
pub const AHRSPOS_UPDATE_YAW_VALUE_INDEX: i32 = 4;
pub const AHRSPOS_UPDATE_PITCH_VALUE_INDEX: i32 = 6;
pub const AHRSPOS_UPDATE_ROLL_VALUE_INDEX: i32 = 8;
pub const AHRSPOS_UPDATE_HEADING_VALUE_INDEX: i32 = 10;
pub const AHRSPOS_UPDATE_ALTITUDE_VALUE_INDEX: i32 = 12;
pub const AHRSPOS_UPDATE_FUSED_HEADING_VALUE_INDEX: i32 = 16;
pub const AHRSPOS_UPDATE_LINEAR_ACCEL_X_VALUE_INDEX: i32 = 18;
pub const AHRSPOS_UPDATE_LINEAR_ACCEL_Y_VALUE_INDEX: i32 = 20;
pub const AHRSPOS_UPDATE_LINEAR_ACCEL_Z_VALUE_INDEX: i32 = 22;
pub const AHRSPOS_UPDATE_VEL_X_VALUE_INDEX: i32 = 24;
pub const AHRSPOS_UPDATE_VEL_Y_VALUE_INDEX: i32 = 28;
pub const AHRSPOS_UPDATE_VEL_Z_VALUE_INDEX: i32 = 32;
pub const AHRSPOS_UPDATE_DISP_X_VALUE_INDEX: i32 = 36;
pub const AHRSPOS_UPDATE_DISP_Y_VALUE_INDEX: i32 = 40;
pub const AHRSPOS_UPDATE_DISP_Z_VALUE_INDEX: i32 = 44;
pub const AHRSPOS_UPDATE_QUAT_W_VALUE_INDEX: i32 = 48;
pub const AHRSPOS_UPDATE_QUAT_X_VALUE_INDEX: i32 = 50;
pub const AHRSPOS_UPDATE_QUAT_Y_VALUE_INDEX: i32 = 52;
pub const AHRSPOS_UPDATE_QUAT_Z_VALUE_INDEX: i32 = 54;
pub const AHRSPOS_UPDATE_MPU_TEMP_VAUE_INDEX: i32 = 56;
pub const AHRSPOS_UPDATE_OPSTATUS_VALUE_INDEX: i32 = 58;
pub const AHRSPOS_UPDATE_SENSOR_STATUS_VALUE_INDEX: i32 = 59;
pub const AHRSPOS_UPDATE_CAL_STATUS_VALUE_INDEX: i32 = 60;
pub const AHRSPOS_UPDATE_SELFTEST_STATUS_VALUE_INDEX: i32 = 61;
pub const AHRSPOS_TS_UPDATE_YAW_VALUE_INDEX: i32 = 4;
pub const AHRSPOS_TS_UPDATE_PITCH_VALUE_INDEX: i32 = 8;
pub const AHRSPOS_TS_UPDATE_ROLL_VALUE_INDEX: i32 = 12;
pub const AHRSPOS_TS_UPDATE_HEADING_VALUE_INDEX: i32 = 16;
pub const AHRSPOS_TS_UPDATE_ALTITUDE_VALUE_INDEX: i32 = 20;
pub const AHRSPOS_TS_UPDATE_FUSED_HEADING_VALUE_INDEX: i32 = 24;
pub const AHRSPOS_TS_UPDATE_LINEAR_ACCEL_X_VALUE_INDEX: i32 = 28;
pub const AHRSPOS_TS_UPDATE_LINEAR_ACCEL_Y_VALUE_INDEX: i32 = 32;
pub const AHRSPOS_TS_UPDATE_LINEAR_ACCEL_Z_VALUE_INDEX: i32 = 36;
pub const AHRSPOS_TS_UPDATE_VEL_X_VALUE_INDEX: i32 = 40;
pub const AHRSPOS_TS_UPDATE_VEL_Y_VALUE_INDEX: i32 = 44;
pub const AHRSPOS_TS_UPDATE_VEL_Z_VALUE_INDEX: i32 = 48;
pub const AHRSPOS_TS_UPDATE_DISP_X_VALUE_INDEX: i32 = 52;
pub const AHRSPOS_TS_UPDATE_DISP_Y_VALUE_INDEX: i32 = 56;
pub const AHRSPOS_TS_UPDATE_DISP_Z_VALUE_INDEX: i32 = 60;
pub const AHRSPOS_TS_UPDATE_QUAT_W_VALUE_INDEX: i32 = 64;
pub const AHRSPOS_TS_UPDATE_QUAT_X_VALUE_INDEX: i32 = 68;
pub const AHRSPOS_TS_UPDATE_QUAT_Y_VALUE_INDEX: i32 = 72;
pub const AHRSPOS_TS_UPDATE_QUAT_Z_VALUE_INDEX: i32 = 76;
pub const AHRSPOS_TS_UPDATE_MPU_TEMP_VAUE_INDEX: i32 = 80;
pub const AHRSPOS_TS_UPDATE_OPSTATUS_VALUE_INDEX: i32 = 82;
pub const AHRSPOS_TS_UPDATE_SENSOR_STATUS_VALUE_INDEX: i32 = 83;
pub const AHRSPOS_TS_UPDATE_CAL_STATUS_VALUE_INDEX: i32 = 84;
pub const AHRSPOS_TS_UPDATE_SELFTEST_STATUS_VALUE_INDEX: i32 = 85;
pub const AHRSPOS_TS_UPDATE_TIMESTAMP_INDEX: i32 = 86;
pub const AHRSPOS_TS_RAW_UPDATE_YAW_VALUE_INDEX: i32 = 4;
pub const AHRSPOS_TS_RAW_UPDATE_ROLL_VALUE_INDEX: i32 = 8;
pub const AHRSPOS_TS_RAW_UPDATE_PITCH_VALUE_INDEX: i32 = 12;
pub const AHRSPOS_TS_RAW_UPDATE_HEADING_VALUE_INDEX: i32 = 16;
pub const AHRSPOS_TS_RAW_UPDATE_ALTITUDE_VALUE_INDEX: i32 = 20;
pub const AHRSPOS_TS_RAW_UPDATE_FUSED_HEADING_VALUE_INDEX: i32 = 24;
pub const AHRSPOS_TS_RAW_UPDATE_LINEAR_ACCEL_X_VALUE_INDEX: i32 = 28;
pub const AHRSPOS_TS_RAW_UPDATE_LINEAR_ACCEL_Y_VALUE_INDEX: i32 = 32;
pub const AHRSPOS_TS_RAW_UPDATE_LINEAR_ACCEL_Z_VALUE_INDEX: i32 = 36;
pub const AHRSPOS_TS_RAW_UPDATE_QUAT_W_VALUE_INDEX: i32 = 64;
pub const AHRSPOS_TS_RAW_UPDATE_QUAT_X_VALUE_INDEX: i32 = 68;
pub const AHRSPOS_TS_RAW_UPDATE_QUAT_Y_VALUE_INDEX: i32 = 72;
pub const AHRSPOS_TS_RAW_UPDATE_QUAT_Z_VALUE_INDEX: i32 = 76;
pub const AHRSPOS_TS_RAW_UPDATE_MPU_TEMP_VAUE_INDEX: i32 = 80;
pub const AHRSPOS_TS_RAW_UPDATE_OPSTATUS_VALUE_INDEX: i32 = 82;
pub const AHRSPOS_TS_RAW_UPDATE_SENSOR_STATUS_VALUE_INDEX: i32 = 83;
pub const AHRSPOS_TS_RAW_UPDATE_CAL_STATUS_VALUE_INDEX: i32 = 84;
pub const AHRSPOS_TS_RAW_UPDATE_SELFTEST_STATUS_VALUE_INDEX: i32 = 85;
pub const AHRSPOS_TS_RAW_UPDATE_GYRO_X_VALUE_INDEX: i32 = 90;
pub const AHRSPOS_TS_RAW_UPDATE_GYRO_Y_VALUE_INDEX: i32 = 92;
pub const AHRSPOS_TS_RAW_UPDATE_GYRO_Z_VALUE_INDEX: i32 = 94;
pub const AHRSPOS_TS_RAW_UPDATE_ACC_X_VALUE_INDEX: i32 = 96;
pub const AHRSPOS_TS_RAW_UPDATE_ACC_Y_VALUE_INDEX: i32 = 98;
pub const AHRSPOS_TS_RAW_UPDATE_ACC_Z_VALUE_INDEX: i32 = 100;
pub const AHRSPOS_TS_RAW_UPDATE_LAST_SAMPLE_DELTA_SEC_INDEX: i32 = 104;
pub const AHRSPOS_TS_RAW_UPDATE_GYRO_BIAS_UPDATED_BOOL_INDEX: i32 = 108;

/// Every field of an AHRS update `u` read from the message at `off` where the protocol's index
/// constants place it. Pitch and roll are read crosswise: pitch from the roll index and roll
/// from the pitch index.
pub open spec fn ahrs_update_fields(s: Seq<u8>, off: int, u: AHRSUpdate) -> bool {
    &&& u.base.yaw == ProtocolFloat::SignedHundredths(le_i16(s, off + AHRS_UPDATE_YAW_VALUE_INDEX))
    &&& u.base.pitch == ProtocolFloat::SignedHundredths(le_i16(s, off + AHRS_UPDATE_ROLL_VALUE_INDEX))
    &&& u.base.roll == ProtocolFloat::SignedHundredths(le_i16(s, off + AHRS_UPDATE_PITCH_VALUE_INDEX))
    &&& u.base.compass_heading == ProtocolFloat::UnsignedHundredths(
        le_u16(s, off + AHRS_UPDATE_HEADING_VALUE_INDEX),
    )
    &&& u.base.altitude == ProtocolFloat::Fixed1616(le_u32(s, off + AHRS_UPDATE_ALTITUDE_VALUE_INDEX))
    &&& u.base.fused_heading == ProtocolFloat::UnsignedHundredths(
        le_u16(s, off + AHRS_UPDATE_FUSED_HEADING_VALUE_INDEX),
    )
    &&& u.base.linear_accel_x == ProtocolFloat::Thousandths(
        le_u16(s, off + AHRS_UPDATE_LINEAR_ACCEL_X_VALUE_INDEX),
    )
    &&& u.base.linear_accel_y == ProtocolFloat::Thousandths(
        le_u16(s, off + AHRS_UPDATE_LINEAR_ACCEL_Y_VALUE_INDEX),
    )
    &&& u.base.linear_accel_z == ProtocolFloat::Thousandths(
        le_u16(s, off + AHRS_UPDATE_LINEAR_ACCEL_Z_VALUE_INDEX),
    )
    &&& u.cal_mag_x == le_i16(s, off + AHRS_UPDATE_CAL_MAG_X_VALUE_INDEX)
    &&& u.cal_mag_y == le_i16(s, off + AHRS_UPDATE_CAL_MAG_Y_VALUE_INDEX)
    &&& u.cal_mag_z == le_i16(s, off + AHRS_UPDATE_CAL_MAG_Z_VALUE_INDEX)
    &&& u.mag_field_norm_ratio == ProtocolFloat::UnsignedHundredths(
        le_u16(s, off + AHRS_UPDATE_CAL_MAG_NORM_RATIO_VALUE_INDEX),
    )
    &&& u.mag_field_norm_scalar == ProtocolFloat::Fixed1616(
        le_u32(s, off + AHRS_UPDATE_CAL_MAG_SCALAR_VALUE_INDEX),
    )
    &&& u.base.mpu_temp == ProtocolFloat::SignedHundredths(le_i16(s, off + AHRS_UPDATE_MPU_TEMP_VAUE_INDEX))
    &&& u.raw_mag_x == le_i16(s, off + AHRS_UPDATE_RAW_MAG_X_VALUE_INDEX)
    &&& u.raw_mag_y == le_i16(s, off + AHRS_UPDATE_RAW_MAG_Y_VALUE_INDEX)
    &&& u.raw_mag_z == le_i16(s, off + AHRS_UPDATE_RAW_MAG_Z_VALUE_INDEX)
    &&& u.base.quat_w == ProtocolFloat::QuaternionI16(le_i16(s, off + AHRS_UPDATE_QUAT_W_VALUE_INDEX))
    &&& u.base.quat_x == ProtocolFloat::QuaternionI16(le_i16(s, off + AHRS_UPDATE_QUAT_X_VALUE_INDEX))
    &&& u.base.quat_y == ProtocolFloat::QuaternionI16(le_i16(s, off + AHRS_UPDATE_QUAT_Y_VALUE_INDEX))
    &&& u.base.quat_z == ProtocolFloat::QuaternionI16(le_i16(s, off + AHRS_UPDATE_QUAT_Z_VALUE_INDEX))
    &&& u.base.barometric_pressure == ProtocolFloat::Fixed1616(
        le_u32(s, off + AHRS_UPDATE_BARO_PRESSURE_VALUE_INDEX),
    )
    &&& u.base.op_status == s[off + AHRS_UPDATE_OPSTATUS_VALUE_INDEX]
    &&& u.base.sensor_status == s[off + AHRS_UPDATE_SENSOR_STATUS_VALUE_INDEX]
    &&& u.base.cal_status == s[off + AHRS_UPDATE_CAL_STATUS_VALUE_INDEX]
    &&& u.base.selftest_status == s[off + AHRS_UPDATE_SELFTEST_STATUS_VALUE_INDEX]
}

/// An AHRS update holds each field where the protocol's index constants place it; in
/// particular the fused heading is the value at the fused-heading index, apart from the
/// compass heading at the heading index.
pub proof fn lemma_ahrs_update_layout(s: Seq<u8>, off: int)
    ensures
        ahrs_update_fields(s, off, ahrs_update_at(s, off)),
{
}

/// The orientation fields of an AHRS-and-positioning update at `off`; its messages carry no
/// barometric pressure, which keeps the value given.
pub open spec fn ahrspos_base_at(s: Seq<u8>, off: int, barometric_pressure: ProtocolFloat) -> AHRSUpdateBase {
    AHRSUpdateBase {
        yaw: ProtocolFloat::SignedHundredths(le_i16(s, off + 4)),
        pitch: ProtocolFloat::SignedHundredths(le_i16(s, off + 8)),
        roll: ProtocolFloat::SignedHundredths(le_i16(s, off + 6)),
        compass_heading: ProtocolFloat::UnsignedHundredths(le_u16(s, off + 10)),
        altitude: ProtocolFloat::Fixed1616(le_u32(s, off + 12)),
        fused_heading: ProtocolFloat::UnsignedHundredths(le_u16(s, off + 16)),
        linear_accel_x: ProtocolFloat::Thousandths(le_u16(s, off + 18)),
        linear_accel_y: ProtocolFloat::Thousandths(le_u16(s, off + 20)),
        linear_accel_z: ProtocolFloat::Thousandths(le_u16(s, off + 22)),
        mpu_temp: ProtocolFloat::SignedHundredths(le_i16(s, off + 56)),
        quat_w: ProtocolFloat::QuaternionI16(le_i16(s, off + 48)),
        quat_x: ProtocolFloat::QuaternionI16(le_i16(s, off + 50)),
        quat_y: ProtocolFloat::QuaternionI16(le_i16(s, off + 52)),
        quat_z: ProtocolFloat::QuaternionI16(le_i16(s, off + 54)),
        barometric_pressure: barometric_pressure,
        op_status: s[off + 58],
        sensor_status: s[off + 59],
        cal_status: s[off + 60],
        selftest_status: s[off + 61],
    }
}

/// The positioning fields of an AHRS-and-positioning update at `off`.
pub open spec fn ahrspos_at(s: Seq<u8>, off: int) -> AHRSPosUpdate {
    AHRSPosUpdate {
        vel_x: ProtocolFloat::Fixed1616(le_u32(s, off + 24)),
        vel_y: ProtocolFloat::Fixed1616(le_u32(s, off + 28)),
        vel_z: ProtocolFloat::Fixed1616(le_u32(s, off + 32)),
        disp_x: ProtocolFloat::Fixed1616(le_u32(s, off + 36)),
        disp_y: ProtocolFloat::Fixed1616(le_u32(s, off + 40)),
        disp_z: ProtocolFloat::Fixed1616(le_u32(s, off + 44)),
    }
}

/// The orientation fields of a timestamped AHRS-and-positioning update at `off`, keeping the
/// barometric pressure given.
pub open spec fn ahrspos_ts_base_at(s: Seq<u8>, off: int, barometric_pressure: ProtocolFloat) -> AHRSUpdateBase {
    AHRSUpdateBase {
        yaw: ProtocolFloat::Fixed1616(le_u32(s, off + 4)),
        pitch: ProtocolFloat::Fixed1616(le_u32(s, off + 12)),
        roll: ProtocolFloat::Fixed1616(le_u32(s, off + 8)),
        compass_heading: ProtocolFloat::Fixed1616(le_u32(s, off + 16)),
        altitude: ProtocolFloat::Fixed1616(le_u32(s, off + 20)),
        fused_heading: ProtocolFloat::Fixed1616(le_u32(s, off + 24)),
        linear_accel_x: ProtocolFloat::Fixed1616(le_u32(s, off + 28)),
        linear_accel_y: ProtocolFloat::Fixed1616(le_u32(s, off + 32)),
        linear_accel_z: ProtocolFloat::Fixed1616(le_u32(s, off + 36)),
        mpu_temp: ProtocolFloat::SignedHundredths(le_i16(s, off + 80)),
        quat_w: ProtocolFloat::QuaternionFixed1616(le_u32(s, off + 64)),
        quat_x: ProtocolFloat::QuaternionFixed1616(le_u32(s, off + 68)),
        quat_y: ProtocolFloat::QuaternionFixed1616(le_u32(s, off + 72)),
        quat_z: ProtocolFloat::QuaternionFixed1616(le_u32(s, off + 76)),
        barometric_pressure: barometric_pressure,
        op_status: s[off + 82],
        sensor_status: s[off + 83],
        cal_status: s[off + 84],
        selftest_status: s[off + 85],
    }
}

/// The positioning fields and timestamp of a timestamped AHRS-and-positioning update at `off`.
pub open spec fn ahrspos_ts_at(s: Seq<u8>, off: int) -> AHRSPosTSUpdate {
    AHRSPosTSUpdate {
        pos: AHRSPosUpdate {
        vel_x: ProtocolFloat::Fixed1616(le_u32(s, off + 40)),
        vel_y: ProtocolFloat::Fixed1616(le_u32(s, off + 44)),
        vel_z: ProtocolFloat::Fixed1616(le_u32(s, off + 48)),
        disp_x: ProtocolFloat::Fixed1616(le_u32(s, off + 52)),
        disp_y: ProtocolFloat::Fixed1616(le_u32(s, off + 56)),
        disp_z: ProtocolFloat::Fixed1616(le_u32(s, off + 60)),
        },
        timestamp: le_u32(s, off + 86),
    }
}

/// The orientation fields of a timestamped update with raw data at `off`, keeping the
/// barometric pressure given.
pub open spec fn ahrspos_ts_raw_base_at(s: Seq<u8>, off: int, barometric_pressure: ProtocolFloat) -> AHRSUpdateBase {
    AHRSUpdateBase {
        yaw: ProtocolFloat::Fixed1616(le_u32(s, off + 4)),
        pitch: ProtocolFloat::Fixed1616(le_u32(s, off + 8)),
        roll: ProtocolFloat::Fixed1616(le_u32(s, off + 12)),
        compass_heading: ProtocolFloat::Fixed1616(le_u32(s, off + 16)),
        altitude: ProtocolFloat::Fixed1616(le_u32(s, off + 20)),
        fused_heading: ProtocolFloat::Fixed1616(le_u32(s, off + 24)),
        linear_accel_x: ProtocolFloat::Fixed1616(le_u32(s, off + 28)),
        linear_accel_y: ProtocolFloat::Fixed1616(le_u32(s, off + 32)),
        linear_accel_z: ProtocolFloat::Fixed1616(le_u32(s, off + 36)),
        mpu_temp: ProtocolFloat::SignedHundredths(le_i16(s, off + 80)),
        quat_w: ProtocolFloat::QuaternionFixed1616(le_u32(s, off + 64)),
        quat_x: ProtocolFloat::QuaternionFixed1616(le_u32(s, off + 68)),
        quat_y: ProtocolFloat::QuaternionFixed1616(le_u32(s, off + 72)),
        quat_z: ProtocolFloat::QuaternionFixed1616(le_u32(s, off + 76)),
        barometric_pressure: barometric_pressure,
        op_status: s[off + 82],
        sensor_status: s[off + 83],
        cal_status: s[off + 84],
        selftest_status: s[off + 85],
    }
}

/// The positioning, timestamp and raw sensor fields of a timestamped update with raw data at
/// `off`.
pub open spec fn ahrspos_ts_raw_at(s: Seq<u8>, off: int) -> AHRSPosTSRawUpdate {
    AHRSPosTSRawUpdate {
        pos: ahrspos_ts_at(s, off),
        raw_gyro_x: le_i16(s, off + 90),
        raw_gyro_y: le_i16(s, off + 92),
        raw_gyro_z: le_i16(s, off + 94),
        accel_x: le_i16(s, off + 96),
        accel_y: le_i16(s, off + 98),
        accel_z: le_i16(s, off + 100),
        delta_t_sec: ProtocolFloat::Fixed1616(le_u32(s, off + 104)),
        gyro_bias_updated: le_i16(s, off + 108) != 0,
    }
}

/// Each field of an AHRS-and-positioning update is read where the protocol's index constants place it.
pub proof fn lemma_ahrspos_layout(s: Seq<u8>, off: int, bp: ProtocolFloat)
    ensures
        ahrspos_base_at(s, off, bp).yaw == ProtocolFloat::SignedHundredths(le_i16(s, off + AHRSPOS_UPDATE_YAW_VALUE_INDEX)),
        ahrspos_base_at(s, off, bp).pitch == ProtocolFloat::SignedHundredths(le_i16(s, off + AHRSPOS_UPDATE_ROLL_VALUE_INDEX)),
        ahrspos_base_at(s, off, bp).roll == ProtocolFloat::SignedHundredths(le_i16(s, off + AHRSPOS_UPDATE_PITCH_VALUE_INDEX)),
        ahrspos_base_at(s, off, bp).compass_heading == ProtocolFloat::UnsignedHundredths(le_u16(s, off + AHRSPOS_UPDATE_HEADING_VALUE_INDEX)),
        ahrspos_base_at(s, off, bp).altitude == ProtocolFloat::Fixed1616(le_u32(s, off + AHRSPOS_UPDATE_ALTITUDE_VALUE_INDEX)),
        ahrspos_base_at(s, off, bp).fused_heading == ProtocolFloat::UnsignedHundredths(le_u16(s, off + AHRSPOS_UPDATE_FUSED_HEADING_VALUE_INDEX)),
        ahrspos_base_at(s, off, bp).linear_accel_x == ProtocolFloat::Thousandths(le_u16(s, off + AHRSPOS_UPDATE_LINEAR_ACCEL_X_VALUE_INDEX)),
        ahrspos_base_at(s, off, bp).linear_accel_y == ProtocolFloat::Thousandths(le_u16(s, off + AHRSPOS_UPDATE_LINEAR_ACCEL_Y_VALUE_INDEX)),
        ahrspos_base_at(s, off, bp).linear_accel_z == ProtocolFloat::Thousandths(le_u16(s, off + AHRSPOS_UPDATE_LINEAR_ACCEL_Z_VALUE_INDEX)),
        ahrspos_base_at(s, off, bp).mpu_temp == ProtocolFloat::SignedHundredths(le_i16(s, off + AHRSPOS_UPDATE_MPU_TEMP_VAUE_INDEX)),
        ahrspos_base_at(s, off, bp).quat_w == ProtocolFloat::QuaternionI16(le_i16(s, off + AHRSPOS_UPDATE_QUAT_W_VALUE_INDEX)),
        ahrspos_base_at(s, off, bp).quat_x == ProtocolFloat::QuaternionI16(le_i16(s, off + AHRSPOS_UPDATE_QUAT_X_VALUE_INDEX)),
        ahrspos_base_at(s, off, bp).quat_y == ProtocolFloat::QuaternionI16(le_i16(s, off + AHRSPOS_UPDATE_QUAT_Y_VALUE_INDEX)),
        ahrspos_base_at(s, off, bp).quat_z == ProtocolFloat::QuaternionI16(le_i16(s, off + AHRSPOS_UPDATE_QUAT_Z_VALUE_INDEX)),
        ahrspos_base_at(s, off, bp).op_status == s[off + AHRSPOS_UPDATE_OPSTATUS_VALUE_INDEX],
        ahrspos_base_at(s, off, bp).sensor_status == s[off + AHRSPOS_UPDATE_SENSOR_STATUS_VALUE_INDEX],
        ahrspos_base_at(s, off, bp).cal_status == s[off + AHRSPOS_UPDATE_CAL_STATUS_VALUE_INDEX],
        ahrspos_base_at(s, off, bp).selftest_status == s[off + AHRSPOS_UPDATE_SELFTEST_STATUS_VALUE_INDEX],
        ahrspos_at(s, off).vel_x == ProtocolFloat::Fixed1616(le_u32(s, off + AHRSPOS_UPDATE_VEL_X_VALUE_INDEX)),
        ahrspos_at(s, off).vel_y == ProtocolFloat::Fixed1616(le_u32(s, off + AHRSPOS_UPDATE_VEL_Y_VALUE_INDEX)),
        ahrspos_at(s, off).vel_z == ProtocolFloat::Fixed1616(le_u32(s, off + AHRSPOS_UPDATE_VEL_Z_VALUE_INDEX)),
        ahrspos_at(s, off).disp_x == ProtocolFloat::Fixed1616(le_u32(s, off + AHRSPOS_UPDATE_DISP_X_VALUE_INDEX)),
        ahrspos_at(s, off).disp_y == ProtocolFloat::Fixed1616(le_u32(s, off + AHRSPOS_UPDATE_DISP_Y_VALUE_INDEX)),
        ahrspos_at(s, off).disp_z == ProtocolFloat::Fixed1616(le_u32(s, off + AHRSPOS_UPDATE_DISP_Z_VALUE_INDEX)),
        ahrspos_base_at(s, off, bp).barometric_pressure == bp,
{
}

/// Each field of a timestamped AHRS-and-positioning update is read where the protocol's index constants place it.
pub proof fn lemma_ahrspos_ts_layout(s: Seq<u8>, off: int, bp: ProtocolFloat)
    ensures
        ahrspos_ts_base_at(s, off, bp).yaw == ProtocolFloat::Fixed1616(le_u32(s, off + AHRSPOS_TS_UPDATE_YAW_VALUE_INDEX)),
        ahrspos_ts_base_at(s, off, bp).pitch == ProtocolFloat::Fixed1616(le_u32(s, off + AHRSPOS_TS_UPDATE_ROLL_VALUE_INDEX)),
        ahrspos_ts_base_at(s, off, bp).roll == ProtocolFloat::Fixed1616(le_u32(s, off + AHRSPOS_TS_UPDATE_PITCH_VALUE_INDEX)),
        ahrspos_ts_base_at(s, off, bp).compass_heading == ProtocolFloat::Fixed1616(le_u32(s, off + AHRSPOS_TS_UPDATE_HEADING_VALUE_INDEX)),
        ahrspos_ts_base_at(s, off, bp).altitude == ProtocolFloat::Fixed1616(le_u32(s, off + AHRSPOS_TS_UPDATE_ALTITUDE_VALUE_INDEX)),
        ahrspos_ts_base_at(s, off, bp).fused_heading == ProtocolFloat::Fixed1616(le_u32(s, off + AHRSPOS_TS_UPDATE_FUSED_HEADING_VALUE_INDEX)),
        ahrspos_ts_base_at(s, off, bp).linear_accel_x == ProtocolFloat::Fixed1616(le_u32(s, off + AHRSPOS_TS_UPDATE_LINEAR_ACCEL_X_VALUE_INDEX)),
        ahrspos_ts_base_at(s, off, bp).linear_accel_y == ProtocolFloat::Fixed1616(le_u32(s, off + AHRSPOS_TS_UPDATE_LINEAR_ACCEL_Y_VALUE_INDEX)),
        ahrspos_ts_base_at(s, off, bp).linear_accel_z == ProtocolFloat::Fixed1616(le_u32(s, off + AHRSPOS_TS_UPDATE_LINEAR_ACCEL_Z_VALUE_INDEX)),
        ahrspos_ts_base_at(s, off, bp).mpu_temp == ProtocolFloat::SignedHundredths(le_i16(s, off + AHRSPOS_TS_UPDATE_MPU_TEMP_VAUE_INDEX)),
        ahrspos_ts_base_at(s, off, bp).quat_w == ProtocolFloat::QuaternionFixed1616(le_u32(s, off + AHRSPOS_TS_UPDATE_QUAT_W_VALUE_INDEX)),
        ahrspos_ts_base_at(s, off, bp).quat_x == ProtocolFloat::QuaternionFixed1616(le_u32(s, off + AHRSPOS_TS_UPDATE_QUAT_X_VALUE_INDEX)),
        ahrspos_ts_base_at(s, off, bp).quat_y == ProtocolFloat::QuaternionFixed1616(le_u32(s, off + AHRSPOS_TS_UPDATE_QUAT_Y_VALUE_INDEX)),
        ahrspos_ts_base_at(s, off, bp).quat_z == ProtocolFloat::QuaternionFixed1616(le_u32(s, off + AHRSPOS_TS_UPDATE_QUAT_Z_VALUE_INDEX)),
        ahrspos_ts_base_at(s, off, bp).op_status == s[off + AHRSPOS_TS_UPDATE_OPSTATUS_VALUE_INDEX],
        ahrspos_ts_base_at(s, off, bp).sensor_status == s[off + AHRSPOS_TS_UPDATE_SENSOR_STATUS_VALUE_INDEX],
        ahrspos_ts_base_at(s, off, bp).cal_status == s[off + AHRSPOS_TS_UPDATE_CAL_STATUS_VALUE_INDEX],
        ahrspos_ts_base_at(s, off, bp).selftest_status == s[off + AHRSPOS_TS_UPDATE_SELFTEST_STATUS_VALUE_INDEX],
        ahrspos_ts_at(s, off).pos.vel_x == ProtocolFloat::Fixed1616(le_u32(s, off + AHRSPOS_TS_UPDATE_VEL_X_VALUE_INDEX)),
        ahrspos_ts_at(s, off).pos.vel_y == ProtocolFloat::Fixed1616(le_u32(s, off + AHRSPOS_TS_UPDATE_VEL_Y_VALUE_INDEX)),
        ahrspos_ts_at(s, off).pos.vel_z == ProtocolFloat::Fixed1616(le_u32(s, off + AHRSPOS_TS_UPDATE_VEL_Z_VALUE_INDEX)),
        ahrspos_ts_at(s, off).pos.disp_x == ProtocolFloat::Fixed1616(le_u32(s, off + AHRSPOS_TS_UPDATE_DISP_X_VALUE_INDEX)),
        ahrspos_ts_at(s, off).pos.disp_y == ProtocolFloat::Fixed1616(le_u32(s, off + AHRSPOS_TS_UPDATE_DISP_Y_VALUE_INDEX)),
        ahrspos_ts_at(s, off).pos.disp_z == ProtocolFloat::Fixed1616(le_u32(s, off + AHRSPOS_TS_UPDATE_DISP_Z_VALUE_INDEX)),
        ahrspos_ts_at(s, off).timestamp == le_u32(s, off + AHRSPOS_TS_UPDATE_TIMESTAMP_INDEX),
        ahrspos_ts_base_at(s, off, bp).barometric_pressure == bp,
{
}

/// Each field of a timestamped update with raw data is read where the protocol's index constants place it.
pub proof fn lemma_ahrspos_ts_raw_layout(s: Seq<u8>, off: int, bp: ProtocolFloat)
    ensures
        ahrspos_ts_raw_base_at(s, off, bp).yaw == ProtocolFloat::Fixed1616(le_u32(s, off + AHRSPOS_TS_RAW_UPDATE_YAW_VALUE_INDEX)),
        ahrspos_ts_raw_base_at(s, off, bp).pitch == ProtocolFloat::Fixed1616(le_u32(s, off + AHRSPOS_TS_RAW_UPDATE_ROLL_VALUE_INDEX)),
        ahrspos_ts_raw_base_at(s, off, bp).roll == ProtocolFloat::Fixed1616(le_u32(s, off + AHRSPOS_TS_RAW_UPDATE_PITCH_VALUE_INDEX)),
        ahrspos_ts_raw_base_at(s, off, bp).compass_heading == ProtocolFloat::Fixed1616(le_u32(s, off + AHRSPOS_TS_RAW_UPDATE_HEADING_VALUE_INDEX)),
        ahrspos_ts_raw_base_at(s, off, bp).altitude == ProtocolFloat::Fixed1616(le_u32(s, off + AHRSPOS_TS_RAW_UPDATE_ALTITUDE_VALUE_INDEX)),
        ahrspos_ts_raw_base_at(s, off, bp).fused_heading == ProtocolFloat::Fixed1616(le_u32(s, off + AHRSPOS_TS_RAW_UPDATE_FUSED_HEADING_VALUE_INDEX)),
        ahrspos_ts_raw_base_at(s, off, bp).linear_accel_x == ProtocolFloat::Fixed1616(le_u32(s, off + AHRSPOS_TS_RAW_UPDATE_LINEAR_ACCEL_X_VALUE_INDEX)),
        ahrspos_ts_raw_base_at(s, off, bp).linear_accel_y == ProtocolFloat::Fixed1616(le_u32(s, off + AHRSPOS_TS_RAW_UPDATE_LINEAR_ACCEL_Y_VALUE_INDEX)),
        ahrspos_ts_raw_base_at(s, off, bp).linear_accel_z == ProtocolFloat::Fixed1616(le_u32(s, off + AHRSPOS_TS_RAW_UPDATE_LINEAR_ACCEL_Z_VALUE_INDEX)),
        ahrspos_ts_raw_base_at(s, off, bp).mpu_temp == ProtocolFloat::SignedHundredths(le_i16(s, off + AHRSPOS_TS_RAW_UPDATE_MPU_TEMP_VAUE_INDEX)),
        ahrspos_ts_raw_base_at(s, off, bp).quat_w == ProtocolFloat::QuaternionFixed1616(le_u32(s, off + AHRSPOS_TS_RAW_UPDATE_QUAT_W_VALUE_INDEX)),
        ahrspos_ts_raw_base_at(s, off, bp).quat_x == ProtocolFloat::QuaternionFixed1616(le_u32(s, off + AHRSPOS_TS_RAW_UPDATE_QUAT_X_VALUE_INDEX)),
        ahrspos_ts_raw_base_at(s, off, bp).quat_y == ProtocolFloat::QuaternionFixed1616(le_u32(s, off + AHRSPOS_TS_RAW_UPDATE_QUAT_Y_VALUE_INDEX)),
        ahrspos_ts_raw_base_at(s, off, bp).quat_z == ProtocolFloat::QuaternionFixed1616(le_u32(s, off + AHRSPOS_TS_RAW_UPDATE_QUAT_Z_VALUE_INDEX)),
        ahrspos_ts_raw_base_at(s, off, bp).op_status == s[off + AHRSPOS_TS_RAW_UPDATE_OPSTATUS_VALUE_INDEX],
        ahrspos_ts_raw_base_at(s, off, bp).sensor_status == s[off + AHRSPOS_TS_RAW_UPDATE_SENSOR_STATUS_VALUE_INDEX],
        ahrspos_ts_raw_base_at(s, off, bp).cal_status == s[off + AHRSPOS_TS_RAW_UPDATE_CAL_STATUS_VALUE_INDEX],
        ahrspos_ts_raw_base_at(s, off, bp).selftest_status == s[off + AHRSPOS_TS_RAW_UPDATE_SELFTEST_STATUS_VALUE_INDEX],
        ahrspos_ts_raw_at(s, off).raw_gyro_x == le_i16(s, off + AHRSPOS_TS_RAW_UPDATE_GYRO_X_VALUE_INDEX),
        ahrspos_ts_raw_at(s, off).raw_gyro_y == le_i16(s, off + AHRSPOS_TS_RAW_UPDATE_GYRO_Y_VALUE_INDEX),
        ahrspos_ts_raw_at(s, off).raw_gyro_z == le_i16(s, off + AHRSPOS_TS_RAW_UPDATE_GYRO_Z_VALUE_INDEX),
        ahrspos_ts_raw_at(s, off).accel_x == le_i16(s, off + AHRSPOS_TS_RAW_UPDATE_ACC_X_VALUE_INDEX),
        ahrspos_ts_raw_at(s, off).accel_y == le_i16(s, off + AHRSPOS_TS_RAW_UPDATE_ACC_Y_VALUE_INDEX),
        ahrspos_ts_raw_at(s, off).accel_z == le_i16(s, off + AHRSPOS_TS_RAW_UPDATE_ACC_Z_VALUE_INDEX),
        ahrspos_ts_raw_at(s, off).delta_t_sec == ProtocolFloat::Fixed1616(le_u32(s, off + AHRSPOS_TS_RAW_UPDATE_LAST_SAMPLE_DELTA_SEC_INDEX)),
        ahrspos_ts_raw_at(s, off).gyro_bias_updated == (le_i16(s, off + AHRSPOS_TS_RAW_UPDATE_GYRO_BIAS_UPDATED_BOOL_INDEX) != 0),
        ahrspos_ts_raw_base_at(s, off, bp).barometric_pressure == bp,
{
}

/// Decodes an AHRS update at `offset`. Returns the message length and fills `u` when the
/// buffer holds a full message whose header and checksum match; otherwise returns 0 and leaves
/// `u` unchanged.
pub fn decode_ahrsupdate(
    buffer: &[u8],
    offset: usize,
    length: usize,
    u: &mut AHRSUpdate,
) -> (r: i32)
    requires
        length >= AHRS_UPDATE_MESSAGE_LENGTH ==> binary_reads_fit(
            buffer@,
            offset as int,
            64,
            MSGID_AHRS_UPDATE,
            AHRS_UPDATE_MESSAGE_CHECKSUM_INDEX as int,
        ),
    ensures
        r == (if binary_accepts(
            buffer@,
            offset as int,
            length as int,
            AHRS_UPDATE_MESSAGE_LENGTH as int,
            MSGID_AHRS_UPDATE,
            AHRS_UPDATE_MESSAGE_CHECKSUM_INDEX as int,
        ) {
            AHRS_UPDATE_MESSAGE_LENGTH
        } else {
            0
        }),
        r != 0 ==> *final(u) == ahrs_update_at(buffer@, offset as int),
        r != 0 ==> ahrs_update_fields(buffer@, offset as int, *final(u)),
        r == 0 ==> *final(u) == *old(u),
{
    proof {
        lemma_ahrs_update_layout(buffer@, offset as int);
    }
    let _ = buffer.len();
    if length < 66 {
        return 0;
    }
    if binary_header_matches(buffer, offset, 64, MSGID_AHRS_UPDATE, 62) {
        if !verify_checksum(buffer, offset, 62) {
            return 0;
        }
        u.base.yaw = ProtocolFloat::SignedHundredths(decode_i16(buffer, offset + 4));
        u.base.pitch = ProtocolFloat::SignedHundredths(decode_i16(buffer, offset + 8));
        u.base.roll = ProtocolFloat::SignedHundredths(decode_i16(buffer, offset + 6));
        u.base.compass_heading = ProtocolFloat::UnsignedHundredths(decode_u16(buffer, offset + 10));
        u.base.altitude = ProtocolFloat::Fixed1616(decode_u32(buffer, offset + 12));
        u.base.fused_heading = ProtocolFloat::UnsignedHundredths(decode_u16(buffer, offset + 16));
        u.base.linear_accel_x = ProtocolFloat::Thousandths(decode_u16(buffer, offset + 18));
        u.base.linear_accel_y = ProtocolFloat::Thousandths(decode_u16(buffer, offset + 20));
        u.base.linear_accel_z = ProtocolFloat::Thousandths(decode_u16(buffer, offset + 22));
        u.base.mpu_temp = ProtocolFloat::SignedHundredths(decode_i16(buffer, offset + 36));
        u.base.quat_w = ProtocolFloat::QuaternionI16(decode_i16(buffer, offset + 44));
        u.base.quat_x = ProtocolFloat::QuaternionI16(decode_i16(buffer, offset + 46));
        u.base.quat_y = ProtocolFloat::QuaternionI16(decode_i16(buffer, offset + 48));
        u.base.quat_z = ProtocolFloat::QuaternionI16(decode_i16(buffer, offset + 50));
        u.base.barometric_pressure = ProtocolFloat::Fixed1616(decode_u32(buffer, offset + 52));
        u.base.op_status = buffer[offset + 58];
        u.base.sensor_status = buffer[offset + 59];
        u.base.cal_status = buffer[offset + 60];
        u.base.selftest_status = buffer[offset + 61];
        u.cal_mag_x = decode_i16(buffer, offset + 24);
        u.cal_mag_y = decode_i16(buffer, offset + 26);
        u.cal_mag_z = decode_i16(buffer, offset + 28);
        u.mag_field_norm_ratio = ProtocolFloat::UnsignedHundredths(decode_u16(buffer, offset + 30));
        u.mag_field_norm_scalar = ProtocolFloat::Fixed1616(decode_u32(buffer, offset + 32));
        u.raw_mag_x = decode_i16(buffer, offset + 38);
        u.raw_mag_y = decode_i16(buffer, offset + 40);
        u.raw_mag_z = decode_i16(buffer, offset + 42);
        return AHRS_UPDATE_MESSAGE_LENGTH;
    }
    return 0;
}

/// Decodes an AHRS-and-positioning update at `offset`. Returns the message length and fills
/// `u` and `base` (all but its barometric pressure) when the buffer holds a full message whose
/// header and checksum match; otherwise returns 0 and leaves both unchanged.
pub fn decode_ahrspos_update(
    buffer: &[u8],
    offset: usize,
    length: usize,
    u: &mut AHRSPosUpdate,
    base: &mut AHRSUpdateBase,
) -> (r: i32)
    requires
        length >= AHRSPOS_UPDATE_MESSAGE_LENGTH ==> binary_reads_fit(
            buffer@,
            offset as int,
            64,
            MSGID_AHRSPOS_UPDATE,
            AHRSPOS_UPDATE_MESSAGE_CHECKSUM_INDEX as int,
        ),
    ensures
        r == (if binary_accepts(
            buffer@,
            offset as int,
            length as int,
            AHRSPOS_UPDATE_MESSAGE_LENGTH as int,
            MSGID_AHRSPOS_UPDATE,
            AHRSPOS_UPDATE_MESSAGE_CHECKSUM_INDEX as int,
        ) {
            AHRSPOS_UPDATE_MESSAGE_LENGTH
        } else {
            0
        }),
        r != 0 ==> *final(u) == ahrspos_at(buffer@, offset as int),
        r != 0 ==> *final(base) == ahrspos_base_at(buffer@, offset as int, old(base).barometric_pressure),
        r == 0 ==> *final(u) == *old(u) && *final(base) == *old(base),
{
    let _ = buffer.len();
    if length < 66 {
        return 0;
    }
    if binary_header_matches(buffer, offset, 64, MSGID_AHRSPOS_UPDATE, 62) {
        if !verify_checksum(buffer, offset, 62) {
            return 0;
        }
        base.yaw = ProtocolFloat::SignedHundredths(decode_i16(buffer, offset + 4));
        base.pitch = ProtocolFloat::SignedHundredths(decode_i16(buffer, offset + 8));
        base.roll = ProtocolFloat::SignedHundredths(decode_i16(buffer, offset + 6));
        base.compass_heading = ProtocolFloat::UnsignedHundredths(decode_u16(buffer, offset + 10));
        base.altitude = ProtocolFloat::Fixed1616(decode_u32(buffer, offset + 12));
        base.fused_heading = ProtocolFloat::UnsignedHundredths(decode_u16(buffer, offset + 16));
        base.linear_accel_x = ProtocolFloat::Thousandths(decode_u16(buffer, offset + 18));
        base.linear_accel_y = ProtocolFloat::Thousandths(decode_u16(buffer, offset + 20));
        base.linear_accel_z = ProtocolFloat::Thousandths(decode_u16(buffer, offset + 22));
        base.mpu_temp = ProtocolFloat::SignedHundredths(decode_i16(buffer, offset + 56));
        base.quat_w = ProtocolFloat::QuaternionI16(decode_i16(buffer, offset + 48));
        base.quat_x = ProtocolFloat::QuaternionI16(decode_i16(buffer, offset + 50));
        base.quat_y = ProtocolFloat::QuaternionI16(decode_i16(buffer, offset + 52));
        base.quat_z = ProtocolFloat::QuaternionI16(decode_i16(buffer, offset + 54));
        base.op_status = buffer[offset + 58];
        base.sensor_status = buffer[offset + 59];
        base.cal_status = buffer[offset + 60];
        base.selftest_status = buffer[offset + 61];
        u.vel_x = ProtocolFloat::Fixed1616(decode_u32(buffer, offset + 24));
        u.vel_y = ProtocolFloat::Fixed1616(decode_u32(buffer, offset + 28));
        u.vel_z = ProtocolFloat::Fixed1616(decode_u32(buffer, offset + 32));
        u.disp_x = ProtocolFloat::Fixed1616(decode_u32(buffer, offset + 36));
        u.disp_y = ProtocolFloat::Fixed1616(decode_u32(buffer, offset + 40));
        u.disp_z = ProtocolFloat::Fixed1616(decode_u32(buffer, offset + 44));
        return AHRSPOS_UPDATE_MESSAGE_LENGTH;
    }
    return 0;
}

/// Decodes a timestamped AHRS-and-positioning update at `offset`. Returns the message length
/// and fills `u` and `base` (all but its barometric pressure) when the buffer holds a full
/// message whose header and checksum match; otherwise returns 0 and leaves both unchanged.
pub fn decode_ahrspos_tsupdate(
    buffer: &[u8],
    offset: usize,
    length: usize,
    u: &mut AHRSPosTSUpdate,
    base: &mut AHRSUpdateBase,
) -> (r: i32)
    requires
        length >= AHRSPOS_TS_UPDATE_MESSAGE_LENGTH ==> binary_reads_fit(
            buffer@,
            offset as int,
            92,
            MSGID_AHRSPOS_TS_UPDATE,
            AHRSPOS_TS_UPDATE_MESSAGE_CHECKSUM_INDEX as int,
        ),
    ensures
        r == (if binary_accepts(
            buffer@,
            offset as int,
            length as int,
            AHRSPOS_TS_UPDATE_MESSAGE_LENGTH as int,
            MSGID_AHRSPOS_TS_UPDATE,
            AHRSPOS_TS_UPDATE_MESSAGE_CHECKSUM_INDEX as int,
        ) {
            AHRSPOS_TS_UPDATE_MESSAGE_LENGTH
        } else {
            0
        }),
        r != 0 ==> *final(u) == ahrspos_ts_at(buffer@, offset as int),
        r != 0 ==> *final(base) == ahrspos_ts_base_at(buffer@, offset as int, old(base).barometric_pressure),
        r == 0 ==> *final(u) == *old(u) && *final(base) == *old(base),
{
    let _ = buffer.len();
    if length < 94 {
        return 0;
    }
    if binary_header_matches(buffer, offset, 92, MSGID_AHRSPOS_TS_UPDATE, 90) {
        if !verify_checksum(buffer, offset, 90) {
            return 0;
        }
        base.yaw = ProtocolFloat::Fixed1616(decode_u32(buffer, offset + 4));
        base.pitch = ProtocolFloat::Fixed1616(decode_u32(buffer, offset + 12));
        base.roll = ProtocolFloat::Fixed1616(decode_u32(buffer, offset + 8));
        base.compass_heading = ProtocolFloat::Fixed1616(decode_u32(buffer, offset + 16));
        base.altitude = ProtocolFloat::Fixed1616(decode_u32(buffer, offset + 20));
        base.fused_heading = ProtocolFloat::Fixed1616(decode_u32(buffer, offset + 24));
        base.linear_accel_x = ProtocolFloat::Fixed1616(decode_u32(buffer, offset + 28));
        base.linear_accel_y = ProtocolFloat::Fixed1616(decode_u32(buffer, offset + 32));
        base.linear_accel_z = ProtocolFloat::Fixed1616(decode_u32(buffer, offset + 36));
        base.mpu_temp = ProtocolFloat::SignedHundredths(decode_i16(buffer, offset + 80));
        base.quat_w = ProtocolFloat::QuaternionFixed1616(decode_u32(buffer, offset + 64));
        base.quat_x = ProtocolFloat::QuaternionFixed1616(decode_u32(buffer, offset + 68));
        base.quat_y = ProtocolFloat::QuaternionFixed1616(decode_u32(buffer, offset + 72));
        base.quat_z = ProtocolFloat::QuaternionFixed1616(decode_u32(buffer, offset + 76));
        base.op_status = buffer[offset + 82];
        base.sensor_status = buffer[offset + 83];
        base.cal_status = buffer[offset + 84];
        base.selftest_status = buffer[offset + 85];
        u.pos.vel_x = ProtocolFloat::Fixed1616(decode_u32(buffer, offset + 40));
        u.pos.vel_y = ProtocolFloat::Fixed1616(decode_u32(buffer, offset + 44));
        u.pos.vel_z = ProtocolFloat::Fixed1616(decode_u32(buffer, offset + 48));
        u.pos.disp_x = ProtocolFloat::Fixed1616(decode_u32(buffer, offset + 52));
        u.pos.disp_y = ProtocolFloat::Fixed1616(decode_u32(buffer, offset + 56));
        u.pos.disp_z = ProtocolFloat::Fixed1616(decode_u32(buffer, offset + 60));
        u.timestamp = decode_u32(buffer, offset + 86);
        return AHRSPOS_TS_UPDATE_MESSAGE_LENGTH;
    }
    return 0;
}

/// Decodes a timestamped AHRS-and-positioning update with raw sensor data at `offset`.
/// Returns the message length and fills `u` and `base` (all but its barometric pressure) when
/// the buffer holds a full message whose header and checksum match; otherwise returns 0 and
/// leaves both unchanged.
pub fn decode_ahrspos_tsraw_update(
    buffer: &[u8],
    offset: usize,
    length: usize,
    u: &mut AHRSPosTSRawUpdate,
    base: &mut AHRSUpdateBase,
) -> (r: i32)
    requires
        length >= AHRSPOS_TS_RAW_UPDATE_MESSAGE_LENGTH ==> binary_reads_fit(
            buffer@,
            offset as int,
            112,
            MSGID_AHRSPOS_TS_RAW_UPDATE,
            AHRSPOS_TS_RAW_UPDATE_MESSAGE_CHECKSUM_INDEX as int,
        ),
    ensures
        r == (if binary_accepts(
            buffer@,
            offset as int,
            length as int,
            AHRSPOS_TS_RAW_UPDATE_MESSAGE_LENGTH as int,
            MSGID_AHRSPOS_TS_RAW_UPDATE,
            AHRSPOS_TS_RAW_UPDATE_MESSAGE_CHECKSUM_INDEX as int,
        ) {
            AHRSPOS_TS_RAW_UPDATE_MESSAGE_LENGTH
        } else {
            0
        }),
        r != 0 ==> *final(u) == ahrspos_ts_raw_at(buffer@, offset as int),
        r != 0 ==> *final(base) == ahrspos_ts_raw_base_at(buffer@, offset as int, old(base).barometric_pressure),
        r == 0 ==> *final(u) == *old(u) && *final(base) == *old(base),
{
    let _ = buffer.len();
    if length < 114 {
        return 0;
    }
    if binary_header_matches(buffer, offset, 112, MSGID_AHRSPOS_TS_RAW_UPDATE, 110) {
        if !verify_checksum(buffer, offset, 110) {
            return 0;
        }
        base.yaw = ProtocolFloat::Fixed1616(decode_u32(buffer, offset + 4));
        base.pitch = ProtocolFloat::Fixed1616(decode_u32(buffer, offset + 8));
        base.roll = ProtocolFloat::Fixed1616(decode_u32(buffer, offset + 12));
        base.compass_heading = ProtocolFloat::Fixed1616(decode_u32(buffer, offset + 16));
        base.altitude = ProtocolFloat::Fixed1616(decode_u32(buffer, offset + 20));
        base.fused_heading = ProtocolFloat::Fixed1616(decode_u32(buffer, offset + 24));
        base.linear_accel_x = ProtocolFloat::Fixed1616(decode_u32(buffer, offset + 28));
        base.linear_accel_y = ProtocolFloat::Fixed1616(decode_u32(buffer, offset + 32));
        base.linear_accel_z = ProtocolFloat::Fixed1616(decode_u32(buffer, offset + 36));
        base.mpu_temp = ProtocolFloat::SignedHundredths(decode_i16(buffer, offset + 80));
        base.quat_w = ProtocolFloat::QuaternionFixed1616(decode_u32(buffer, offset + 64));
        base.quat_x = ProtocolFloat::QuaternionFixed1616(decode_u32(buffer, offset + 68));
        base.quat_y = ProtocolFloat::QuaternionFixed1616(decode_u32(buffer, offset + 72));
        base.quat_z = ProtocolFloat::QuaternionFixed1616(decode_u32(buffer, offset + 76));
        base.op_status = buffer[offset + 82];
        base.sensor_status = buffer[offset + 83];
        base.cal_status = buffer[offset + 84];
        base.selftest_status = buffer[offset + 85];
        u.pos.pos.vel_x = ProtocolFloat::Fixed1616(decode_u32(buffer, offset + 40));
        u.pos.pos.vel_y = ProtocolFloat::Fixed1616(decode_u32(buffer, offset + 44));
        u.pos.pos.vel_z = ProtocolFloat::Fixed1616(decode_u32(buffer, offset + 48));
        u.pos.pos.disp_x = ProtocolFloat::Fixed1616(decode_u32(buffer, offset + 52));
        u.pos.pos.disp_y = ProtocolFloat::Fixed1616(decode_u32(buffer, offset + 56));
        u.pos.pos.disp_z = ProtocolFloat::Fixed1616(decode_u32(buffer, offset + 60));
        u.pos.timestamp = decode_u32(buffer, offset + 86);
        u.raw_gyro_x = decode_i16(buffer, offset + 90);
        u.raw_gyro_y = decode_i16(buffer, offset + 92);
        u.raw_gyro_z = decode_i16(buffer, offset + 94);
        u.accel_x = decode_i16(buffer, offset + 96);
        u.accel_y = decode_i16(buffer, offset + 98);
        u.accel_z = decode_i16(buffer, offset + 100);
        u.delta_t_sec = ProtocolFloat::Fixed1616(decode_u32(buffer, offset + 104));
        u.gyro_bias_updated = decode_i16(buffer, offset + 108) != 0;
        return AHRSPOS_TS_RAW_UPDATE_MESSAGE_LENGTH;
    }
    return 0;
}

// ---------------------------------------------------------------------------------------------
// Tuning variables and magnetometer calibration
// ---------------------------------------------------------------------------------------------

/// Message id of the fusion tuning command and response (`'T'`).
pub const MSGID_FUSION_TUNING_CMD: u8 = 84;
pub const FUSION_TUNING_DATA_ACTION_VALUE_INDEX: i32 = 4;
pub const FUSION_TUNING_CMD_VAR_ID_VALUE_INDEX: i32 = 5;
pub const FUSION_TUNING_CMD_VAR_VALUE_INDEX: i32 = 6;
pub const FUSION_TUNING_CMD_MESSAGE_CHECKSUM_INDEX: i32 = 10;
pub const FUSION_TUNING_CMD_MESSAGE_TERMINATOR_INDEX: i32 = 12;
pub const FUSION_TUNING_CMD_MESSAGE_LENGTH: i32 = 14;

/// Message id of the magnetometer calibration command and response (`'M'`).
pub const MSGID_MAG_CAL_CMD: u8 = 77;
pub const MAG_CAL_DATA_ACTION_VALUE_INDEX: i32 = 4;
pub const MAG_X_BIAS_VALUE_INDEX: i32 = 5;
pub const MAG_XFORM_1_1_VALUE_INDEX: i32 = 11;
pub const MAG_CAL_EARTH_MAG_FIELD_NORM_VALUE_INDEX: i32 = 47;
pub const MAG_CAL_CMD_MESSAGE_CHECKSUM_INDEX: i32 = 51;
pub const MAG_CAL_CMD_MESSAGE_TERMINATOR_INDEX: i32 = 53;
pub const MAG_CAL_CMD_MESSAGE_LENGTH: i32 = 55;

/// A fusion tuning variable. `value` is the 16:16 fixed-point wire value.
#[derive(Debug, Clone, Copy, Default, PartialEq, Eq)]
pub struct TuningVar {
    pub action: u8,
    pub var_id: u8,
    pub value: u32,
}

/// Magnetometer calibration data. The transform entries and the field norm are 16:16
/// fixed-point wire values.
#[derive(Debug, Clone, Copy, Default, PartialEq, Eq)]
pub struct MagCalData {
    pub action: u8,
    pub mag_bias: [i16; 3],
    pub mag_xform: [[u32; 3]; 3],
    pub earth_mag_field_norm: u32,
}

/// The body of a tuning-variable storage request.
pub open spec fn tuning_var_body(r: TuningVar) -> Seq<u8> {
    put_u32(
        seq![
            PACKET_START_CHAR,
            BINARY_PACKET_INDICATOR_CHAR,
            (FUSION_TUNING_CMD_MESSAGE_LENGTH - 2) as u8,
            MSGID_FUSION_TUNING_CMD,
            r.action,
            r.var_id,
            0u8,
            0u8,
            0u8,
            0u8,
        ],
        FUSION_TUNING_CMD_VAR_VALUE_INDEX as int,
        r.value,
    )
}

/// Writes a tuning-variable storage request into the first fourteen bytes of `buffer` and
/// returns its length.
pub fn encode_tuning_var_set_request(buffer: &mut [u8], r: &TuningVar) -> (n: i32)
    requires
        old(buffer)@.len() >= FUSION_TUNING_CMD_MESSAGE_LENGTH,
    ensures
        n == FUSION_TUNING_CMD_MESSAGE_LENGTH,
        final(buffer)@ == frame(tuning_var_body(*r)) + old(buffer)@.subrange(
            FUSION_TUNING_CMD_MESSAGE_LENGTH as int,
            old(buffer)@.len() as int,
        ),
{
    let ghost orig = buffer@;
    buffer[0] = PACKET_START_CHAR;
    buffer[1] = BINARY_PACKET_INDICATOR_CHAR;
    buffer[2] = 12;
    buffer[3] = MSGID_FUSION_TUNING_CMD;
    buffer[4] = r.action;
    buffer[5] = r.var_id;
    encode_u32(r.value, buffer, 6);
    assert(buffer@.subrange(0, 10) =~= tuning_var_body(*r));
    encode_termination(buffer, 14, 10);
    assert(buffer@ =~= frame(tuning_var_body(*r)) + orig.subrange(14, orig.len() as int));
    FUSION_TUNING_CMD_MESSAGE_LENGTH
}

/// Decodes a tuning-variable response at `offset`. Returns the message length and fills `r`
/// when the buffer holds a full message whose header and checksum match; otherwise returns 0
/// and leaves `r` unchanged.
pub fn decode_tuning_var_get_response(
    buffer: &[u8],
    offset: usize,
    length: usize,
    r: &mut TuningVar,
) -> (n: i32)
    requires
        length >= FUSION_TUNING_CMD_MESSAGE_LENGTH ==> binary_reads_fit(
            buffer@,
            offset as int,
            12,
            MSGID_FUSION_TUNING_CMD,
            FUSION_TUNING_CMD_MESSAGE_CHECKSUM_INDEX as int,
        ),
    ensures
        n == (if binary_accepts(
            buffer@,
            offset as int,
            length as int,
            FUSION_TUNING_CMD_MESSAGE_LENGTH as int,
            MSGID_FUSION_TUNING_CMD,
            FUSION_TUNING_CMD_MESSAGE_CHECKSUM_INDEX as int,
        ) {
            FUSION_TUNING_CMD_MESSAGE_LENGTH
        } else {
            0
        }),
        n != 0 ==> *final(r) == (TuningVar {
            action: buffer@[offset + 4],
            var_id: buffer@[offset + 5],
            value: le_u32(buffer@, offset + 6),
        }),
        n == 0 ==> *final(r) == *old(r),
        n != 0 ==> final(r).action == buffer@[offset + FUSION_TUNING_DATA_ACTION_VALUE_INDEX],
        n != 0 ==> final(r).var_id == buffer@[offset + FUSION_TUNING_CMD_VAR_ID_VALUE_INDEX],
        n != 0 ==> final(r).value == le_u32(buffer@, offset + FUSION_TUNING_CMD_VAR_VALUE_INDEX),
{
    let _ = buffer.len();
    if length < 14 {
        return 0;
    }
    if binary_header_matches(buffer, offset, 12, MSGID_FUSION_TUNING_CMD, 10) {
        if !verify_checksum(buffer, offset, 10) {
            return 0;
        }
        r.action = buffer[offset + 4];
        r.var_id = buffer[offset + 5];
        r.value = decode_u32(buffer, offset + 6);
        return FUSION_TUNING_CMD_MESSAGE_LENGTH;
    }
    return 0;
}

/// The offset of transform entry `(i, j)`: the nine 4-byte entries follow each other row by
/// row.
pub open spec fn mag_xform_index(i: int, j: int) -> int {
    MAG_XFORM_1_1_VALUE_INDEX + i * 12 + j * 4
}

/// `s` after the storage request writes its header and the calibration fields of `d`, in
/// order; later fields overwrite the overlapping bytes of earlier ones.
pub open spec fn mag_cal_writes(s: Seq<u8>, d: MagCalData) -> Seq<u8> {
    let s1 = s.update(0, PACKET_START_CHAR).update(1, BINARY_PACKET_INDICATOR_CHAR).update(
        2,
        (MAG_CAL_CMD_MESSAGE_LENGTH - 2) as u8,
    ).update(3, MSGID_MAG_CAL_CMD).update(4, d.action);
    let s2 = put_u16(
        put_u16(put_u16(s1, 5, i16_bits(d.mag_bias[0])), 7, i16_bits(d.mag_bias[1])),
        9,
        i16_bits(d.mag_bias[2]),
    );
    let s3 = put_u32(
        put_u32(put_u32(s2, mag_xform_index(0, 0), d.mag_xform[0][0]), mag_xform_index(0, 1), d.mag_xform[0][1]),
        mag_xform_index(0, 2),
        d.mag_xform[0][2],
    );
    let s4 = put_u32(
        put_u32(put_u32(s3, mag_xform_index(1, 0), d.mag_xform[1][0]), mag_xform_index(1, 1), d.mag_xform[1][1]),
        mag_xform_index(1, 2),
        d.mag_xform[1][2],
    );
    let s5 = put_u32(
        put_u32(put_u32(s4, mag_xform_index(2, 0), d.mag_xform[2][0]), mag_xform_index(2, 1), d.mag_xform[2][1]),
        mag_xform_index(2, 2),
        d.mag_xform[2][2],
    );
    put_u32(s5, MAG_CAL_EARTH_MAG_FIELD_NORM_VALUE_INDEX as int, d.earth_mag_field_norm)
}

/// Writes a magnetometer calibration storage request into the first 55 bytes of `buffer` and
/// returns its length. Bytes of the body that no field covers keep their previous contents.
pub fn encode_mag_cal_data_set_request(buffer: &mut [u8], d: &MagCalData) -> (n: i32)
    requires
        old(buffer)@.len() >= MAG_CAL_CMD_MESSAGE_LENGTH,
    ensures
        n == MAG_CAL_CMD_MESSAGE_LENGTH,
        final(buffer)@ == frame(mag_cal_writes(old(buffer)@, *d).subrange(0, 51)) + old(
            buffer,
        )@.subrange(MAG_CAL_CMD_MESSAGE_LENGTH as int, old(buffer)@.len() as int),
{
    let ghost orig = buffer@;
    buffer[0] = PACKET_START_CHAR;
    buffer[1] = BINARY_PACKET_INDICATOR_CHAR;
    buffer[2] = 53;
    buffer[3] = MSGID_MAG_CAL_CMD;
    buffer[4] = d.action;
    encode_i16(d.mag_bias[0], buffer, 5);
    encode_i16(d.mag_bias[1], buffer, 7);
    encode_i16(d.mag_bias[2], buffer, 9);
    encode_u32(d.mag_xform[0][0], buffer, 11);
    encode_u32(d.mag_xform[0][1], buffer, 15);
    encode_u32(d.mag_xform[0][2], buffer, 19);
    encode_u32(d.mag_xform[1][0], buffer, 23);
    encode_u32(d.mag_xform[1][1], buffer, 27);
    encode_u32(d.mag_xform[1][2], buffer, 31);
    encode_u32(d.mag_xform[2][0], buffer, 35);
    encode_u32(d.mag_xform[2][1], buffer, 39);
    encode_u32(d.mag_xform[2][2], buffer, 43);
    encode_u32(d.earth_mag_field_norm, buffer, 47);
    let ghost w = buffer@;
    assert(w == mag_cal_writes(orig, *d));
    encode_termination(buffer, 55, 51);
    assert(buffer@ =~= frame(w.subrange(0, 51)) + orig.subrange(55, orig.len() as int));
    MAG_CAL_CMD_MESSAGE_LENGTH
}

/// Decodes a magnetometer calibration response at `offset`. Returns the message length and
/// fills `d` when the buffer holds a full message whose header and checksum match; otherwise
/// returns 0 and leaves `d` unchanged.
pub fn decode_mag_cal_data_get_response(
    buffer: &[u8],
    offset: usize,
    length: usize,
    d: &mut MagCalData,
) -> (n: i32)
    requires
        length >= MAG_CAL_CMD_MESSAGE_LENGTH ==> binary_reads_fit(
            buffer@,
            offset as int,
            53,
            MSGID_MAG_CAL_CMD,
            MAG_CAL_CMD_MESSAGE_CHECKSUM_INDEX as int,
        ),
    ensures
        n == (if binary_accepts(
            buffer@,
            offset as int,
            length as int,
            MAG_CAL_CMD_MESSAGE_LENGTH as int,
            MSGID_MAG_CAL_CMD,
            MAG_CAL_CMD_MESSAGE_CHECKSUM_INDEX as int,
        ) {
            MAG_CAL_CMD_MESSAGE_LENGTH
        } else {
            0
        }),
        n != 0 ==> {
            &&& final(d).action == buffer@[offset + 4]
            &&& forall|i: int| 0 <= i < 3 ==> #[trigger] final(d).mag_bias[i] == le_i16(buffer@, offset + 5 + 2 * i)
            &&& forall|i: int, j: int|
                0 <= i < 3 && 0 <= j < 3 ==> #[trigger] final(d).mag_xform[i][j] == le_u32(
                    buffer@,
                    offset + mag_xform_index(i, j),
                )
            &&& final(d).earth_mag_field_norm == le_u32(buffer@, offset + 47)
        },
        n == 0 ==> *final(d) == *old(d),
{
    let _ = buffer.len();
    if length < 55 {
        return 0;
    }
    if binary_header_matches(buffer, offset, 53, MSGID_MAG_CAL_CMD, 51) {
        if !verify_checksum(buffer, offset, 51) {
            return 0;
        }
        d.action = buffer[offset + 4];
        d.mag_bias = [
            decode_i16(buffer, offset + 5),
            decode_i16(buffer, offset + 7),
            decode_i16(buffer, offset + 9),
        ];
        let row0 = [
            decode_u32(buffer, offset + 11),
            decode_u32(buffer, offset + 15),
            decode_u32(buffer, offset + 19),
        ];
        let row1 = [
            decode_u32(buffer, offset + 23),
            decode_u32(buffer, offset + 27),
            decode_u32(buffer, offset + 31),
        ];
        let row2 = [
            decode_u32(buffer, offset + 35),
            decode_u32(buffer, offset + 39),
            decode_u32(buffer, offset + 43),
        ];
        d.mag_xform = [row0, row1, row2];
        d.earth_mag_field_norm = decode_u32(buffer, offset + 47);
        assert forall|i: int| 0 <= i < 3 implies #[trigger] d.mag_bias[i] == le_i16(buffer@, offset + 5 + 2 * i) by {
            if i == 0 {} else if i == 1 {} else {}
        }
        assert forall|i: int, j: int|
            0 <= i < 3 && 0 <= j < 3 implies #[trigger] d.mag_xform[i][j] == le_u32(
                buffer@,
                offset + mag_xform_index(i, j),
            ) by {
            if i == 0 {} else if i == 1 {} else {}
        }
        return MAG_CAL_CMD_MESSAGE_LENGTH;
    }
    return 0;
}

// ---------------------------------------------------------------------------------------------
// ASCII updates
// ---------------------------------------------------------------------------------------------

/// Message id of the yaw/pitch/roll update (`'y'`).
pub const MSGID_YPR_UPDATE: u8 = 121;
pub const YPR_UPDATE_YAW_VALUE_INDEX: i32 = 2;
pub const YPR_UPDATE_PITCH_VALUE_INDEX: i32 = 9;
pub const YPR_UPDATE_ROLL_VALUE_INDEX: i32 = 16;
pub const YPR_UPDATE_COMPASS_VALUE_INDEX: i32 = 23;
pub const YPR_UPDATE_CHECKSUM_INDEX: i32 = 30;
pub const YPR_UPDATE_TERMINATOR_INDEX: i32 = 32;
pub const YPR_UPDATE_MESSAGE_LENGTH: i32 = 34;

/// Message id of the quaternion update (`'q'`).
pub const MSGID_QUATERNION_UPDATE: u8 = 113;
pub const QUATERNION_UPDATE_MESSAGE_LENGTH: i32 = 53;
pub const QUATERNION_UPDATE_TEMP_VALUE_INDEX: i32 = 42;
pub const QUATERNION_UPDATE_CHECKSUM_INDEX: i32 = 49;
pub const QUATERNION_UPDATE_TERMINATOR_INDEX: i32 = 51;

/// Message id of the enable-stream response (`'s'`).
pub const MSG_ID_STREAM_RESPONSE: u8 = 115;
pub const STREAM_RESPONSE_MESSAGE_LENGTH: i32 = 46;
pub const STREAM_RESPONSE_STREAM_TYPE_INDEX: i32 = 2;
pub const STREAM_RESPONSE_GYRO_FULL_SCALE_DPS_RANGE: i32 = 3;
pub const STREAM_RESPONSE_ACCEL_FULL_SCALE_G_RANGE: i32 = 7;
pub const STREAM_RESPONSE_UPDATE_RATE_HZ: i32 = 11;
pub const STREAM_RESPONSE_YAW_OFFSET_DEGREES: i32 = 15;
pub const STREAM_RESPONSE_QUAT1_OFFSET: i32 = 22;
pub const STREAM_RESPONSE_QUAT2_OFFSET: i32 = 26;
pub const STREAM_RESPONSE_QUAT3_OFFSET: i32 = 30;
pub const STREAM_RESPONSE_QUAT4_OFFSET: i32 = 34;
pub const STREAM_RESPONSE_FLAGS: i32 = 38;
pub const STREAM_RESPONSE_CHECKSUM_INDEX: i32 = 42;
pub const STREAM_RESPONSE_TERMINATOR_INDEX: i32 = 44;

/// `f` is the seven-character decimal text at `off`.
pub open spec fn text_at(f: ProtocolFloat, s: Seq<u8>, off: int) -> bool {
    f matches ProtocolFloat::Text(a) && a@ == s.subrange(off, off + PROTOCOL_FLOAT_LENGTH)
}

/// Whether an ASCII decoder given `length` available bytes accepts the message at `off`.
pub open spec fn ascii_accepts(
    s: Seq<u8>,
    off: int,
    length: int,
    msg_len: int,
    msgid: u8,
    checksum_index: int,
) -> bool {
    &&& length >= msg_len
    &&& ascii_header_at(s, off, msgid)
    &&& checksum_matches(s, off, checksum_index)
}

fn decode_text(buffer: &[u8], offset: usize) -> (f: ProtocolFloat)
    requires
        offset + 7 <= buffer@.len(),
    ensures
        text_at(f, buffer@, offset as int),
{
    let a = [
        buffer[offset],
        buffer[offset + 1],
        buffer[offset + 2],
        buffer[offset + 3],
        buffer[offset + 4],
        buffer[offset + 5],
        buffer[offset + 6],
    ];
    assert(a@ =~= buffer@.subrange(offset as int, offset + 7));
    ProtocolFloat::Text(a)
}

fn ascii_header_matches(buffer: &[u8], offset: usize, msgid: u8, checksum_index: usize) -> (r: bool)
    requires
        ascii_reads_fit(buffer@, offset as int, msgid, checksum_index as int),
    ensures
        r == ascii_header_at(buffer@, offset as int, msgid),
{
    buffer[offset + 0] == PACKET_START_CHAR && buffer[offset + 1] == msgid
}

/// A yaw/pitch/roll update; every field is seven characters of decimal text.
#[derive(Debug, Clone, Copy, Default, PartialEq, Eq)]
pub struct YPRUpdate {
    pub yaw: ProtocolFloat,
    pub pitch: ProtocolFloat,
    pub roll: ProtocolFloat,
    pub compass_heading: ProtocolFloat,
}

/// Decodes a yaw/pitch/roll update at `offset`. Returns the message length and fills `u` when
/// the buffer holds a full message whose header and checksum match; otherwise returns 0 and
/// leaves `u` unchanged.
pub fn decode_yprupdate(buffer: &[u8], offset: usize, length: usize, u: &mut YPRUpdate) -> (r: i32)
    requires
        length >= YPR_UPDATE_MESSAGE_LENGTH ==> ascii_reads_fit(
            buffer@,
            offset as int,
            MSGID_YPR_UPDATE,
            YPR_UPDATE_CHECKSUM_INDEX as int,
        ),
    ensures
        r == (if ascii_accepts(
            buffer@,
            offset as int,
            length as int,
            YPR_UPDATE_MESSAGE_LENGTH as int,
            MSGID_YPR_UPDATE,
            YPR_UPDATE_CHECKSUM_INDEX as int,
        ) {
            YPR_UPDATE_MESSAGE_LENGTH
        } else {
            0
        }),
        r != 0 ==> {
            &&& text_at(final(u).yaw, buffer@, offset + 2)
            &&& text_at(final(u).pitch, buffer@, offset + 9)
            &&& text_at(final(u).roll, buffer@, offset + 16)
            &&& text_at(final(u).compass_heading, buffer@, offset + 23)
        },
        r == 0 ==> *final(u) == *old(u),
        r != 0 ==> text_at(final(u).yaw, buffer@, offset + YPR_UPDATE_YAW_VALUE_INDEX),
        r != 0 ==> text_at(final(u).pitch, buffer@, offset + YPR_UPDATE_PITCH_VALUE_INDEX),
        r != 0 ==> text_at(final(u).roll, buffer@, offset + YPR_UPDATE_ROLL_VALUE_INDEX),
        r != 0 ==> text_at(final(u).compass_heading, buffer@, offset + YPR_UPDATE_COMPASS_VALUE_INDEX),
{
    let _ = buffer.len();
    if length < 34 {
        return 0;
    }
    if ascii_header_matches(buffer, offset, MSGID_YPR_UPDATE, 30) {
        if !verify_checksum(buffer, offset, 30) {
            return 0;
        }
        u.yaw = decode_text(buffer, offset + 2);
        u.pitch = decode_text(buffer, offset + 9);
        u.roll = decode_text(buffer, offset + 16);
        u.compass_heading = decode_text(buffer, offset + 23);
        return YPR_UPDATE_MESSAGE_LENGTH;
    }
    return 0;
}

/// A quaternion update: ten 16-bit hex fields and a decimal temperature.
#[derive(Debug, Clone, Copy, Default, PartialEq, Eq)]
pub struct QuaternionUpdate {
    pub q1: u16,
    pub q2: u16,
    pub q3: u16,
    pub q4: u16,
    pub accel_x: u16,
    pub accel_y: u16,
    pub accel_z: u16,
    pub mag_x: u16,
    pub mag_y: u16,
    pub mag_z: u16,
    pub temp_c: ProtocolFloat,
}

/// Decodes a quaternion update at `offset`. Returns the message length and fills `u` when the
/// buffer holds a full message whose header and checksum match; otherwise returns 0 and leaves
/// `u` unchanged.
pub fn decode_quaternion_update(buffer: &[u8], offset: usize, length: usize, u: &mut QuaternionUpdate) -> (r:
    i32)
    requires
        length >= QUATERNION_UPDATE_MESSAGE_LENGTH ==> ascii_reads_fit(
            buffer@,
            offset as int,
            MSGID_QUATERNION_UPDATE,
            QUATERNION_UPDATE_CHECKSUM_INDEX as int,
        ),
    ensures
        r == (if ascii_accepts(
            buffer@,
            offset as int,
            length as int,
            QUATERNION_UPDATE_MESSAGE_LENGTH as int,
            MSGID_QUATERNION_UPDATE,
            QUATERNION_UPDATE_CHECKSUM_INDEX as int,
        ) {
            QUATERNION_UPDATE_MESSAGE_LENGTH
        } else {
            0
        }),
        r != 0 ==> {
            &&& final(u).q1 == hex_u16_value(buffer@, offset + 2)
            &&& final(u).q2 == hex_u16_value(buffer@, offset + 6)
            &&& final(u).q3 == hex_u16_value(buffer@, offset + 10)
            &&& final(u).q4 == hex_u16_value(buffer@, offset + 14)
            &&& final(u).accel_x == hex_u16_value(buffer@, offset + 18)
            &&& final(u).accel_y == hex_u16_value(buffer@, offset + 22)
            &&& final(u).accel_z == hex_u16_value(buffer@, offset + 26)
            &&& final(u).mag_x == hex_u16_value(buffer@, offset + 30)
            &&& final(u).mag_y == hex_u16_value(buffer@, offset + 34)
            &&& final(u).mag_z == hex_u16_value(buffer@, offset + 38)
            &&& text_at(final(u).temp_c, buffer@, offset + 42)
        },
        r == 0 ==> *final(u) == *old(u),
        r != 0 ==> final(u).q1 == hex_u16_value(buffer@, offset + QUATERNION_UPDATE_QUAT1_VALUE_INDEX),
        r != 0 ==> final(u).q2 == hex_u16_value(buffer@, offset + QUATERNION_UPDATE_QUAT2_VALUE_INDEX),
        r != 0 ==> final(u).q3 == hex_u16_value(buffer@, offset + QUATERNION_UPDATE_QUAT3_VALUE_INDEX),
        r != 0 ==> final(u).q4 == hex_u16_value(buffer@, offset + QUATERNION_UPDATE_QUAT4_VALUE_INDEX),
        r != 0 ==> final(u).accel_x == hex_u16_value(buffer@, offset + QUATERNION_UPDATE_ACCEL_X_VALUE_INDEX),
        r != 0 ==> final(u).accel_y == hex_u16_value(buffer@, offset + QUATERNION_UPDATE_ACCEL_Y_VALUE_INDEX),
        r != 0 ==> final(u).accel_z == hex_u16_value(buffer@, offset + QUATERNION_UPDATE_ACCEL_Z_VALUE_INDEX),
        r != 0 ==> final(u).mag_x == hex_u16_value(buffer@, offset + QUATERNION_UPDATE_MAG_X_VALUE_INDEX),
        r != 0 ==> final(u).mag_y == hex_u16_value(buffer@, offset + QUATERNION_UPDATE_MAG_Y_VALUE_INDEX),
        r != 0 ==> final(u).mag_z == hex_u16_value(buffer@, offset + QUATERNION_UPDATE_MAG_Z_VALUE_INDEX),
        r != 0 ==> text_at(final(u).temp_c, buffer@, offset + QUATERNION_UPDATE_TEMP_VALUE_INDEX),
{
    let _ = buffer.len();
    if length < 53 {
        return 0;
    }
    if ascii_header_matches(buffer, offset, MSGID_QUATERNION_UPDATE, 49) {
        if !verify_checksum(buffer, offset, 49) {
            return 0;
        }
        u.q1 = decode_u16_hex(buffer, offset + 2);
        u.q2 = decode_u16_hex(buffer, offset + 6);
        u.q3 = decode_u16_hex(buffer, offset + 10);
        u.q4 = decode_u16_hex(buffer, offset + 14);
        u.accel_x = decode_u16_hex(buffer, offset + 18);
        u.accel_y = decode_u16_hex(buffer, offset + 22);
        u.accel_z = decode_u16_hex(buffer, offset + 26);
        u.mag_x = decode_u16_hex(buffer, offset + 30);
        u.mag_y = decode_u16_hex(buffer, offset + 34);
        u.mag_z = decode_u16_hex(buffer, offset + 38);
        u.temp_c = decode_text(buffer, offset + 42);
        return QUATERNION_UPDATE_MESSAGE_LENGTH;
    }
    return 0;
}

/// The board's response to an enable-stream command.
#[derive(Debug, Clone, Copy, Default, PartialEq, Eq)]
pub struct StreamResponse {
    pub stream_type: u8,
    pub gyro_fsr_dps: u16,
    pub accel_fsr_g: u16,
    pub update_rate_hz: u16,
    pub yaw_offset_degrees: ProtocolFloat,
    pub q1_offset: u16,
    pub q2_offset: u16,
    pub q3_offset: u16,
    pub q4_offset: u16,
    pub flags: u16,
}

/// Decodes an enable-stream response at `offset`. Returns the message length and fills `r`
/// when the buffer holds a full message whose header and checksum match; otherwise returns 0
/// and leaves `r` unchanged.
pub fn decode_stream_response(buffer: &[u8], offset: usize, length: usize, r: &mut StreamResponse) -> (n:
    i32)
    requires
        length >= STREAM_RESPONSE_MESSAGE_LENGTH ==> ascii_reads_fit(
            buffer@,
            offset as int,
            MSG_ID_STREAM_RESPONSE,
            STREAM_RESPONSE_CHECKSUM_INDEX as int,
        ),
    ensures
        n == (if ascii_accepts(
            buffer@,
            offset as int,
            length as int,
            STREAM_RESPONSE_MESSAGE_LENGTH as int,
            MSG_ID_STREAM_RESPONSE,
            STREAM_RESPONSE_CHECKSUM_INDEX as int,
        ) {
            STREAM_RESPONSE_MESSAGE_LENGTH
        } else {
            0
        }),
        n != 0 ==> {
            &&& final(r).stream_type == buffer@[offset + 2]
            &&& final(r).gyro_fsr_dps == hex_u16_value(buffer@, offset + 3)
            &&& final(r).accel_fsr_g == hex_u16_value(buffer@, offset + 7)
            &&& final(r).update_rate_hz == hex_u16_value(buffer@, offset + 11)
            &&& text_at(final(r).yaw_offset_degrees, buffer@, offset + 15)
            &&& final(r).q1_offset == hex_u16_value(buffer@, offset + 22)
            &&& final(r).q2_offset == hex_u16_value(buffer@, offset + 26)
            &&& final(r).q3_offset == hex_u16_value(buffer@, offset + 30)
            &&& final(r).q4_offset == hex_u16_value(buffer@, offset + 34)
            &&& final(r).flags == hex_u16_value(buffer@, offset + 38)
        },
        n == 0 ==> *final(r) == *old(r),
        n != 0 ==> final(r).gyro_fsr_dps == hex_u16_value(buffer@, offset + STREAM_RESPONSE_GYRO_FULL_SCALE_DPS_RANGE),
        n != 0 ==> final(r).accel_fsr_g == hex_u16_value(buffer@, offset + STREAM_RESPONSE_ACCEL_FULL_SCALE_G_RANGE),
        n != 0 ==> final(r).update_rate_hz == hex_u16_value(buffer@, offset + STREAM_RESPONSE_UPDATE_RATE_HZ),
        n != 0 ==> final(r).q1_offset == hex_u16_value(buffer@, offset + STREAM_RESPONSE_QUAT1_OFFSET),
        n != 0 ==> final(r).q2_offset == hex_u16_value(buffer@, offset + STREAM_RESPONSE_QUAT2_OFFSET),
        n != 0 ==> final(r).q3_offset == hex_u16_value(buffer@, offset + STREAM_RESPONSE_QUAT3_OFFSET),
        n != 0 ==> final(r).q4_offset == hex_u16_value(buffer@, offset + STREAM_RESPONSE_QUAT4_OFFSET),
        n != 0 ==> final(r).flags == hex_u16_value(buffer@, offset + STREAM_RESPONSE_FLAGS),
        n != 0 ==> text_at(final(r).yaw_offset_degrees, buffer@, offset + STREAM_RESPONSE_YAW_OFFSET_DEGREES),
{
    let _ = buffer.len();
    if length < 46 {
        return 0;
    }
    if ascii_header_matches(buffer, offset, MSG_ID_STREAM_RESPONSE, 42) {
        if !verify_checksum(buffer, offset, 42) {
            return 0;
        }
        r.stream_type = buffer[offset + 2];
        r.gyro_fsr_dps = decode_u16_hex(buffer, offset + 3);
        r.accel_fsr_g = decode_u16_hex(buffer, offset + 7);
        r.update_rate_hz = decode_u16_hex(buffer, offset + 11);
        r.yaw_offset_degrees = decode_text(buffer, offset + 15);
        r.q1_offset = decode_u16_hex(buffer, offset + 22);
        r.q2_offset = decode_u16_hex(buffer, offset + 26);
        r.q3_offset = decode_u16_hex(buffer, offset + 30);
        r.q4_offset = decode_u16_hex(buffer, offset + 34);
        r.flags = decode_u16_hex(buffer, offset + 38);
        return STREAM_RESPONSE_MESSAGE_LENGTH;
    }
    return 0;
}

// ---------------------------------------------------------------------------------------------
// Laws
// ---------------------------------------------------------------------------------------------

proof fn lemma_hex_digit_roundtrip(n: int)
    requires
        0 <= n < 16,
    ensures
        hex_digit_value(hex_char(n)) == n,
{
}

/// Four hex characters written by `byte_to_hex` for a high and then a low byte are read back by
/// `decode_u16_hex` as the 16-bit value of those two bytes.
pub proof fn lemma_hex_u16_roundtrip(s: Seq<u8>, off: int, hi: u8, lo: u8)
    requires
        0 <= off,
        off + 4 <= s.len(),
        s.subrange(off, off + 4) == hex_byte(hi) + hex_byte(lo),
    ensures
        hex_u16_value(s, off) == hi * 256 + lo,
{
    assert(s[off] == s.subrange(off, off + 4)[0]);
    assert(s[off + 1] == s.subrange(off, off + 4)[1]);
    assert(s[off + 2] == s.subrange(off, off + 4)[2]);
    assert(s[off + 3] == s.subrange(off, off + 4)[3]);
    lemma_hex_digit_roundtrip((hi / 16) as int);
    lemma_hex_digit_roundtrip((hi % 16) as int);
    lemma_hex_digit_roundtrip((lo / 16) as int);
    lemma_hex_digit_roundtrip((lo % 16) as int);
}

/// A framed message, followed by anything, passes `verify_checksum`: the checksum the encoder
/// writes reads back as the sum of the body.
pub proof fn lemma_frame_checksum(body: Seq<u8>, rest: Seq<u8>)
    ensures
        checksum_matches(frame(body) + rest, 0, body.len() as int),
{
    let s = frame(body) + rest;
    let c = checksum_of(body);
    assert(s.subrange(0, body.len() as int) =~= body);
    assert(s[body.len() as int] == hex_char((c / 16) as int));
    assert(s[body.len() as int + 1] == hex_char((c % 16) as int));
    lemma_hex_digit_roundtrip((c / 16) as int);
    lemma_hex_digit_roundtrip((c % 16) as int);
}

/// An encoded enable-stream command, followed by anything, is accepted and decodes to its
/// stream type.
pub proof fn lemma_stream_command_roundtrip(stream_type: u8, update_rate_hz: u8, rest: Seq<u8>)
    ensures
        ({
            let s = frame(stream_command_body(stream_type, update_rate_hz)) + rest;
            &&& s.len() >= STREAM_CMD_MESSAGE_LENGTH
            &&& ascii_reads_fit(s, 0, MSGID_STREAM_CMD, STREAM_CMD_CHECKSUM_INDEX as int)
            &&& ascii_header_at(s, 0, MSGID_STREAM_CMD)
            &&& s[2] == stream_type
            &&& checksum_matches(s, 0, STREAM_CMD_CHECKSUM_INDEX as int)
        }),
{
    lemma_frame_checksum(stream_command_body(stream_type, update_rate_hz), rest);
}


/// A tuning-variable request read back as a response is accepted and reads back the action,
/// variable and value written.
pub proof fn lemma_tuning_var_roundtrip(r: TuningVar, rest: Seq<u8>)
    ensures
        ({
            let s = frame(tuning_var_body(r)) + rest;
            &&& binary_reads_fit(
                s,
                0,
                12,
                MSGID_FUSION_TUNING_CMD,
                FUSION_TUNING_CMD_MESSAGE_CHECKSUM_INDEX as int,
            )
            &&& binary_accepts(
                s,
                0,
                s.len() as int,
                FUSION_TUNING_CMD_MESSAGE_LENGTH as int,
                MSGID_FUSION_TUNING_CMD,
                FUSION_TUNING_CMD_MESSAGE_CHECKSUM_INDEX as int,
            )
            &&& s[4] == r.action
            &&& s[5] == r.var_id
            &&& le_u32(s, 6) == r.value
        }),
{
    let body = tuning_var_body(r);
    let s = frame(body) + rest;
    lemma_frame_checksum(body, rest);
    assert(s[0] == body[0] && s[1] == body[1] && s[2] == body[2] && s[3] == body[3]);
    assert(s[4] == body[4] && s[5] == body[5]);
    assert(s[6] == body[6] && s[7] == body[7] && s[8] == body[8] && s[9] == body[9]);
    lemma_u32_roundtrip(
        seq![
            PACKET_START_CHAR,
            BINARY_PACKET_INDICATOR_CHAR,
            (FUSION_TUNING_CMD_MESSAGE_LENGTH - 2) as u8,
            MSGID_FUSION_TUNING_CMD,
            r.action,
            r.var_id,
            0u8,
            0u8,
            0u8,
            0u8,
        ],
        6,
        r.value,
    );
}

/// Writing a `u32` leaves the bytes outside its four bytes, and the length, as they were.
proof fn lemma_put_u32_keeps(s: Seq<u8>, off: int, v: u32, k: int)
    requires
        0 <= off,
        off + 4 <= s.len(),
        0 <= k < s.len(),
        k < off || off + 4 <= k,
    ensures
        put_u32(s, off, v).len() == s.len(),
        put_u32(s, off, v)[k] == s[k],
{
}

/// Writing a `u32` leaves a `u32` stored elsewhere, not overlapping it, as it was.
proof fn lemma_put_u32_other(s: Seq<u8>, off: int, v: u32, p: int)
    requires
        0 <= off,
        off + 4 <= s.len(),
        0 <= p,
        p + 4 <= s.len(),
        p + 4 <= off || off + 4 <= p,
    ensures
        le_u32(put_u32(s, off, v), p) == le_u32(s, p),
{
    lemma_put_u32_keeps(s, off, v, p);
    lemma_put_u32_keeps(s, off, v, p + 1);
    lemma_put_u32_keeps(s, off, v, p + 2);
    lemma_put_u32_keeps(s, off, v, p + 3);
}

/// `s` after the nine transform entries of `d` are written in order.
pub open spec fn mag_xform_chain(s: Seq<u8>, d: MagCalData) -> Seq<u8> {
    let w0 = put_u32(s, 11, d.mag_xform[0][0]);
    let w1 = put_u32(w0, 15, d.mag_xform[0][1]);
    let w2 = put_u32(w1, 19, d.mag_xform[0][2]);
    let w3 = put_u32(w2, 23, d.mag_xform[1][0]);
    let w4 = put_u32(w3, 27, d.mag_xform[1][1]);
    let w5 = put_u32(w4, 31, d.mag_xform[1][2]);
    let w6 = put_u32(w5, 35, d.mag_xform[2][0]);
    let w7 = put_u32(w6, 39, d.mag_xform[2][1]);
    let w8 = put_u32(w7, 43, d.mag_xform[2][2]);
    w8
}

/// The nine transform entries, written four bytes apart, each read back, and the bytes before
/// them are kept.
#[verifier::spinoff_prover]
#[verifier::rlimit(100)]
proof fn lemma_mag_xform_chain(s: Seq<u8>, d: MagCalData)
    requires
        s.len() >= MAG_CAL_CMD_MESSAGE_LENGTH,
    ensures
        mag_xform_chain(s, d).len() == s.len(),
        forall|k: int| 0 <= k < 11 ==> mag_xform_chain(s, d)[k] == s[k],
        le_u32(mag_xform_chain(s, d), 11) == d.mag_xform[0][0],
        le_u32(mag_xform_chain(s, d), 15) == d.mag_xform[0][1],
        le_u32(mag_xform_chain(s, d), 19) == d.mag_xform[0][2],
        le_u32(mag_xform_chain(s, d), 23) == d.mag_xform[1][0],
        le_u32(mag_xform_chain(s, d), 27) == d.mag_xform[1][1],
        le_u32(mag_xform_chain(s, d), 31) == d.mag_xform[1][2],
        le_u32(mag_xform_chain(s, d), 35) == d.mag_xform[2][0],
        le_u32(mag_xform_chain(s, d), 39) == d.mag_xform[2][1],
        le_u32(mag_xform_chain(s, d), 43) == d.mag_xform[2][2],
{
    let w0 = put_u32(s, 11, d.mag_xform[0][0]);
    let w1 = put_u32(w0, 15, d.mag_xform[0][1]);
    let w2 = put_u32(w1, 19, d.mag_xform[0][2]);
    let w3 = put_u32(w2, 23, d.mag_xform[1][0]);
    let w4 = put_u32(w3, 27, d.mag_xform[1][1]);
    let w5 = put_u32(w4, 31, d.mag_xform[1][2]);
    let w6 = put_u32(w5, 35, d.mag_xform[2][0]);
    let w7 = put_u32(w6, 39, d.mag_xform[2][1]);
    let w8 = put_u32(w7, 43, d.mag_xform[2][2]);
    assert forall|k: int| 0 <= k < 11 implies w8[k] == s[k] by {
        lemma_put_u32_keeps(s, 11, d.mag_xform[0][0], k);
        lemma_put_u32_keeps(w0, 15, d.mag_xform[0][1], k);
        lemma_put_u32_keeps(w1, 19, d.mag_xform[0][2], k);
        lemma_put_u32_keeps(w2, 23, d.mag_xform[1][0], k);
        lemma_put_u32_keeps(w3, 27, d.mag_xform[1][1], k);
        lemma_put_u32_keeps(w4, 31, d.mag_xform[1][2], k);
        lemma_put_u32_keeps(w5, 35, d.mag_xform[2][0], k);
        lemma_put_u32_keeps(w6, 39, d.mag_xform[2][1], k);
        lemma_put_u32_keeps(w7, 43, d.mag_xform[2][2], k);
    }
    lemma_u32_roundtrip(s, 11, d.mag_xform[0][0]);
    lemma_put_u32_other(w0, 15, d.mag_xform[0][1], 11);
    lemma_put_u32_other(w1, 19, d.mag_xform[0][2], 11);
    lemma_put_u32_other(w2, 23, d.mag_xform[1][0], 11);
    lemma_put_u32_other(w3, 27, d.mag_xform[1][1], 11);
    lemma_put_u32_other(w4, 31, d.mag_xform[1][2], 11);
    lemma_put_u32_other(w5, 35, d.mag_xform[2][0], 11);
    lemma_put_u32_other(w6, 39, d.mag_xform[2][1], 11);
    lemma_put_u32_other(w7, 43, d.mag_xform[2][2], 11);
    lemma_u32_roundtrip(w0, 15, d.mag_xform[0][1]);
    lemma_put_u32_other(w1, 19, d.mag_xform[0][2], 15);
    lemma_put_u32_other(w2, 23, d.mag_xform[1][0], 15);
    lemma_put_u32_other(w3, 27, d.mag_xform[1][1], 15);
    lemma_put_u32_other(w4, 31, d.mag_xform[1][2], 15);
    lemma_put_u32_other(w5, 35, d.mag_xform[2][0], 15);
    lemma_put_u32_other(w6, 39, d.mag_xform[2][1], 15);
    lemma_put_u32_other(w7, 43, d.mag_xform[2][2], 15);
    lemma_u32_roundtrip(w1, 19, d.mag_xform[0][2]);
    lemma_put_u32_other(w2, 23, d.mag_xform[1][0], 19);
    lemma_put_u32_other(w3, 27, d.mag_xform[1][1], 19);
    lemma_put_u32_other(w4, 31, d.mag_xform[1][2], 19);
    lemma_put_u32_other(w5, 35, d.mag_xform[2][0], 19);
    lemma_put_u32_other(w6, 39, d.mag_xform[2][1], 19);
    lemma_put_u32_other(w7, 43, d.mag_xform[2][2], 19);
    lemma_u32_roundtrip(w2, 23, d.mag_xform[1][0]);
    lemma_put_u32_other(w3, 27, d.mag_xform[1][1], 23);
    lemma_put_u32_other(w4, 31, d.mag_xform[1][2], 23);
    lemma_put_u32_other(w5, 35, d.mag_xform[2][0], 23);
    lemma_put_u32_other(w6, 39, d.mag_xform[2][1], 23);
    lemma_put_u32_other(w7, 43, d.mag_xform[2][2], 23);
    lemma_u32_roundtrip(w3, 27, d.mag_xform[1][1]);
    lemma_put_u32_other(w4, 31, d.mag_xform[1][2], 27);
    lemma_put_u32_other(w5, 35, d.mag_xform[2][0], 27);
    lemma_put_u32_other(w6, 39, d.mag_xform[2][1], 27);
    lemma_put_u32_other(w7, 43, d.mag_xform[2][2], 27);
    lemma_u32_roundtrip(w4, 31, d.mag_xform[1][2]);
    lemma_put_u32_other(w5, 35, d.mag_xform[2][0], 31);
    lemma_put_u32_other(w6, 39, d.mag_xform[2][1], 31);
    lemma_put_u32_other(w7, 43, d.mag_xform[2][2], 31);
    lemma_u32_roundtrip(w5, 35, d.mag_xform[2][0]);
    lemma_put_u32_other(w6, 39, d.mag_xform[2][1], 35);
    lemma_put_u32_other(w7, 43, d.mag_xform[2][2], 35);
    lemma_u32_roundtrip(w6, 39, d.mag_xform[2][1]);
    lemma_put_u32_other(w7, 43, d.mag_xform[2][2], 39);
    lemma_u32_roundtrip(w7, 43, d.mag_xform[2][2]);
}

/// A magnetometer calibration request read back as a response is accepted and reads back the
/// action, the biases, every transform entry and the field norm written.
#[verifier::spinoff_prover]
#[verifier::rlimit(100)]
pub proof fn lemma_mag_cal_roundtrip(buffer: Seq<u8>, d: MagCalData)
    requires
        buffer.len() >= MAG_CAL_CMD_MESSAGE_LENGTH,
    ensures
        ({
            let body = mag_cal_writes(buffer, d).subrange(0, 51);
            let s = frame(body) + buffer.subrange(MAG_CAL_CMD_MESSAGE_LENGTH as int, buffer.len() as int);
            &&& binary_accepts(
                s,
                0,
                s.len() as int,
                MAG_CAL_CMD_MESSAGE_LENGTH as int,
                MSGID_MAG_CAL_CMD,
                MAG_CAL_CMD_MESSAGE_CHECKSUM_INDEX as int,
            )
            &&& s[4] == d.action
            &&& le_i16(s, 5) == d.mag_bias[0]
            &&& le_i16(s, 7) == d.mag_bias[1]
            &&& le_i16(s, 9) == d.mag_bias[2]
            &&& forall|i: int, j: int|
                0 <= i < 3 && 0 <= j < 3 ==> #[trigger] le_u32(s, mag_xform_index(i, j))
                    == d.mag_xform[i][j]
            &&& le_u32(s, 47) == d.earth_mag_field_norm
        }),
{
    let s1 = buffer.update(0, PACKET_START_CHAR).update(1, BINARY_PACKET_INDICATOR_CHAR).update(
        2,
        (MAG_CAL_CMD_MESSAGE_LENGTH - 2) as u8,
    ).update(3, MSGID_MAG_CAL_CMD).update(4, d.action);
    let s2 = put_u16(
        put_u16(put_u16(s1, 5, i16_bits(d.mag_bias[0])), 7, i16_bits(d.mag_bias[1])),
        9,
        i16_bits(d.mag_bias[2]),
    );
    let c2 = mag_xform_chain(s2, d);
    let w = put_u32(c2, 47, d.earth_mag_field_norm);
    assert(w == mag_cal_writes(buffer, d));
    lemma_mag_xform_chain(s2, d);
    assert forall|k: int| 0 <= k < 11 implies w[k] == s2[k] by {
        lemma_put_u32_keeps(c2, 47, d.earth_mag_field_norm, k);
    }
    lemma_put_u32_other(c2, 47, d.earth_mag_field_norm, 11);
    lemma_put_u32_other(c2, 47, d.earth_mag_field_norm, 15);
    lemma_put_u32_other(c2, 47, d.earth_mag_field_norm, 19);
    lemma_put_u32_other(c2, 47, d.earth_mag_field_norm, 23);
    lemma_put_u32_other(c2, 47, d.earth_mag_field_norm, 27);
    lemma_put_u32_other(c2, 47, d.earth_mag_field_norm, 31);
    lemma_put_u32_other(c2, 47, d.earth_mag_field_norm, 35);
    lemma_put_u32_other(c2, 47, d.earth_mag_field_norm, 39);
    lemma_put_u32_other(c2, 47, d.earth_mag_field_norm, 43);
    lemma_u32_roundtrip(c2, 47, d.earth_mag_field_norm);
    lemma_i16_roundtrip(s1, 5, d.mag_bias[0]);
    lemma_i16_roundtrip(put_u16(s1, 5, i16_bits(d.mag_bias[0])), 7, d.mag_bias[1]);
    lemma_i16_roundtrip(
        put_u16(put_u16(s1, 5, i16_bits(d.mag_bias[0])), 7, i16_bits(d.mag_bias[1])),
        9,
        d.mag_bias[2],
    );
    let body = w.subrange(0, 51);
    let rest = buffer.subrange(MAG_CAL_CMD_MESSAGE_LENGTH as int, buffer.len() as int);
    let s = frame(body) + rest;
    lemma_frame_checksum(body, rest);
    assert forall|k: int| 0 <= k < 51 implies s[k] == w[k] by {
        assert(s[k] == body[k]);
    }
    assert(le_u32(s, 11) == le_u32(w, 11));
    assert(le_u32(s, 15) == le_u32(w, 15));
    assert(le_u32(s, 19) == le_u32(w, 19));
    assert(le_u32(s, 23) == le_u32(w, 23));
    assert(le_u32(s, 27) == le_u32(w, 27));
    assert(le_u32(s, 31) == le_u32(w, 31));
    assert(le_u32(s, 35) == le_u32(w, 35));
    assert(le_u32(s, 39) == le_u32(w, 39));
    assert(le_u32(s, 43) == le_u32(w, 43));
    assert(le_u32(s, 47) == le_u32(w, 47));
    assert(le_i16(s, 5) == le_i16(w, 5));
    assert(le_i16(s, 7) == le_i16(w, 7));
    assert(le_i16(s, 9) == le_i16(w, 9));
    assert forall|i: int, j: int| 0 <= i < 3 && 0 <= j < 3 implies #[trigger] le_u32(s, mag_xform_index(i, j))
        == d.mag_xform[i][j] by {
        if i == 0 {} else if i == 1 {} else {}
    }
}

} // verus!
