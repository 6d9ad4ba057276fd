//! The compact binary encoding in which signatures are stored: little-endian,
//! with variable-length integers and length-prefixed byte strings.
//!
//! An unsigned integer up to 250 is one byte. Larger ones are a marker byte
//! (251, 252 or 253) followed by the integer in 2, 4 or 8 little-endian
//! bytes. A signed integer is first folded onto the unsigned ones, so that
//! small magnitudes stay short. A byte string is its length followed by its
//! bytes.

use vstd::prelude::*;
use vstd::bytes::*;
use vstd::slice::slice_subrange;

verus! {

/// Largest integer that is written as a single byte.
pub const SINGLE_BYTE_MAX: u8 = 250;

/// Marker of an integer written in two bytes.
pub const U16_MARKER: u8 = 251;

/// Marker of an integer written in four bytes.
pub const U32_MARKER: u8 = 252;

/// Marker of an integer written in eight bytes.
pub const U64_MARKER: u8 = 253;

/// Why a run of bytes could not be read.
#[derive(Clone, Copy, Debug, PartialEq, Eq, Structural)]
pub enum DecodeError {
    /// The bytes end before the value does.
    UnexpectedEnd,
    /// An integer is written wider than its type allows, or with a marker
    /// that stands for no width.
    InvalidIntegerType,
    /// The envelope names a version that is not known.
    UnexpectedVariant,
    /// A length does not fit the machine.
    LengthOverflow,
    /// Text is not UTF-8.
    InvalidUtf8,
    /// A key identifier is not 16 bytes long.
    InvalidKeyIdLength,
}

impl DecodeError {
    pub fn to_string(&self) -> (text: String)
        ensures
            text@ == self.message(),
    {
        match self {
            DecodeError::UnexpectedEnd => "unexpected end of input".to_owned(),
            DecodeError::InvalidIntegerType => "invalid integer type".to_owned(),
            DecodeError::UnexpectedVariant => "unexpected variant".to_owned(),
            DecodeError::LengthOverflow => "length does not fit in memory".to_owned(),
            DecodeError::InvalidUtf8 => "text is not valid UTF-8".to_owned(),
            DecodeError::InvalidKeyIdLength => "key id is not 16 bytes long".to_owned(),
        }
    }

    pub open spec fn message(self) -> Seq<char> {
        match self {
            DecodeError::UnexpectedEnd => "unexpected end of input"@,
            DecodeError::InvalidIntegerType => "invalid integer type"@,
            DecodeError::UnexpectedVariant => "unexpected variant"@,
            DecodeError::LengthOverflow => "length does not fit in memory"@,
            DecodeError::InvalidUtf8 => "text is not valid UTF-8"@,
            DecodeError::InvalidKeyIdLength => "key id is not 16 bytes long"@,
        }
    }
}

/// The bytes that stand for an unsigned integer.
#[verifier::opaque]
pub open spec fn varint(v: u64) -> Seq<u8> {
    if v <= SINGLE_BYTE_MAX {
        seq![v as u8]
    } else if v <= u16::MAX {
        seq![U16_MARKER] + spec_u16_to_le_bytes(v as u16)
    } else if v <= u32::MAX {
        seq![U32_MARKER] + spec_u32_to_le_bytes(v as u32)
    } else {
        seq![U64_MARKER] + spec_u64_to_le_bytes(v)
    }
}

/// Number of bytes that `varint` writes.
pub open spec fn varint_len(v: u64) -> nat {
    if v <= SINGLE_BYTE_MAX {
        1
    } else if v <= u16::MAX {
        3
    } else if v <= u32::MAX {
        5
    } else {
        9
    }
}

/// What reading an unsigned integer of at most `max_width` bytes (4 or 8)
/// from the front of `s` yields: the integer and the number of bytes read.
#[verifier::opaque]
pub open spec fn parse_varint(s: Seq<u8>, max_width: nat) -> Result<(u64, nat), DecodeError> {
    if s.len() < 1 {
        Err(DecodeError::UnexpectedEnd)
    } else if s[0] <= SINGLE_BYTE_MAX {
        Ok((s[0] as u64, 1))
    } else if s[0] == U16_MARKER {
        if s.len() < 3 {
            Err(DecodeError::UnexpectedEnd)
        } else {
            Ok((spec_u16_from_le_bytes(s.subrange(1, 3)) as u64, 3))
        }
    } else if s[0] == U32_MARKER {
        if s.len() < 5 {
            Err(DecodeError::UnexpectedEnd)
        } else {
            Ok((spec_u32_from_le_bytes(s.subrange(1, 5)) as u64, 5))
        }
    } else if s[0] == U64_MARKER && max_width >= 8 {
        if s.len() < 9 {
            Err(DecodeError::UnexpectedEnd)
        } else {
            Ok((spec_u64_from_le_bytes(s.subrange(1, 9)), 9))
        }
    } else {
        Err(DecodeError::InvalidIntegerType)
    }
}

/// The unsigned integer onto which a signed one is folded: 0, -1, 1, -2, ...
/// become 0, 1, 2, 3, ...
pub open spec fn zigzag(v: i64) -> u64 {
    if v < 0 {
        (-2 * v - 1) as u64
    } else {
        (2 * v) as u64
    }
}

/// The signed integer that an unsigned one unfolds to.
pub open spec fn unzigzag(u: u64) -> i64 {
    if u % 2 == 0 {
        (u / 2) as i64
    } else {
        (-(u / 2) - 1) as i64
    }
}

/// A byte string: its length, then its bytes.
pub open spec fn length_prefixed(data: Seq<u8>) -> Seq<u8>
    recommends
        data.len() <= u64::MAX,
{
    varint(data.len() as u64) + data
}

/// What reading a byte string from the front of `s` yields.
pub open spec fn parse_length_prefixed(s: Seq<u8>) -> Result<(Seq<u8>, nat), DecodeError> {
    match parse_varint(s, 8) {
        Err(e) => Err(e),
        Ok((len, n)) => if len > usize::MAX {
            Err(DecodeError::LengthOverflow)
        } else if s.len() - n < len {
            Err(DecodeError::UnexpectedEnd)
        } else {
            Ok((s.subrange(n as int, n + len), (n + len) as nat))
        },
    }
}

/// Reading an integer back from its encoding yields the integer, whatever
/// follows it, provided the reader allows its width.
pub proof fn lemma_parse_varint_of_varint(v: u64, rest: Seq<u8>, max_width: nat)
    requires
        max_width >= 8 || v <= u32::MAX,
    ensures
        parse_varint(varint(v) + rest, max_width) == Ok::<(u64, nat), DecodeError>(
            (v, varint_len(v)),
        ),
        varint(v).len() == varint_len(v),
{
    reveal(varint);
    reveal(parse_varint);
    lemma_auto_spec_u16_to_from_le_bytes();
    lemma_auto_spec_u32_to_from_le_bytes();
    lemma_auto_spec_u64_to_from_le_bytes();
    let s = varint(v) + rest;
    if v <= SINGLE_BYTE_MAX {
        assert(s[0] == v as u8);
    } else if v <= u16::MAX {
        assert(s[0] == U16_MARKER);
        assert(s.subrange(1, 3) =~= spec_u16_to_le_bytes(v as u16));
    } else if v <= u32::MAX {
        assert(s[0] == U32_MARKER);
        assert(s.subrange(1, 5) =~= spec_u32_to_le_bytes(v as u32));
    } else {
        assert(s[0] == U64_MARKER);
        assert(s.subrange(1, 9) =~= spec_u64_to_le_bytes(v));
    }
}

/// Folding a signed integer and unfolding it again yields the integer.
pub proof fn lemma_unzigzag_of_zigzag(v: i64)
    ensures
        unzigzag(zigzag(v)) == v,
{
}

/// Reading a byte string back from its encoding yields the byte string,
/// whatever follows it.
pub proof fn lemma_parse_length_prefixed(data: Seq<u8>, rest: Seq<u8>)
    requires
        data.len() <= usize::MAX,
    ensures
        parse_length_prefixed(length_prefixed(data) + rest) == Ok::<(Seq<u8>, nat), DecodeError>(
            (data, length_prefixed(data).len()),
        ),
        length_prefixed(data).len() == varint_len(data.len() as u64) + data.len(),
{
    let len = data.len() as u64;
    let s = length_prefixed(data) + rest;
    assert(s =~= varint(len) + (data + rest));
    lemma_parse_varint_of_varint(len, data + rest, 8);
    let n = varint_len(len);
    assert(s.subrange(n as int, n + len) =~= data);
}

/// Appends `data` to `out`.
pub fn append_bytes(out: &mut Vec<u8>, data: &[u8])
    ensures
        final(out)@ == old(out)@ + data@,
{
    let mut i: usize = 0;
    while i < data.len()
        invariant
            i <= data@.len(),
            out@ == old(out)@ + data@.subrange(0, i as int),
        decreases data@.len() - i,
    {
        out.push(data[i]);
        i = i + 1;
        assert(data@.subrange(0, i as int) =~= data@.subrange(0, i - 1).push(data@[i - 1]));
    }
    assert(data@.subrange(0, i as int) =~= data@);
}

/// Appends the encoding of `v` to `out`.
pub fn write_varint(out: &mut Vec<u8>, v: u64)
    ensures
        final(out)@ == old(out)@ + varint(v),
{
    proof {
        reveal(varint);
    }
    if v <= 250 {
        out.push(v as u8);
        assert(out@ =~= old(out)@ + varint(v));
    } else if v <= 0xFFFF {
        out.push(U16_MARKER);
        let mut tail = u16_to_le_bytes(v as u16);
        out.append(&mut tail);
        assert(out@ =~= old(out)@ + varint(v));
    } else if v <= 0xFFFF_FFFF {
        out.push(U32_MARKER);
        let mut tail = u32_to_le_bytes(v as u32);
        out.append(&mut tail);
        assert(out@ =~= old(out)@ + varint(v));
    } else {
        out.push(U64_MARKER);
        let mut tail = u64_to_le_bytes(v);
        out.append(&mut tail);
        assert(out@ =~= old(out)@ + varint(v));
    }
}

/// Appends the encoding of the signed integer `v` to `out`.
pub fn write_signed_varint(out: &mut Vec<u8>, v: i64)
    ensures
        final(out)@ == old(out)@ + varint(zigzag(v)),
{
    let folded: u64 = if v < 0 {
        ((-(v + 1)) as u64) * 2 + 1
    } else {
        (v as u64) * 2
    };
    write_varint(out, folded);
}

/// Appends `data` to `out` as a byte string: its length, then its bytes.
pub fn write_length_prefixed(out: &mut Vec<u8>, data: &[u8])
    ensures
        final(out)@ == old(out)@ + length_prefixed(data@),
{
    write_varint(out, data.len() as u64);
    append_bytes(out, data);
    assert(out@ =~= old(out)@ + length_prefixed(data@));
}

/// Reads an unsigned integer of at most `max_width` bytes (4 or 8) at `pos`.
/// On success the second component is the position after the integer.
pub fn read_varint(bytes: &[u8], pos: usize, max_width: u8) -> (r: Result<
    (u64, usize),
    DecodeError,
>)
    requires
        pos <= bytes@.len(),
    ensures
        match parse_varint(bytes@.skip(pos as int), max_width as nat) {
            Ok((v, n)) => r matches Ok((found, next)) && found == v && next == pos + n && next
                <= bytes@.len(),
            Err(e) => r matches Err(found) && found == e,
        },
{
    proof {
        reveal(parse_varint);
    }
    let ghost s = bytes@.skip(pos as int);
    let len = bytes.len();
    if pos >= len {
        return Err(DecodeError::UnexpectedEnd);
    }
    let first = bytes[pos];
    assert(s[0] == first);
    let remaining = len - pos;
    if first <= SINGLE_BYTE_MAX {
        Ok((first as u64, pos + 1))
    } else if first == U16_MARKER {
        if remaining < 3 {
            Err(DecodeError::UnexpectedEnd)
        } else {
            let part = slice_subrange(bytes, pos + 1, pos + 3);
            assert(part@ =~= s.subrange(1, 3));
            Ok((u16_from_le_bytes(part) as u64, pos + 3))
        }
    } else if first == U32_MARKER {
        if remaining < 5 {
            Err(DecodeError::UnexpectedEnd)
        } else {
            let part = slice_subrange(bytes, pos + 1, pos + 5);
            assert(part@ =~= s.subrange(1, 5));
            Ok((u32_from_le_bytes(part) as u64, pos + 5))
        }
    } else if first == U64_MARKER && max_width >= 8 {
        if remaining < 9 {
            Err(DecodeError::UnexpectedEnd)
        } else {
            let part = slice_subrange(bytes, pos + 1, pos + 9);
            assert(part@ =~= s.subrange(1, 9));
            Ok((u64_from_le_bytes(part), pos + 9))
        }
    } else {
        Err(DecodeError::InvalidIntegerType)
    }
}

/// Reads a signed integer at `pos`.
pub fn read_signed_varint(bytes: &[u8], pos: usize) -> (r: Result<(i64, usize), DecodeError>)
    requires
        pos <= bytes@.len(),
    ensures
        match parse_varint(bytes@.skip(pos as int), 8) {
            Ok((u, n)) => r matches Ok((found, next)) && found == unzigzag(u) && next == pos + n
                && next <= bytes@.len(),
            Err(e) => r matches Err(found) && found == e,
        },
{
    match read_varint(bytes, pos, 8) {
        Err(e) => Err(e),
        Ok((u, next)) => {
            let v: i64 = if u % 2 == 0 {
                (u / 2) as i64
            } else {
                -((u / 2) as i64) - 1
            };
            Ok((v, next))
        },
    }
}

/// Reads a byte string at `pos`. On success the second component is the
/// position after the byte string.
pub fn read_length_prefixed(bytes: &[u8], pos: usize) -> (r: Result<(Vec<u8>, usize), DecodeError>)
    requires
        pos <= bytes@.len(),
    ensures
        match parse_length_prefixed(bytes@.skip(pos as int)) {
            Ok((data, n)) => r matches Ok((found, next)) && found@ == data && next == pos + n
                && next <= bytes@.len(),
            Err(e) => r matches Err(found) && found == e,
        },
{
    let ghost s = bytes@.skip(pos as int);
    match read_varint(bytes, pos, 8) {
        Err(e) => Err(e),
        Ok((len, start)) => {
            if len > usize::MAX as u64 {
                return Err(DecodeError::LengthOverflow);
            }
            let available = bytes.len() - start;
            if (available as u64) < len {
                return Err(DecodeError::UnexpectedEnd);
            }
            let end = start + len as usize;
            let part = slice_subrange(bytes, start, end);
            assert(part@ =~= s.subrange(start - pos, start - pos + len));
            Ok((vstd::slice::slice_to_vec(part), end))
        },
    }
}

} // verus!
