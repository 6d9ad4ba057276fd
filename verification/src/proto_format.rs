//! The protocol-buffer wire encoding, as far as the signed message needs it:
//! base-128 integers and fields that are either an integer or a byte string.

use vstd::prelude::*;
use crate::binary_format::append_bytes;

verus! {

/// A value in its wire form could not be turned into a value of the
/// library.
#[derive(Clone, Copy, Debug, PartialEq, Eq, Structural)]
pub struct ConversionError;

impl ConversionError {
    pub open spec fn message(self) -> Seq<char> {
        "A protobuf conversion error occurred"@
    }

    pub fn to_string(&self) -> (text: String)
        ensures
            text@ == self.message(),
    {
        "A protobuf conversion error occurred".to_owned()
    }
}

/// Wire type of a field that holds an integer.
pub const WIRE_VARINT: u64 = 0;

/// Wire type of a field that holds a length and that many bytes.
pub const WIRE_LENGTH_DELIMITED: u64 = 2;

/// An integer in base 128, least significant group first; every byte but
/// the last has its high bit set.
pub open spec fn base128(v: nat) -> Seq<u8>
    decreases v,
{
    if v < 128 {
        seq![v as u8]
    } else {
        seq![(v % 128 + 128) as u8] + base128(v / 128)
    }
}

/// The key that precedes a field: its number and its wire type.
pub open spec fn field_key(number: nat, wire_type: nat) -> Seq<u8> {
    base128(number * 8 + wire_type)
}

/// A field that holds an integer.
pub open spec fn integer_field(number: nat, v: nat) -> Seq<u8> {
    field_key(number, WIRE_VARINT as nat) + base128(v)
}

/// A field that holds a byte string.
pub open spec fn bytes_field(number: nat, data: Seq<u8>) -> Seq<u8> {
    field_key(number, WIRE_LENGTH_DELIMITED as nat) + base128(data.len()) + data
}

/// Appends `v` in base 128 to `out`.
pub fn write_base128(out: &mut Vec<u8>, v: u64)
    ensures
        final(out)@ == old(out)@ + base128(v as nat),
{
    let mut rest: u64 = v;
    while rest >= 128
        invariant
            out@ + base128(rest as nat) == old(out)@ + base128(v as nat),
        decreases rest,
    {
        let ghost before = out@;
        out.push((rest % 128 + 128) as u8);
        assert(before + base128(rest as nat) =~= out@ + base128((rest / 128) as nat));
        rest = rest / 128;
    }
    let ghost before = out@;
    out.push(rest as u8);
    assert(out@ =~= before + base128(rest as nat));
}

/// Appends to `out` the field `number` holding the integer `v`.
pub fn write_integer_field(out: &mut Vec<u8>, number: u32, v: u64)
    ensures
        final(out)@ == old(out)@ + integer_field(number as nat, v as nat),
{
    write_base128(out, (number as u64) * 8 + WIRE_VARINT);
    write_base128(out, v);
    assert(out@ =~= old(out)@ + integer_field(number as nat, v as nat));
}

/// Appends to `out` the field `number` holding the byte string `data`.
pub fn write_bytes_field(out: &mut Vec<u8>, number: u32, data: &[u8])
    ensures
        final(out)@ == old(out)@ + bytes_field(number as nat, data@),
{
    write_base128(out, (number as u64) * 8 + WIRE_LENGTH_DELIMITED);
    write_base128(out, data.len() as u64);
    append_bytes(out, data);
    assert(out@ =~= old(out)@ + bytes_field(number as nat, data@));
}

} // verus!
