//! Globally unique identifiers in their wire format.

use vstd::prelude::*;
use vstd::slice::slice_subrange;
use crate::error::Error;
use crate::parser::{after, le_u16, le_u32, plain, u16_le, u32_le};

verus! {

/// A GUID, held as the 128-bit number that its usual text form spells in hexadecimal:
/// `{e9b0e6d9-811c-11d0-ad51-00a0c90f5739}` is `0xe9b0e6d9_811c_11d0_ad51_00a0c90f5739`.
pub type Guid = u128;

/// The GUID that has the given fields; `data4` is in the order of the wire.
pub open spec fn guid_of_fields(data1: u32, data2: u16, data3: u16, data4: Seq<u8>) -> Guid
    recommends
        data4.len() == 8,
{
    (data1 * 0x1_0000_0000_0000_0000_0000_0000 + data2 * 0x1_0000_0000_0000_0000_0000 + data3
        * 0x1_0000_0000_0000_0000 + data4[0] * 0x100_0000_0000_0000 + data4[1]
        * 0x1_0000_0000_0000 + data4[2] * 0x100_0000_0000 + data4[3] * 0x1_0000_0000 + data4[4]
        * 0x100_0000 + data4[5] * 0x1_0000 + data4[6] * 0x100 + data4[7]) as u128
}

/// What `parse_guid` returns on `s`.
pub open spec fn spec_guid(s: Seq<u8>) -> Result<(Seq<u8>, Guid), Error> {
    if s.len() < 16 {
        Err(Error::Incomplete)
    } else {
        Ok(
            (
                after(s, 16),
                guid_of_fields(
                    u32_le(s[0], s[1], s[2], s[3]),
                    u16_le(s[4], s[5]),
                    u16_le(s[6], s[7]),
                    s.subrange(8, 16),
                ),
            ),
        )
    }
}

/// Builds a GUID from its four fields; `data4` is in the order of the wire.
pub fn guid_from_fields(data1: u32, data2: u16, data3: u16, data4: &[u8; 8]) -> (guid: Guid)
    ensures
        guid == guid_of_fields(data1, data2, data3, data4@),
{
    (data1 as u128) * 0x1_0000_0000_0000_0000_0000_0000 + (data2 as u128)
        * 0x1_0000_0000_0000_0000_0000 + (data3 as u128) * 0x1_0000_0000_0000_0000 + (
    data4[0] as u128) * 0x100_0000_0000_0000 + (data4[1] as u128) * 0x1_0000_0000_0000 + (
    data4[2] as u128) * 0x100_0000_0000 + (data4[3] as u128) * 0x1_0000_0000 + (data4[4] as u128)
        * 0x100_0000 + (data4[5] as u128) * 0x1_0000 + (data4[6] as u128) * 0x100 + (
    data4[7] as u128)
}

/// Reads a GUID in its wire format: three little-endian fields, then eight bytes in order.
pub fn parse_guid(input: &[u8]) -> (res: Result<(&[u8], Guid), Error>)
    ensures
        plain(res) == spec_guid(input@),
{
    if input.len() < 16 {
        return Err(Error::Incomplete);
    }
    let (rest, data1) = le_u32(input)?;
    let (rest, data2) = le_u16(rest)?;
    let (rest, data3) = le_u16(rest)?;
    let data4: [u8; 8] = [
        rest[0],
        rest[1],
        rest[2],
        rest[3],
        rest[4],
        rest[5],
        rest[6],
        rest[7],
    ];
    assert(data4@ == input@.subrange(8, 16));
    Ok((slice_subrange(input, 16, input.len()), guid_from_fields(data1, data2, data3, &data4)))
}

} // verus!
