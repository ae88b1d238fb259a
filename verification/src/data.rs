use vstd::prelude::*;

use crate::errors::TpgError;
use crate::reg::{byte_of, literal_radix, literal_value, nibble_of, strip_separators, Reg};

verus! {

/// A six-octet Ethernet hardware address, most significant octet first.
#[derive(Debug, Clone, Copy, PartialEq, Eq, Structural)]
pub struct MacAddr(pub u8, pub u8, pub u8, pub u8, pub u8, pub u8);

/// The destination address a DATA value selects: the fixed prefix
/// 00:03:19:FF:FF, then 0xF0 OR'd with register nibble 3.
pub open spec fn spec_dest_addr(v: u16) -> MacAddr {
    MacAddr(0x00, 0x03, 0x19, 0xff, 0xff, 0xf0 | nibble_of(v, 3))
}

/// The source address a DATA value selects: the fixed prefix
/// 00:03:19:FF:FF, then 0xF0 OR'd with register nibble 2.
pub open spec fn spec_src_addr(v: u16) -> MacAddr {
    MacAddr(0x00, 0x03, 0x19, 0xff, 0xff, 0xf0 | nibble_of(v, 2))
}

/// The decoded view over the DATA register (PHY_TPGDATA). Decoding never
/// fails: DATA has no reserved bits.
#[derive(Default, Debug, Clone, Copy, PartialEq, Eq, Structural)]
pub struct Data {
    pub bits: Reg,
}

impl Data {
    pub fn from_reg(bits: Reg) -> (r: Data)
        ensures
            r.bits == bits,
    {
        Data { bits }
    }

    /// Parse a DATA literal. DATA has no reserved bits, so only a malformed
    /// literal is rejected.
    pub fn from_literal(s: &str) -> (r: Result<Data, TpgError>)
        ensures
            r is Ok <==> literal_value(s@) is Some,
            r matches Ok(d) ==> literal_value(s@) == Some(d.bits.0),
            r matches Err(e) ==> e matches TpgError::LiteralParse { text, radix }
                && text@ == s@ && radix == literal_radix(strip_separators(s@)),
    {
        match Reg::from_literal(s) {
            Ok(reg) => Ok(Data { bits: reg }),
            Err(e) => Err(e),
        }
    }

    pub fn dest_addr(&self) -> (r: MacAddr)
        ensures
            r == spec_dest_addr(self.bits.0),
    {
        MacAddr(0x00, 0x03, 0x19, 0xff, 0xff, 0xf0 | self.bits.nibble(3))
    }

    pub fn src_addr(&self) -> (r: MacAddr)
        ensures
            r == spec_src_addr(self.bits.0),
    {
        MacAddr(0x00, 0x03, 0x19, 0xff, 0xff, 0xf0 | self.bits.nibble(2))
    }

    /// The byte used to fill every payload octet under the `Predefined`
    /// payload policy: DATA byte 0.
    pub fn frame_data(&self) -> (r: u8)
        ensures
            r == byte_of(self.bits.0, 0),
    {
        self.bits.byte(0)
    }
}

/// The two addresses a DATA value selects share the fixed five-octet prefix
/// 00:03:19:FF:FF and a fixed 0xF high nibble in the final octet; they differ
/// only in that octet's low nibble, which equals register nibble 3
/// (destination) and nibble 2 (source).
pub proof fn lemma_mac_addressing(v: u16)
    ensures
        spec_dest_addr(v).0 == spec_src_addr(v).0 && spec_src_addr(v).0 == 0x00,
        spec_dest_addr(v).1 == spec_src_addr(v).1 && spec_src_addr(v).1 == 0x03,
        spec_dest_addr(v).2 == spec_src_addr(v).2 && spec_src_addr(v).2 == 0x19,
        spec_dest_addr(v).3 == spec_src_addr(v).3 && spec_src_addr(v).3 == 0xff,
        spec_dest_addr(v).4 == spec_src_addr(v).4 && spec_src_addr(v).4 == 0xff,
        spec_dest_addr(v).5 & 0xf0 == 0xf0,
        spec_src_addr(v).5 & 0xf0 == 0xf0,
        spec_dest_addr(v).5 & 0x0f == nibble_of(v, 3),
        spec_src_addr(v).5 & 0x0f == nibble_of(v, 2),
{
    assert((0xf0u8 | (((v >> 12) & 0xf) as u8)) & 0xf0 == 0xf0) by (bit_vector);
    assert((0xf0u8 | (((v >> 12) & 0xf) as u8)) & 0x0f == ((v >> 12) & 0xf) as u8)
        by (bit_vector);
    assert((0xf0u8 | (((v >> 8) & 0xf) as u8)) & 0xf0 == 0xf0) by (bit_vector);
    assert((0xf0u8 | (((v >> 8) & 0xf) as u8)) & 0x0f == ((v >> 8) & 0xf) as u8) by (bit_vector);
}

} // verus!
