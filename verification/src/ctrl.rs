use vstd::prelude::*;

use crate::errors::{TpgError, UnsupportedField};
use crate::reg::{literal_radix, literal_value, strip_separators, Reg};

verus! {

/// Emission mode: CTRL bit 13 clear means continuous, set means single-shot.
#[derive(Clone, Copy, Debug, PartialEq, Eq, Structural)]
pub enum Mode {
    Continuous,
    Single,
}

/// Decoded inter-packet gap, in bit-times at the nominal link rate.
#[derive(Clone, Copy, Debug, PartialEq, Eq, Structural)]
pub struct InterPacketGap {
    pub bitlen: u16,
}

/// Frame size policy: a fixed total frame length (header and trailer
/// included), or a fresh draw from {64, 256, 1024, 1518} per frame.
#[derive(Clone, Copy, Debug, PartialEq, Eq, Structural)]
pub enum SizeOpt {
    Fixed { len: u16 },
    Random,
}

/// Payload fill policy selected by CTRL bits 8-9. `Debug` is documented but
/// its behaviour is not; synthesis must refuse it rather than substitute.
#[derive(Clone, Copy, Debug, PartialEq, Eq, Structural)]
pub enum PacketType {
    Random,
    ByteInc,
    Predefined,
    Debug,
}

/// CTRL bit 7 is reserved and must be zero.
pub open spec fn reserved_bit_set(v: u16) -> bool {
    v & 0x80 != 0
}

pub open spec fn spec_enable(v: u16) -> bool {
    v & 0x1 != 0
}

pub open spec fn spec_start(v: u16) -> bool {
    v & 0x2 != 0
}

pub open spec fn spec_should_run(v: u16) -> bool {
    spec_enable(v) && spec_start(v)
}

pub open spec fn spec_mode(v: u16) -> Mode {
    if (v >> 13) & 0x1 == 0 {
        Mode::Continuous
    } else {
        Mode::Single
    }
}

/// The raw 3-bit size-policy field, CTRL bits 4-6.
pub open spec fn size_field(v: u16) -> u16 {
    (v >> 4) & 0x7
}

/// The documented size table: patterns 0-6 are fixed total lengths, 7 draws
/// the length per frame.
pub open spec fn spec_size(v: u16) -> SizeOpt {
    let f = size_field(v);
    if f == 0 {
        SizeOpt::Fixed { len: 64 }
    } else if f == 1 {
        SizeOpt::Fixed { len: 2048 }
    } else if f == 2 {
        SizeOpt::Fixed { len: 256 }
    } else if f == 3 {
        SizeOpt::Fixed { len: 4096 }
    } else if f == 4 {
        SizeOpt::Fixed { len: 1024 }
    } else if f == 5 {
        SizeOpt::Fixed { len: 1518 }
    } else if f == 6 {
        SizeOpt::Fixed { len: 9000 }
    } else {
        SizeOpt::Random
    }
}

/// The documented gap table over CTRL bits 10-11, in bit-times.
pub open spec fn spec_ipg(v: u16) -> InterPacketGap {
    let f = (v >> 10) & 0x3;
    if f == 0 {
        InterPacketGap { bitlen: 48 }
    } else if f == 1 {
        InterPacketGap { bitlen: 96 }
    } else if f == 2 {
        InterPacketGap { bitlen: 960 }
    } else {
        InterPacketGap { bitlen: 9600 }
    }
}

/// The payload-type table over CTRL bits 8-9.
pub open spec fn spec_ptype(v: u16) -> PacketType {
    let f = (v >> 8) & 0x3;
    if f == 0 {
        PacketType::Random
    } else if f == 1 {
        PacketType::ByteInc
    } else if f == 2 {
        PacketType::Predefined
    } else {
        PacketType::Debug
    }
}

/// The decoded view over the CTRL register (PHY_TPGCTRL).
#[derive(Debug, Clone, Copy, PartialEq, Eq, Structural)]
pub struct Ctrl {
    pub bits: Reg,
}

impl Ctrl {
    /// Decode CTRL from a raw register value. For every value with bit 7 set
    /// this fails with `ReservedBitSet`; for every value with bit 7 clear it
    /// succeeds.
    pub fn from_reg(bits: Reg) -> (r: Result<Ctrl, TpgError>)
        ensures
            r is Ok <==> !reserved_bit_set(bits.0),
            r matches Ok(c) ==> c.bits == bits,
            r matches Err(e) ==> e == (TpgError::ReservedBitSet { corrected: bits.0 ^ 0x80 }),
    {
        if bits.0 & 0x80 != 0 {
            Err(TpgError::ReservedBitSet { corrected: bits.0 ^ 0x80 })
        } else {
            Ok(Ctrl { bits })
        }
    }

    /// Parse a CTRL literal and decode it: a malformed literal and a set
    /// reserved bit are both rejected before anything is generated.
    pub fn from_literal(s: &str) -> (r: Result<Ctrl, TpgError>)
        ensures
            r is Ok <==> (literal_value(s@) matches Some(v) && !reserved_bit_set(v)),
            r matches Ok(c) ==> literal_value(s@) == Some(c.bits.0),
            literal_value(s@) matches Some(v) ==> (reserved_bit_set(v) ==> r == Err::<
                Ctrl,
                TpgError,
            >(TpgError::ReservedBitSet { corrected: v ^ 0x80 })),
            literal_value(s@) is None ==> (r matches Err(e)
                && e matches TpgError::LiteralParse { text, radix } && text@ == s@ && radix
                == literal_radix(strip_separators(s@))),
    {
        match Reg::from_literal(s) {
            Ok(reg) => Ctrl::from_reg(reg),
            Err(e) => Err(e),
        }
    }

    pub fn start(&self) -> (r: bool)
        ensures
            r == spec_start(self.bits.0),
    {
        self.bits.0 & 0x2 != 0
    }

    pub fn enable(&self) -> (r: bool)
        ensures
            r == spec_enable(self.bits.0),
    {
        self.bits.0 & 0x1 != 0
    }

    /// Generation is permitted only when both the enable and the start bit
    /// are set.
    pub fn should_run(&self) -> (r: bool)
        ensures
            r == spec_should_run(self.bits.0),
    {
        self.enable() && self.start()
    }

    pub fn mode(&self) -> (r: Mode)
        ensures
            r == spec_mode(self.bits.0),
    {
        if (self.bits.0 >> 13) & 0x1 == 0 {
            Mode::Continuous
        } else {
            Mode::Single
        }
    }

    pub fn size(&self) -> (r: SizeOpt)
        ensures
            r == spec_size(self.bits.0),
    {
        let f = (self.bits.0 >> 4) & 0x7;
        proof {
            let v = self.bits.0;
            assert((v >> 4) & 0x7 <= 7) by (bit_vector);
        }
        match f {
            0 => SizeOpt::Fixed { len: 64 },
            1 => SizeOpt::Fixed { len: 2048 },
            2 => SizeOpt::Fixed { len: 256 },
            3 => SizeOpt::Fixed { len: 4096 },
            4 => SizeOpt::Fixed { len: 1024 },
            5 => SizeOpt::Fixed { len: 1518 },
            6 => SizeOpt::Fixed { len: 9000 },
            _ => SizeOpt::Random,
        }
    }

    pub fn ipgl(&self) -> (r: InterPacketGap)
        ensures
            r == spec_ipg(self.bits.0),
    {
        let f = (self.bits.0 >> 10) & 0x3;
        match f {
            0 => InterPacketGap { bitlen: 48 },
            1 => InterPacketGap { bitlen: 96 },
            2 => InterPacketGap { bitlen: 960 },
            _ => InterPacketGap { bitlen: 9600 },
        }
    }

    pub fn ptype(&self) -> (r: PacketType)
        ensures
            r == spec_ptype(self.bits.0),
    {
        let f = (self.bits.0 >> 8) & 0x3;
        match f {
            0 => PacketType::Random,
            1 => PacketType::ByteInc,
            2 => PacketType::Predefined,
            _ => PacketType::Debug,
        }
    }

    /// Channel select: referenced by the register layout, semantics
    /// undocumented; any access fails rather than guessing a value.
    pub fn chsel(&self) -> (r: Result<u16, TpgError>)
        ensures
            r == Err::<u16, TpgError>(
                TpgError::UnimplementedOption { field: UnsupportedField::ChannelSelect },
            ),
    {
        Err(TpgError::UnimplementedOption { field: UnsupportedField::ChannelSelect })
    }

    /// Management option: referenced by the register layout, semantics
    /// undocumented; any access fails rather than guessing a value.
    pub fn mopt(&self) -> (r: Result<u16, TpgError>)
        ensures
            r == Err::<u16, TpgError>(
                TpgError::UnimplementedOption { field: UnsupportedField::ManagementOption },
            ),
    {
        Err(TpgError::UnimplementedOption { field: UnsupportedField::ManagementOption })
    }
}

impl SizeOpt {
    /// A size policy is jumbo when it fixes a total length above 1518 octets;
    /// random draws never exceed 1518.
    pub fn is_jumbo(&self) -> (r: bool)
        ensures
            r == (self matches SizeOpt::Fixed { len } && len > 1518),
    {
        match self {
            SizeOpt::Fixed { len } => *len > 1518,
            SizeOpt::Random => false,
        }
    }
}

/// The size-policy table, stated pattern by pattern: bit patterns 0-6 decode
/// to the documented fixed lengths and pattern 7 to the per-frame random
/// draw.
pub proof fn lemma_size_table(v: u16)
    ensures
        size_field(v) == 0 ==> spec_size(v) == (SizeOpt::Fixed { len: 64u16 }),
        size_field(v) == 1 ==> spec_size(v) == (SizeOpt::Fixed { len: 2048u16 }),
        size_field(v) == 2 ==> spec_size(v) == (SizeOpt::Fixed { len: 256u16 }),
        size_field(v) == 3 ==> spec_size(v) == (SizeOpt::Fixed { len: 4096u16 }),
        size_field(v) == 4 ==> spec_size(v) == (SizeOpt::Fixed { len: 1024u16 }),
        size_field(v) == 5 ==> spec_size(v) == (SizeOpt::Fixed { len: 1518u16 }),
        size_field(v) == 6 ==> spec_size(v) == (SizeOpt::Fixed { len: 9000u16 }),
        size_field(v) == 7 ==> spec_size(v) == SizeOpt::Random,
        size_field(v) <= 7,
{
    assert((v >> 4) & 0x7 <= 7) by (bit_vector);
}

} // verus!
