use vstd::prelude::*;

verus! {

/// A register field whose behaviour the hardware documentation names but does
/// not specify; selecting it must fail loudly instead of guessing.
#[derive(Clone, Copy, Debug, PartialEq, Eq, Structural)]
pub enum UnsupportedField {
    ChannelSelect,
    ManagementOption,
    DebugPacketType,
}

/// Everything that can go wrong between reading a register literal and
/// synthesizing a frame. Transport failures are not represented here: they
/// belong to the raw-socket layer around this library.
#[derive(Debug, PartialEq, Eq)]
pub enum TpgError {
    /// A CTRL/DATA literal could not be read under the radix its prefix
    /// selects; carries the offending text and the attempted radix.
    LiteralParse { text: String, radix: u16 },
    /// CTRL bit 7 is reserved and must be zero; `corrected` is the same value
    /// with that bit cleared, to aid diagnosis.
    ReservedBitSet { corrected: u16 },
    /// CTRL did not have both the enable bit and the start bit set; carries
    /// the raw CTRL value.
    NotEnabledOrStarted { ctrl: u16 },
    /// A register field selects documented-but-unimplemented behaviour.
    UnimplementedOption { field: UnsupportedField },
}

} // verus!
