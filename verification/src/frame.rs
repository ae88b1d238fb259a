use vstd::prelude::*;

use rand::seq::IndexedRandom;

use crate::ctrl::{PacketType, SizeOpt};
use crate::errors::{TpgError, UnsupportedField};
use crate::plan::GenerationPlan;

verus! {

/// The four sizes a random-size draw may produce; random draws never yield
/// a jumbo length.
pub open spec fn in_random_size_set(t: u16) -> bool {
    t == 64 || t == 256 || t == 1024 || t == 1518
}

/// Whether `total` is a total frame length the size policy allows.
pub open spec fn total_len_ok(s: SizeOpt, total: u16) -> bool {
    match s {
        SizeOpt::Fixed { len } => total == len,
        SizeOpt::Random => in_random_size_set(total),
    }
}

/// The 14-octet header: destination address, source address, then the
/// payload length in the two-octet type/length field, most significant
/// octet first.
pub open spec fn header_ok(p: GenerationPlan, b: Seq<u8>) -> bool {
    let plen = b.len() - 14;
    &&& b.len() >= 14
    &&& b[0] == p.dest.0
    &&& b[1] == p.dest.1
    &&& b[2] == p.dest.2
    &&& b[3] == p.dest.3
    &&& b[4] == p.dest.4
    &&& b[5] == p.dest.5
    &&& b[6] == p.src.0
    &&& b[7] == p.src.1
    &&& b[8] == p.src.2
    &&& b[9] == p.src.3
    &&& b[10] == p.src.4
    &&& b[11] == p.src.5
    &&& b[12] == plen / 256
    &&& b[13] == plen % 256
}

/// What the payload policy pins down about the octets after the header:
/// everything for `ByteInc` and `Predefined`, nothing for `Random`; no
/// frame at all exists for `Debug`.
pub open spec fn payload_ok(p: GenerationPlan, b: Seq<u8>) -> bool {
    match p.ptype {
        PacketType::ByteInc => forall|k: int|
            14 <= k < b.len() ==> #[trigger] b[k] == ((k - 14) % 256) as u8,
        PacketType::Predefined => forall|k: int|
            14 <= k < b.len() ==> #[trigger] b[k] == p.fill_byte,
        PacketType::Random => true,
        PacketType::Debug => false,
    }
}

/// A wire-ready frame for plan `p`: its length obeys the size policy under
/// the documented 18-octet allowance (total length equals byte count plus
/// the four trailer octets the transport appends), and header and payload
/// are laid out as documented.
pub open spec fn frame_ok(p: GenerationPlan, b: Seq<u8>) -> bool {
    &&& b.len() >= 14
    &&& b.len() + 4 <= 0xffff
    &&& total_len_ok(p.size, (b.len() + 4) as u16)
    &&& header_ok(p, b)
    &&& payload_ok(p, b)
}

/// Relies on rand::random: one byte from the thread-local generator.
/// Nothing is assumed of its value.
#[verifier::external_body]
fn random_byte() -> u8 {
    rand::random()
}

/// Relies on rand's IndexedRandom::choose: yields a uniformly drawn element
/// of the slice, and None exactly when the slice is empty.
#[verifier::external_body]
fn choose_from(options: &Vec<u16>) -> (r: Option<u16>)
    ensures
        r is Some <==> options@.len() > 0,
        r matches Some(v) ==> options@.contains(v),
{
    options.as_slice().choose(&mut rand::rng()).copied()
}

/// The synthesized byte sequence for one Ethernet frame: header then
/// payload. The four-octet frame check sequence is left to the transport.
pub struct Frame {
    pub bytes: Vec<u8>,
}

/// Resolve the total frame length this frame will use: the fixed length
/// itself, or a fresh draw from the documented four-element set.
pub fn resolve_total(size: &SizeOpt) -> (t: u16)
    ensures
        total_len_ok(*size, t),
{
    match size {
        SizeOpt::Fixed { len } => *len,
        SizeOpt::Random => {
            let mut options: Vec<u16> = Vec::new();
            options.push(64);
            options.push(256);
            options.push(1024);
            options.push(1518);
            match choose_from(&options) {
                Some(t) => t,
                None => unreached(),
            }
        },
    }
}

impl Frame {
    /// Build one frame of the given total length. Fails exactly when the
    /// payload policy is the documented-but-unimplemented `Debug`; no other
    /// policy is ever substituted for it.
    pub fn synthesize_with_total(plan: &GenerationPlan, total: u16) -> (r: Result<Frame, TpgError>)
        requires
            total >= 18,
            total_len_ok(plan.size, total),
        ensures
            r is Ok <==> !(plan.ptype is Debug),
            r matches Ok(f) ==> frame_ok(*plan, f.bytes@) && f.bytes@.len() + 4 == total,
            r matches Err(e) ==> e == (TpgError::UnimplementedOption {
                field: UnsupportedField::DebugPacketType,
            }),
    {
        if let PacketType::Debug = plan.ptype {
            return Err(TpgError::UnimplementedOption { field: UnsupportedField::DebugPacketType });
        }
        let plen: u16 = total - 18;
        let mut bytes: Vec<u8> = Vec::new();
        bytes.push(plan.dest.0);
        bytes.push(plan.dest.1);
        bytes.push(plan.dest.2);
        bytes.push(plan.dest.3);
        bytes.push(plan.dest.4);
        bytes.push(plan.dest.5);
        bytes.push(plan.src.0);
        bytes.push(plan.src.1);
        bytes.push(plan.src.2);
        bytes.push(plan.src.3);
        bytes.push(plan.src.4);
        bytes.push(plan.src.5);
        bytes.push((plen / 256) as u8);
        bytes.push((plen % 256) as u8);
        let ghost hdr = bytes@;
        proof {
            assert(bytes@.take(14) =~= hdr);
            assert(hdr[0] == plan.dest.0 && hdr[1] == plan.dest.1 && hdr[2] == plan.dest.2
                && hdr[3] == plan.dest.3 && hdr[4] == plan.dest.4 && hdr[5] == plan.dest.5);
            assert(hdr[6] == plan.src.0 && hdr[7] == plan.src.1 && hdr[8] == plan.src.2 && hdr[9]
                == plan.src.3 && hdr[10] == plan.src.4 && hdr[11] == plan.src.5);
            assert(hdr[12] == plen / 256 && hdr[13] == plen % 256);
        }
        let count: usize = plen as usize;
        let mut i: usize = 0;
        while i < count
            invariant
                i <= count,
                count == plen,
                bytes@.len() == 14 + i,
                bytes@.take(14) == hdr,
                hdr.len() == 14,
                !(plan.ptype is Debug),
                payload_ok(*plan, bytes@),
            decreases count - i,
        {
            let fill: u8 = match plan.ptype {
                PacketType::Random => random_byte(),
                PacketType::ByteInc => (i % 256) as u8,
                PacketType::Predefined => plan.fill_byte,
                PacketType::Debug => unreached(),
            };
            bytes.push(fill);
            proof {
                assert(bytes@.take(14) =~= hdr);
            }
            i += 1;
        }
        proof {
            assert forall|k: int| 0 <= k < 14 implies bytes@[k] == hdr[k] by {
                assert(bytes@.take(14)[k] == bytes@[k]);
            }
        }
        Ok(Frame { bytes })
    }

    /// Build one frame for the plan, drawing this frame's length afresh
    /// when the size policy is the per-frame random draw.
    pub fn synthesize(plan: &GenerationPlan) -> (r: Result<Frame, TpgError>)
        requires
            plan.wf(),
        ensures
            r is Ok <==> !(plan.ptype is Debug),
            r matches Ok(f) ==> frame_ok(*plan, f.bytes@),
            r matches Err(e) ==> e == (TpgError::UnimplementedOption {
                field: UnsupportedField::DebugPacketType,
            }),
    {
        let total = resolve_total(&plan.size);
        Frame::synthesize_with_total(plan, total)
    }
}

/// With a fixed total length and a payload policy that draws no randomness,
/// synthesis is deterministic: any two frames that are wire-ready for the
/// same plan are byte-identical.
pub proof fn lemma_synthesis_deterministic(p: GenerationPlan, b1: Seq<u8>, b2: Seq<u8>)
    requires
        p.size is Fixed,
        p.ptype == PacketType::ByteInc || p.ptype == PacketType::Predefined,
        frame_ok(p, b1),
        frame_ok(p, b2),
    ensures
        b1 == b2,
{
    assert(b1.len() == b2.len());
    assert forall|k: int| 0 <= k < b1.len() implies b1[k] == b2[k] by {
        if k >= 14 {
            assert(14 <= k < b1.len());
            assert(14 <= k < b2.len());
        }
    }
    assert(b1 =~= b2);
}

} // verus!
