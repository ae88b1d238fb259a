use vstd::prelude::*;

use crate::ctrl::{
    spec_ipg, spec_mode, spec_ptype, spec_should_run, spec_size, Ctrl, InterPacketGap, Mode,
    PacketType, SizeOpt,
};
use crate::data::{spec_dest_addr, spec_src_addr, Data, MacAddr};
use crate::errors::TpgError;
use crate::reg::byte_of;

verus! {

/// The fully resolved, immutable synthesis plan for one (CTRL, DATA) pair:
/// size policy, payload policy, addressing, fill byte, pacing and mode.
#[derive(Debug, Clone, Copy, PartialEq, Eq, Structural)]
pub struct GenerationPlan {
    pub size: SizeOpt,
    pub ptype: PacketType,
    pub dest: MacAddr,
    pub src: MacAddr,
    pub fill_byte: u8,
    pub ipg: InterPacketGap,
    pub mode: Mode,
}

/// The plan that a (CTRL, DATA) register pair resolves to.
pub open spec fn spec_plan(c: u16, d: u16) -> GenerationPlan {
    GenerationPlan {
        size: spec_size(c),
        ptype: spec_ptype(c),
        dest: spec_dest_addr(d),
        src: spec_src_addr(d),
        fill_byte: byte_of(d, 0),
        ipg: spec_ipg(c),
        mode: spec_mode(c),
    }
}

impl GenerationPlan {
    /// Every fixed total frame length leaves room for the 14-octet header
    /// once the documented 18-octet header-and-trailer allowance is taken
    /// off; decoded plans always satisfy this.
    pub open spec fn wf(self) -> bool {
        match self.size {
            SizeOpt::Fixed { len } => len >= 18,
            SizeOpt::Random => true,
        }
    }

    /// Resolve a decoded register pair into a plan. Fails with
    /// `NotEnabledOrStarted` exactly when CTRL does not have both the enable
    /// and the start bit set; no plan ever exists for such a pair.
    pub fn new(ctrl: &Ctrl, data: &Data) -> (r: Result<GenerationPlan, TpgError>)
        ensures
            r is Ok <==> spec_should_run(ctrl.bits.0),
            r matches Ok(p) ==> p == spec_plan(ctrl.bits.0, data.bits.0) && p.wf(),
            r matches Err(e) ==> e == (TpgError::NotEnabledOrStarted { ctrl: ctrl.bits.0 }),
    {
        if !ctrl.should_run() {
            return Err(TpgError::NotEnabledOrStarted { ctrl: ctrl.bits.0 });
        }
        let plan = GenerationPlan {
            size: ctrl.size(),
            ptype: ctrl.ptype(),
            dest: data.dest_addr(),
            src: data.src_addr(),
            fill_byte: data.frame_data(),
            ipg: ctrl.ipgl(),
            mode: ctrl.mode(),
        };
        Ok(plan)
    }
}

/// Decoding is deterministic: two plans resolved from the same (CTRL, DATA)
/// register pair are structurally identical.
pub proof fn lemma_plan_deterministic(c: u16, d: u16, p1: GenerationPlan, p2: GenerationPlan)
    requires
        p1 == spec_plan(c, d),
        p2 == spec_plan(c, d),
    ensures
        p1 == p2,
{
}

} // verus!
