use vstd::prelude::*;

use crate::ctrl::{spec_mode, spec_should_run, Ctrl, Mode};
use crate::errors::TpgError;

verus! {

/// The driver's two states; every run begins and ends in `Idle`.
#[derive(Clone, Copy, Debug, PartialEq, Eq, Structural)]
pub enum DriverState {
    Idle,
    Running,
}

/// What the caller must do next: synthesize and emit one frame, pacing by
/// the inter-packet gap first when `pause_before` is set, or end the run.
#[derive(Clone, Copy, Debug, PartialEq, Eq, Structural)]
pub enum StepAction {
    Emit { pause_before: bool },
    Finish,
}

/// The generation state machine. It only decides; the loop around it
/// synthesizes frames, sends them and sleeps, and feeds back what it saw
/// (a cancellation signal, a fresh CTRL value).
#[derive(Clone, Copy, Debug)]
pub struct Driver {
    pub mode: Mode,
    pub state: DriverState,
    /// Frames emitted so far in the current run; surfaced to the caller on
    /// failure so partial output can be reported.
    pub emitted: u64,
    /// An optional caller-supplied safeguard on the length of a continuous
    /// run.
    pub max_frames: Option<u64>,
}

impl Driver {
    /// The caller-supplied frame limit has been reached, or the counter
    /// can grow no further.
    pub open spec fn limit_reached(self) -> bool {
        ||| (self.max_frames matches Some(m) && self.emitted >= m)
        ||| self.emitted == u64::MAX
    }

    /// The run is over: the caller cancelled, a fresh CTRL value no longer
    /// has both enable and start set, the frame limit is reached, or
    /// single-shot mode has already emitted its one frame.
    pub open spec fn spec_stop(self, cancelled: bool, fresh_ctrl: Option<Ctrl>) -> bool {
        ||| cancelled
        ||| (fresh_ctrl matches Some(c) && !spec_should_run(c.bits.0))
        ||| self.limit_reached()
        ||| (self.mode is Single && self.emitted >= 1)
    }

    pub fn new(ctrl: &Ctrl, max_frames: Option<u64>) -> (d: Driver)
        ensures
            d.mode == spec_mode(ctrl.bits.0),
            d.state is Idle,
            d.emitted == 0,
            d.max_frames == max_frames,
    {
        Driver { mode: ctrl.mode(), state: DriverState::Idle, emitted: 0, max_frames }
    }

    /// The only transition out of `Idle`. It requires CTRL to have both the
    /// enable and the start bit set; otherwise it fails with
    /// `NotEnabledOrStarted` and the driver never enters `Running`.
    pub fn start_run(&mut self, ctrl: &Ctrl) -> (r: Result<(), TpgError>)
        requires
            old(self).state is Idle,
        ensures
            r is Ok <==> spec_should_run(ctrl.bits.0),
            r is Ok ==> *final(self) == (Driver {
                state: DriverState::Running,
                emitted: 0u64,
                ..*old(self)
            }),
            r is Err ==> *final(self) == *old(self) && r == Err::<(), TpgError>(
                TpgError::NotEnabledOrStarted { ctrl: ctrl.bits.0 },
            ),
    {
        if ctrl.should_run() {
            self.state = DriverState::Running;
            self.emitted = 0;
            Ok(())
        } else {
            Err(TpgError::NotEnabledOrStarted { ctrl: ctrl.bits.0 })
        }
    }

    /// One decision of a running generation loop. When any stop condition
    /// holds the driver returns to `Idle` with the emission count kept;
    /// otherwise it orders one more frame, pacing all but the first one,
    /// and counts it.
    pub fn step(&mut self, cancelled: bool, fresh_ctrl: Option<Ctrl>) -> (a: StepAction)
        requires
            old(self).state is Running,
        ensures
            old(self).spec_stop(cancelled, fresh_ctrl) ==> a is Finish && *final(self)
                == (Driver { state: DriverState::Idle, ..*old(self) }),
            !old(self).spec_stop(cancelled, fresh_ctrl) ==> (a matches StepAction::Emit {
                pause_before,
            } && pause_before == (old(self).emitted > 0) && *final(self) == (Driver {
                emitted: (old(self).emitted + 1) as u64,
                ..*old(self)
            })),
    {
        let limit = match self.max_frames {
            Some(m) => self.emitted >= m,
            None => false,
        } || self.emitted == u64::MAX;
        let fresh_stop = match fresh_ctrl {
            Some(c) => !c.should_run(),
            None => false,
        };
        let single_done = match self.mode {
            Mode::Single => self.emitted >= 1,
            Mode::Continuous => false,
        };
        if cancelled || fresh_stop || limit || single_done {
            self.state = DriverState::Idle;
            StepAction::Finish
        } else {
            let pause_before = self.emitted > 0;
            self.emitted = self.emitted + 1;
            StepAction::Emit { pause_before }
        }
    }
}

/// Single-shot mode emits exactly one frame: once one frame has been
/// counted, every further step of the run ends it, whatever else the loop
/// observed.
pub proof fn lemma_single_mode_stops(d: Driver, cancelled: bool, fresh_ctrl: Option<Ctrl>)
    requires
        d.mode is Single,
        d.emitted >= 1,
    ensures
        d.spec_stop(cancelled, fresh_ctrl),
{
}

} // verus!
