//! How a front end drives the emulator: running, paused, or one step at a time.

use vstd::prelude::*;
use crate::{Emulator, EmulatorError, EmulatorView, run_single_step, spec_run_single_step};
use crate::ppu::PpuView;

verus! {

#[derive(Debug, Clone, Copy, PartialEq, Eq, Structural)]
pub enum EmulatorState {
    /// running, with the delay (in nanoseconds) that the front end waits after each step
    Run(u32),
    Pause,
    Step,
}

/// The emulator after a shown frame was acknowledged: the stored screen is
/// emptied and the dot counter starts over.
pub open spec fn spec_acknowledged(e: EmulatorView) -> EmulatorView {
    EmulatorView { ppu: PpuView { new_screen: false, elapsed_time: 0, stored_screen: Seq::empty() }, ..e }
}

/// One turn of the front end's loop: a frame drawn on the previous turn is
/// acknowledged first; then a running emulator takes a step, a single step
/// is taken and the state becomes paused, and a paused emulator does nothing.
/// The result says whether a frame is finished and must be drawn.
pub fn update_emulator(emulator: &mut Emulator, state: &mut EmulatorState, drew_before: &mut bool)
    -> (r: Result<bool, EmulatorError>)
    requires
        old(emulator).wf(),
    ensures
        final(emulator).wf(),
        !*final(drew_before),
        ({
            let e0 = if *old(drew_before) { spec_acknowledged(old(emulator).view()) } else { old(emulator).view() };
            match *old(state) {
                EmulatorState::Pause => final(emulator).view() == e0 && r == Ok::<bool, EmulatorError>(false)
                    && *final(state) == EmulatorState::Pause,
                EmulatorState::Step => (final(emulator).view(), r) == spec_run_single_step(e0)
                    && *final(state) == EmulatorState::Pause,
                EmulatorState::Run(delay) => (final(emulator).view(), r) == spec_run_single_step(e0)
                    && *final(state) == EmulatorState::Run(delay),
            }
        }),
{
    // done like this cause it makes deadlocks impossible
    // only one write
    if *drew_before {
        emulator.ppu.acknowledge_frame();
        *drew_before = false;
    }

    match *state {
        EmulatorState::Run(_) => run_single_step(emulator),
        EmulatorState::Step => {
            *state = EmulatorState::Pause;
            run_single_step(emulator)
        },
        EmulatorState::Pause => Ok(false),
    }
}

} // verus!
