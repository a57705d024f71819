//! The audio processing unit, which makes no sound yet.

use vstd::prelude::*;

verus! {

/// One step of the audio processing unit: nothing is emulated, so nothing changes.
pub fn tick_apu() {
}

} // verus!
