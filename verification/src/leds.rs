//! The pure part of the head LED chase animation.
//!
//! The hardware driver sends a block of one intensity byte per LED channel
//! each frame; this module computes the next frame, so that the driver only
//! moves bytes.

use vstd::prelude::*;

verus! {

use vstd::pervasive::VecAdditionalExecFns;

/// LED channels driven per controller.
pub const LED_CHANNEL_COUNT: usize = 16;

/// Intensity of the lit channel of the chase animation.
pub const CHASE_INTENSITY: u8 = 0x50;

/// Advances the chase animation one step: the channel at `index` goes dark
/// and its successor (wrapping around) lights up; every other channel keeps
/// its intensity.
pub fn chase_frame(intensities: &mut Vec<u8>, index: usize)
    requires
        old(intensities)@.len() == LED_CHANNEL_COUNT,
        index < LED_CHANNEL_COUNT,
    ensures
        final(intensities)@ == old(intensities)@.update(index as int, 0u8).update(
            ((index + 1) as int) % (LED_CHANNEL_COUNT as int),
            CHASE_INTENSITY,
        ),
{
    intensities.set(index, 0);
    intensities.set((index + 1) % LED_CHANNEL_COUNT, CHASE_INTENSITY);
}

} // verus!
