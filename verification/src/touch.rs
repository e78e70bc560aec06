//! Decoding of the head touch-sensor status byte.

use vstd::prelude::*;

verus! {

/// Splits a touch-controller status byte into the three touch flags it
/// carries: front, middle and rear sensor, one per low bit.
pub fn decode_touch(status: u8) -> (r: (bool, bool, bool))
    ensures
        r.0 == ((status & 0x01) != 0),
        r.1 == ((status & 0x02) != 0),
        r.2 == ((status & 0x04) != 0),
{
    (status & 0x01 != 0, status & 0x02 != 0, status & 0x04 != 0)
}

} // verus!
