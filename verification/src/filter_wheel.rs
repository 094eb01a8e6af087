//! Filter wheel positions as the SDK sees them: the position `p` is set and
//! reported through the camera's `CfwPort` control as the character code of
//! the digit `p`.

use vstd::prelude::*;

use crate::simulation::camera::{spec_port_position, FILTER_WHEEL_ASCII_OFFSET};

verus! {

/// Returns the `CfwPort` value that selects filter wheel position `position`.
pub fn position_to_port(position: u32) -> (port: u32)
    requires
        position <= u32::MAX - FILTER_WHEEL_ASCII_OFFSET,
    ensures
        port == position + FILTER_WHEEL_ASCII_OFFSET,
{
    position + FILTER_WHEEL_ASCII_OFFSET
}

/// Setting the port value of a position selects that very position again.
pub proof fn lemma_port_roundtrip(position: u32)
    requires
        position <= u32::MAX - FILTER_WHEEL_ASCII_OFFSET,
    ensures
        spec_port_position((position + FILTER_WHEEL_ASCII_OFFSET) as u32) == position,
{
}

} // verus!
