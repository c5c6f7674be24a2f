use vstd::prelude::*;

use crate::device::Action;

verus! {

/// How often the louver loop reads its sensors and its device.
pub const POLL_MS: u32 = 100;

/// The two drive outputs of the louver motor.
#[derive(Clone, Copy, Debug, PartialEq, Eq, Structural)]
pub struct LouverDrive {
    pub open: bool,
    pub close: bool,
}

/// The louver's outputs for its commanded `action` and its two limit
/// sensors: it drives toward the commanded end until that end's sensor
/// reports it reached, and never both ways at once.
pub fn louver_drive(action: Action, open_reached: bool, close_reached: bool) -> (d: LouverDrive)
    ensures
        d.open == (action == Action::On && !open_reached),
        d.close == (action == Action::Off && !close_reached),
        !(d.open && d.close),
        open_reached ==> !d.open,
        close_reached ==> !d.close,
{
    let open = action == Action::On && !open_reached;
    let close = action == Action::Off && !close_reached;
    LouverDrive { open, close }
}

} // verus!
