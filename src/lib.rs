//! Control logic of a small climate node: a ventilation fan driven by a
//! software duty cycle, a louver driven between two limit sensors, and the
//! gateway that turns request parameters into device commands.
use vstd::prelude::*;

pub mod device;
pub mod fan;
pub mod gateway;
pub mod louver;
pub mod text;

verus! {

} // verus!
