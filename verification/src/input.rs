//! Touch input as the touch panel reports it.

use vstd::prelude::*;

verus! {

/// One point of contact on the touch panel, in display pixels.
#[derive(Clone, Copy, Debug, PartialEq, Eq, Structural)]
pub struct Touch {
    pub x: u16,
    pub y: u16,
}

} // verus!
