//! Events published to subscribers.

use vstd::prelude::*;

use crate::models::common::{Pos, Rgb};

verus! {

/// A paint event.
#[derive(Debug, Clone, Copy)]
pub enum PaintEvent {
    /// A paint by this client succeeded.
    Success { uid: u32, pos: Pos, color: Rgb },
    /// A pixel changed on the board (a 0xfa message).
    PixelUpdate { pos: Pos, color: Rgb },
    /// A paint by this client failed.
    Failure { uid: u32, pos: Pos },
}

} // verus!
