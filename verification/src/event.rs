//! The normalized input event ingested by the engine.

use vstd::prelude::*;

use crate::buttons::Axis1d;
use crate::buttons::Axis2d;
use crate::buttons::Button;
use crate::math::Fixed;
use crate::math::Vec2;

verus! {

/// An input event that the engine can process. A platform adapter translates
/// its native event stream into this set; the engine never interprets the
/// device identifiers themselves.
#[derive(Clone, Copy, Debug)]
#[non_exhaustive]
pub enum Event {
    /// A button went down.
    ButtonPressed(Button),
    /// A button went up.
    ButtonReleased(Button),
    /// A one dimensional device axis reported a new absolute value.
    Axis1dChanged(Axis1d, Fixed),
    /// A two dimensional device axis reported a new absolute value.
    Axis2dChanged(Axis2d, Vec2),
    /// The cursor moved to an absolute position.
    CursorMoved(Fixed, Fixed),
    /// The mouse moved by a relative amount.
    MouseMotion(Fixed, Fixed),
    /// The mouse wheel turned by a relative amount.
    MouseWheel(Fixed, Fixed),
}

} // verus!
