//! The declarative mapping from one device input to an action's value
//! source.

use vstd::prelude::*;

use crate::buttons::Axis1d;
use crate::buttons::Axis2d;
use crate::buttons::Button;
use crate::math::Fixed;

verus! {

/// One way an action can read the input state. A binding whose variant does
/// not match the action's kind is silently skipped, never an error.
#[derive(Debug, Clone, Copy)]
pub enum Binding {
    /// A plain button.
    Button(Button),
    /// A one dimensional axis source.
    Axis1d(Axis1dBinding),
    /// A two dimensional axis source.
    Axis2d(Axis2dBinding),
    /// A three dimensional axis source.
    Axis3d(Axis3dBinding),
}

/// A one dimensional axis source: either a pair of buttons emulating an
/// axis, or a device axis, each with a linear sensitivity.
#[derive(Debug, Clone, Copy)]
pub enum Axis1dBinding {
    /// Two buttons emulating an axis: the negative and positive directions.
    Buttons { neg: Button, pos: Button, sensitivity: Fixed },
    /// A device axis scaled by a sensitivity.
    Axis { axis: Axis1d, sensitivity: Fixed },
}

/// A two dimensional axis source: two independent one dimensional sources,
/// or a device axis with a sensitivity.
#[derive(Debug, Clone, Copy)]
pub enum Axis2dBinding {
    /// Two independent one dimensional sources.
    Individual { x: Axis1dBinding, y: Axis1dBinding },
    /// A two dimensional device axis scaled by a sensitivity.
    Axis { axis: Axis2d, sensitivity: Fixed },
}

/// A three dimensional axis source built from three independent one
/// dimensional sources.
#[derive(Debug, Clone, Copy)]
pub enum Axis3dBinding {
    /// Three independent one dimensional sources.
    Individual { x: Axis1dBinding, y: Axis1dBinding, z: Axis1dBinding },
}

impl From<Button> for Binding {
    fn from(value: Button) -> (r: Binding) {
        Binding::Button(value)
    }
}

impl vstd::std_specs::convert::FromSpecImpl<Button> for Binding {
    open spec fn obeys_from_spec() -> bool {
        true
    }

    open spec fn from_spec(v: Button) -> Binding {
        Binding::Button(v)
    }
}

impl From<Axis1dBinding> for Binding {
    fn from(value: Axis1dBinding) -> (r: Binding) {
        Binding::Axis1d(value)
    }
}

impl vstd::std_specs::convert::FromSpecImpl<Axis1dBinding> for Binding {
    open spec fn obeys_from_spec() -> bool {
        true
    }

    open spec fn from_spec(v: Axis1dBinding) -> Binding {
        Binding::Axis1d(v)
    }
}

impl From<Axis2dBinding> for Binding {
    fn from(value: Axis2dBinding) -> (r: Binding) {
        Binding::Axis2d(value)
    }
}

impl vstd::std_specs::convert::FromSpecImpl<Axis2dBinding> for Binding {
    open spec fn obeys_from_spec() -> bool {
        true
    }

    open spec fn from_spec(v: Axis2dBinding) -> Binding {
        Binding::Axis2d(v)
    }
}

impl From<Axis3dBinding> for Binding {
    fn from(value: Axis3dBinding) -> (r: Binding) {
        Binding::Axis3d(value)
    }
}

impl vstd::std_specs::convert::FromSpecImpl<Axis3dBinding> for Binding {
    open spec fn obeys_from_spec() -> bool {
        true
    }

    open spec fn from_spec(v: Axis3dBinding) -> Binding {
        Binding::Axis3d(v)
    }
}

} // verus!
