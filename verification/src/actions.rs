//! The closed family of action kinds: how one binding is read from the
//! input state and how readings from several bindings combine.

use vstd::prelude::*;

use crate::bindings::Axis1dBinding;
use crate::bindings::Axis2dBinding;
use crate::bindings::Axis3dBinding;
use crate::bindings::Binding;
use crate::buttons::Button;
use crate::math::FX_SCALE;
use crate::math::Fixed;
use crate::math::Vec2;
use crate::math::Vec3;
use crate::math::fx_add_spec;
use crate::math::fx_mul_spec;
use crate::math::fx_neg_spec;
use crate::math::fx_raw;
use crate::math::lemma_fixed_view_injective;
use crate::math::lemma_vec2_view_injective;
use crate::math::lemma_vec3_view_injective;
use crate::math::vec2_raw;
use crate::math::vec3_raw;
use crate::state::InputModel;
use crate::state::InputState;

mod clamped;

pub use clamped::Clamp;
pub use clamped::Clamped;
pub use clamped::clamp_bound;
pub use clamped::lemma_clamped_axis2d;

verus! {

broadcast use crate::math::lemma_fx_raw, crate::math::lemma_fixed_bounds, crate::math::lemma_fixed_view_injective, crate::math::lemma_vec2_view_injective, crate::math::lemma_vec3_view_injective;

/// The strategy of an action: it reads the input state through one binding
/// with `get`, skipping bindings of the wrong variant, and combines the
/// readings of all of an action's bindings with `reduce`.
///
/// Every kind of the closed family is stateless, and the contracts pin
/// `get` and `reduce` as pure; the receiver is nonetheless mutable so that
/// a kind carrying per-action state keeps the same call shape.
pub trait ActionKind: Sized {
    /// The value the action produces.
    type Output;

    /// What `get` returns for one binding.
    spec fn spec_get(&self, state: InputModel, binding: Binding) -> Option<Self::Output>;

    /// What `reduce` returns for a sequence of readings.
    spec fn spec_reduce(&self, inputs: Seq<Self::Output>) -> Self::Output;

    /// The identity that an empty reduce yields.
    spec fn empty_value(&self) -> Self::Output;

    /// An empty reduce yields exactly the kind's identity.
    proof fn reduce_empty(&self)
        ensures
            self.spec_reduce(Seq::empty()) == self.empty_value(),
    ;

    /// Reads the input state through one binding, or nothing when the
    /// binding's variant does not match this kind.
    fn get(&mut self, state: &InputState, binding: &Binding) -> (r: Option<Self::Output>)
        ensures
            *final(self) == *old(self),
            r == old(self).spec_get(state@, *binding),
    ;

    /// Combines zero or more readings into one value.
    fn reduce(&mut self, inputs: &[Self::Output]) -> (r: Self::Output)
        ensures
            *final(self) == *old(self),
            r == old(self).spec_reduce(inputs@),
    ;
}

/// Whether any reading in a sequence of boolean readings is true. This is
/// the reduction of both boolean kinds; stated as an existential, it does
/// not depend on the order of the readings.
pub open spec fn any_true(inputs: Seq<bool>) -> bool {
    exists|i: int| 0 <= i < inputs.len() && inputs[i]
}

/// The boolean reduction is order independent: it depends only on the
/// multiset of readings, so the order of an action's bindings carries no
/// meaning for the boolean kinds.
pub proof fn lemma_any_true_permutation(s1: Seq<bool>, s2: Seq<bool>)
    requires
        s1.to_multiset() == s2.to_multiset(),
    ensures
        any_true(s1) == any_true(s2),
{
    s1.to_multiset_ensures();
    s2.to_multiset_ensures();
    if any_true(s1) {
        let i = choose|i: int| 0 <= i < s1.len() && s1[i];
        assert(s1.contains(true));
        assert(s1.to_multiset().count(true) > 0);
        assert(s2.to_multiset().count(true) > 0);
        assert(s2.contains(true));
        let j = choose|j: int| 0 <= j < s2.len() && s2[j] == true;
        assert(s2[j]);
    }
    if any_true(s2) {
        let j = choose|j: int| 0 <= j < s2.len() && s2[j];
        assert(s2.contains(true));
        assert(s2.to_multiset().count(true) > 0);
        assert(s1.to_multiset().count(true) > 0);
        assert(s1.contains(true));
        let i = choose|i: int| 0 <= i < s1.len() && s1[i] == true;
        assert(s1[i]);
    }
}

/// Combines boolean readings by disjunction.
fn reduce_any(inputs: &[bool]) -> (r: bool)
    ensures
        r == any_true(inputs@),
{
    let n = inputs.len();
    let mut i: usize = 0;
    while i < n
        invariant
            n == inputs@.len(),
            i <= n,
            forall|l: int| 0 <= l < i ==> !(#[trigger] inputs@[l]),
        decreases n - i,
    {
        if inputs[i] {
            proof {
                assert(inputs@[i as int]);
            }
            return true;
        }
        i = i + 1;
    }
    false
}

/// The saturating sum of a sequence of scalar readings, left to right.
pub open spec fn sum_fixed(inputs: Seq<Fixed>) -> Fixed
    decreases inputs.len(),
{
    if inputs.len() == 0 {
        fx_raw(0)
    } else {
        fx_raw(fx_add_spec(sum_fixed(inputs.drop_last())@, inputs.last()@))
    }
}

/// The component-wise saturating sum of a sequence of pair readings.
pub open spec fn sum_vec2(inputs: Seq<Vec2>) -> Vec2
    decreases inputs.len(),
{
    if inputs.len() == 0 {
        vec2_raw(0, 0)
    } else {
        let acc = sum_vec2(inputs.drop_last());
        vec2_raw(
            fx_add_spec(acc@.0, inputs.last()@.0),
            fx_add_spec(acc@.1, inputs.last()@.1),
        )
    }
}

/// The component-wise saturating sum of a sequence of triple readings.
pub open spec fn sum_vec3(inputs: Seq<Vec3>) -> Vec3
    decreases inputs.len(),
{
    if inputs.len() == 0 {
        vec3_raw(0, 0, 0)
    } else {
        let acc = sum_vec3(inputs.drop_last());
        vec3_raw(
            fx_add_spec(acc@.0, inputs.last()@.0),
            fx_add_spec(acc@.1, inputs.last()@.1),
            fx_add_spec(acc@.2, inputs.last()@.2),
        )
    }
}

/// The value of a one dimensional axis binding: a dual button pair gives
/// plus or minus the sensitivity, or zero when both or neither button is
/// down; a device axis gives its value scaled by the sensitivity.
pub open spec fn axis1d_value(state: InputModel, binding: Axis1dBinding) -> int {
    match binding {
        Axis1dBinding::Buttons { neg, pos, sensitivity } => {
            if state.is_down(pos) && !state.is_down(neg) {
                sensitivity@
            } else if state.is_down(neg) && !state.is_down(pos) {
                fx_neg_spec(sensitivity@)
            } else {
                0
            }
        },
        Axis1dBinding::Axis { axis, sensitivity } => fx_mul_spec(
            state.axis1d_of(axis),
            sensitivity@,
        ),
    }
}

/// Reads one one dimensional axis binding.
fn read_axis1d(state: &InputState, binding: &Axis1dBinding) -> (r: Fixed)
    ensures
        r@ == axis1d_value(state@, *binding),
{
    match binding {
        Axis1dBinding::Buttons { neg, pos, sensitivity } => {
            let down_neg = state.is_button_down(*neg);
            let down_pos = state.is_button_down(*pos);
            if down_pos && !down_neg {
                *sensitivity
            } else if down_neg && !down_pos {
                sensitivity.neg()
            } else {
                Fixed::zero()
            }
        },
        Axis1dBinding::Axis { axis, sensitivity } => state.get_axis1d(*axis).mul(*sensitivity),
    }
}

/// Describes an action that happens as an instantaneous event, like a
/// character jumping, selecting a menu item, or toggling an ability. It is
/// true only while the bound button's just-pressed edge is active.
#[derive(Debug, Clone, Copy, PartialEq, Eq, Structural)]
pub struct EventAction;

impl Default for EventAction {
    /// The only value of this kind.
    fn default() -> (r: Self)
        ensures
            r == EventAction,
    {
        EventAction
    }
}

impl ActionKind for EventAction {
    type Output = bool;

    open spec fn spec_get(&self, state: InputModel, binding: Binding) -> Option<bool> {
        match binding {
            Binding::Button(b) => Some(state.button_state_of(b).just_pressed),
            _ => None,
        }
    }

    open spec fn spec_reduce(&self, inputs: Seq<bool>) -> bool {
        any_true(inputs)
    }

    open spec fn empty_value(&self) -> bool {
        false
    }

    proof fn reduce_empty(&self) {
    }

    fn get(&mut self, state: &InputState, binding: &Binding) -> (r: Option<bool>) {
        match binding {
            Binding::Button(b) => Some(state.is_button_just_down(*b)),
            _ => None,
        }
    }

    fn reduce(&mut self, inputs: &[bool]) -> (r: bool) {
        reduce_any(inputs)
    }
}

/// Describes an action that happens continuously, like shooting a rapid
/// fire gun or hold-to-sprint. It is true while the bound button is down.
#[derive(Debug, Clone, Copy, PartialEq, Eq, Structural)]
pub struct BoolAction;

impl Default for BoolAction {
    /// The only value of this kind.
    fn default() -> (r: Self)
        ensures
            r == BoolAction,
    {
        BoolAction
    }
}

impl ActionKind for BoolAction {
    type Output = bool;

    open spec fn spec_get(&self, state: InputModel, binding: Binding) -> Option<bool> {
        match binding {
            Binding::Button(b) => Some(state.is_down(b)),
            _ => None,
        }
    }

    open spec fn spec_reduce(&self, inputs: Seq<bool>) -> bool {
        any_true(inputs)
    }

    open spec fn empty_value(&self) -> bool {
        false
    }

    proof fn reduce_empty(&self) {
    }

    fn get(&mut self, state: &InputState, binding: &Binding) -> (r: Option<bool>) {
        match binding {
            Binding::Button(b) => Some(state.is_button_down(*b)),
            _ => None,
        }
    }

    fn reduce(&mut self, inputs: &[bool]) -> (r: bool) {
        reduce_any(inputs)
    }
}

/// Describes a one dimensional axis action, like zooming a camera or an
/// airplane's throttle.
#[derive(Debug, Clone, Copy, PartialEq, Eq, Structural)]
pub struct Axis1dAction;

impl Default for Axis1dAction {
    /// The only value of this kind.
    fn default() -> (r: Self)
        ensures
            r == Axis1dAction,
    {
        Axis1dAction
    }
}

impl ActionKind for Axis1dAction {
    type Output = Fixed;

    open spec fn spec_get(&self, state: InputModel, binding: Binding) -> Option<Fixed> {
        match binding {
            Binding::Axis1d(inner) => Some(fx_raw(axis1d_value(state, inner))),
            _ => None,
        }
    }

    open spec fn spec_reduce(&self, inputs: Seq<Fixed>) -> Fixed {
        sum_fixed(inputs)
    }

    open spec fn empty_value(&self) -> Fixed {
        fx_raw(0)
    }

    proof fn reduce_empty(&self) {
    }

    fn get(&mut self, state: &InputState, binding: &Binding) -> (r: Option<Fixed>) {
        match binding {
            Binding::Axis1d(inner) => {
                let value = read_axis1d(state, inner);
                proof {
                    lemma_fixed_view_injective(value, fx_raw(axis1d_value(state@, *inner)));
                }
                Some(value)
            },
            _ => None,
        }
    }

    fn reduce(&mut self, inputs: &[Fixed]) -> (r: Fixed) {
        let n = inputs.len();
        let mut acc = Fixed::zero();
        proof {
            lemma_fixed_view_injective(acc, sum_fixed(inputs@.take(0)));
        }
        let mut i: usize = 0;
        while i < n
            invariant
                n == inputs@.len(),
                i <= n,
                acc == sum_fixed(inputs@.take(i as int)),
            decreases n - i,
        {
            let next = acc.add(inputs[i]);
            proof {
                assert(inputs@.take(i + 1).drop_last() =~= inputs@.take(i as int));
                assert(inputs@.take(i + 1).last() == inputs@[i as int]);
                lemma_fixed_view_injective(next, sum_fixed(inputs@.take(i + 1)));
            }
            acc = next;
            i = i + 1;
        }
        proof {
            assert(inputs@.take(n as int) =~= inputs@);
        }
        acc
    }
}

/// Describes a two dimensional axis action, like character movement or
/// controlling a first person camera.
#[derive(Debug, Clone, Copy, PartialEq, Eq, Structural)]
pub struct Axis2dAction;

impl Default for Axis2dAction {
    /// The only value of this kind.
    fn default() -> (r: Self)
        ensures
            r == Axis2dAction,
    {
        Axis2dAction
    }
}

impl ActionKind for Axis2dAction {
    type Output = Vec2;

    open spec fn spec_get(&self, state: InputModel, binding: Binding) -> Option<Vec2> {
        match binding {
            Binding::Axis2d(inner) => match inner {
                Axis2dBinding::Individual { x, y } => Some(
                    vec2_raw(axis1d_value(state, x), axis1d_value(state, y)),
                ),
                Axis2dBinding::Axis { axis, sensitivity } => Some(
                    vec2_raw(
                        fx_mul_spec(state.axis2d_of(axis).0, sensitivity@),
                        fx_mul_spec(state.axis2d_of(axis).1, sensitivity@),
                    ),
                ),
            },
            _ => None,
        }
    }

    open spec fn spec_reduce(&self, inputs: Seq<Vec2>) -> Vec2 {
        sum_vec2(inputs)
    }

    open spec fn empty_value(&self) -> Vec2 {
        vec2_raw(0, 0)
    }

    proof fn reduce_empty(&self) {
    }

    fn get(&mut self, state: &InputState, binding: &Binding) -> (r: Option<Vec2>) {
        match binding {
            Binding::Axis2d(inner) => match inner {
                Axis2dBinding::Individual { x, y } => {
                    let vx = read_axis1d(state, x);
                    let vy = read_axis1d(state, y);
                    let v = Vec2::new(vx, vy);
                    proof {
                        lemma_vec2_view_injective(
                            v,
                            vec2_raw(axis1d_value(state@, *x), axis1d_value(state@, *y)),
                        );
                    }
                    Some(v)
                },
                Axis2dBinding::Axis { axis, sensitivity } => {
                    let raw = state.get_axis2d(*axis);
                    let v = Vec2::new(raw.x.mul(*sensitivity), raw.y.mul(*sensitivity));
                    proof {
                        lemma_vec2_view_injective(
                            v,
                            vec2_raw(
                                fx_mul_spec(state@.axis2d_of(*axis).0, sensitivity@),
                                fx_mul_spec(state@.axis2d_of(*axis).1, sensitivity@),
                            ),
                        );
                    }
                    Some(v)
                },
            },
            _ => None,
        }
    }

    fn reduce(&mut self, inputs: &[Vec2]) -> (r: Vec2) {
        let n = inputs.len();
        let mut acc = Vec2::zero();
        proof {
            lemma_vec2_view_injective(acc, sum_vec2(inputs@.take(0)));
        }
        let mut i: usize = 0;
        while i < n
            invariant
                n == inputs@.len(),
                i <= n,
                acc == sum_vec2(inputs@.take(i as int)),
            decreases n - i,
        {
            let next = acc.add(inputs[i]);
            proof {
                assert(inputs@.take(i + 1).drop_last() =~= inputs@.take(i as int));
                assert(inputs@.take(i + 1).last() == inputs@[i as int]);
                lemma_vec2_view_injective(next, sum_vec2(inputs@.take(i + 1)));
            }
            acc = next;
            i = i + 1;
        }
        proof {
            assert(inputs@.take(n as int) =~= inputs@);
        }
        acc
    }
}

/// Describes a three dimensional axis action, like an editor flycam or
/// spaceship controls.
#[derive(Debug, Clone, Copy, PartialEq, Eq, Structural)]
pub struct Axis3dAction;

impl Default for Axis3dAction {
    /// The only value of this kind.
    fn default() -> (r: Self)
        ensures
            r == Axis3dAction,
    {
        Axis3dAction
    }
}

impl ActionKind for Axis3dAction {
    type Output = Vec3;

    open spec fn spec_get(&self, state: InputModel, binding: Binding) -> Option<Vec3> {
        match binding {
            Binding::Axis3d(inner) => match inner {
                Axis3dBinding::Individual { x, y, z } => Some(
                    vec3_raw(
                        axis1d_value(state, x),
                        axis1d_value(state, y),
                        axis1d_value(state, z),
                    ),
                ),
            },
            _ => None,
        }
    }

    open spec fn spec_reduce(&self, inputs: Seq<Vec3>) -> Vec3 {
        sum_vec3(inputs)
    }

    open spec fn empty_value(&self) -> Vec3 {
        vec3_raw(0, 0, 0)
    }

    proof fn reduce_empty(&self) {
    }

    fn get(&mut self, state: &InputState, binding: &Binding) -> (r: Option<Vec3>) {
        match binding {
            Binding::Axis3d(inner) => match inner {
                Axis3dBinding::Individual { x, y, z } => {
                    let vx = read_axis1d(state, x);
                    let vy = read_axis1d(state, y);
                    let vz = read_axis1d(state, z);
                    let v = Vec3::new(vx, vy, vz);
                    proof {
                        lemma_vec3_view_injective(
                            v,
                            vec3_raw(
                                axis1d_value(state@, *x),
                                axis1d_value(state@, *y),
                                axis1d_value(state@, *z),
                            ),
                        );
                    }
                    Some(v)
                },
            },
            _ => None,
        }
    }

    fn reduce(&mut self, inputs: &[Vec3]) -> (r: Vec3) {
        let n = inputs.len();
        let mut acc = Vec3::zero();
        proof {
            lemma_vec3_view_injective(acc, sum_vec3(inputs@.take(0)));
        }
        let mut i: usize = 0;
        while i < n
            invariant
                n == inputs@.len(),
                i <= n,
                acc == sum_vec3(inputs@.take(i as int)),
            decreases n - i,
        {
            let next = acc.add(inputs[i]);
            proof {
                assert(inputs@.take(i + 1).drop_last() =~= inputs@.take(i as int));
                assert(inputs@.take(i + 1).last() == inputs@[i as int]);
                lemma_vec3_view_injective(next, sum_vec3(inputs@.take(i + 1)));
            }
            acc = next;
            i = i + 1;
        }
        proof {
            assert(inputs@.take(n as int) =~= inputs@);
        }
        acc
    }
}

/// A dual button axis binding reads plus the sensitivity when only the
/// positive button is down, minus the sensitivity when only the negative
/// one is, and zero when both or neither is down.
pub proof fn lemma_axis1d_dual_button(state: InputModel, neg: Button, pos: Button, s: Fixed)
    ensures
        state.is_down(pos) && !state.is_down(neg) ==> axis1d_value(
            state,
            Axis1dBinding::Buttons { neg, pos, sensitivity: s },
        ) == s@,
        state.is_down(neg) && !state.is_down(pos) ==> axis1d_value(
            state,
            Axis1dBinding::Buttons { neg, pos, sensitivity: s },
        ) == fx_neg_spec(s@),
        state.is_down(neg) == state.is_down(pos) ==> axis1d_value(
            state,
            Axis1dBinding::Buttons { neg, pos, sensitivity: s },
        ) == 0,
{
}

} // verus!
