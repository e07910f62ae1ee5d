//! A decorator that limits the magnitude of an axis action's output.

use vstd::prelude::*;

use crate::bindings::Binding;
use crate::math::FX_SCALE;
use crate::math::Fixed;
use crate::math::Vec2;
use crate::math::Vec3;
use crate::math::clamp1_spec;
use crate::math::clamp2_spec;
use crate::math::clamp3_spec;
use crate::math::fx_raw;
use crate::math::lemma_clamp2_in_range;
use crate::math::lemma_clamp2_len_bounded;
use crate::math::lemma_clamp3_in_range;
use crate::math::lemma_fixed_bounds;
use crate::math::lemma_fx_raw;
use crate::math::lemma_fixed_view_injective;
use crate::math::lemma_vec2_view_injective;
use crate::math::lemma_vec3_view_injective;
use crate::math::sqrt_ceil;
use crate::math::tdiv;
use crate::math::vec2_raw;
use crate::math::vec3_raw;
use crate::state::InputModel;
use crate::state::InputState;

use super::ActionKind;

verus! {

broadcast use crate::math::lemma_fx_raw, crate::math::lemma_fixed_bounds, crate::math::lemma_fixed_view_injective, crate::math::lemma_vec2_view_injective, crate::math::lemma_vec3_view_injective;

/// A value that can be clamped to a maximum magnitude: a scalar to the
/// symmetric range, a vector radially, rescaled only when its length
/// exceeds the bound.
pub trait Clamp: Sized {
    /// What `clamp` returns.
    spec fn spec_clamp(self, max: Fixed) -> Self;

    /// Clamps this value to magnitude at most `max`.
    fn clamp(self, max: Fixed) -> (r: Self)
        requires
            max@ >= 0,
        ensures
            r == self.spec_clamp(max),
    ;
}

impl Clamp for Fixed {
    open spec fn spec_clamp(self, max: Fixed) -> Fixed {
        fx_raw(clamp1_spec(self@, max@))
    }

    fn clamp(self, max: Fixed) -> (r: Fixed) {
        let r = self.clamp_mag(max);
        proof {
            lemma_fixed_bounds(self);
            lemma_fixed_bounds(max);
            lemma_fx_raw(clamp1_spec(self@, max@));
            lemma_fixed_view_injective(r, fx_raw(clamp1_spec(self@, max@)));
        }
        r
    }
}

impl Clamp for Vec2 {
    open spec fn spec_clamp(self, max: Fixed) -> Vec2 {
        vec2_raw(clamp2_spec(self@, max@).0, clamp2_spec(self@, max@).1)
    }

    fn clamp(self, max: Fixed) -> (r: Vec2) {
        let r = self.clamp_len(max);
        proof {
            lemma_fixed_bounds(self.x);
            lemma_fixed_bounds(self.y);
            lemma_fixed_bounds(max);
            lemma_clamp2_in_range(self@, max@);
            lemma_fx_raw(clamp2_spec(self@, max@).0);
            lemma_fx_raw(clamp2_spec(self@, max@).1);
            lemma_vec2_view_injective(r, self.spec_clamp(max));
        }
        r
    }
}

impl Clamp for Vec3 {
    open spec fn spec_clamp(self, max: Fixed) -> Vec3 {
        vec3_raw(
            clamp3_spec(self@, max@).0,
            clamp3_spec(self@, max@).1,
            clamp3_spec(self@, max@).2,
        )
    }

    fn clamp(self, max: Fixed) -> (r: Vec3) {
        let r = self.clamp_len(max);
        proof {
            lemma_fixed_bounds(self.x);
            lemma_fixed_bounds(self.y);
            lemma_fixed_bounds(self.z);
            lemma_fixed_bounds(max);
            lemma_clamp3_in_range(self@, max@);
            lemma_fx_raw(clamp3_spec(self@, max@).0);
            lemma_fx_raw(clamp3_spec(self@, max@).1);
            lemma_fx_raw(clamp3_spec(self@, max@).2);
            lemma_vec3_view_injective(r, self.spec_clamp(max));
        }
        r
    }
}

/// Clamps an axis action, limiting the magnitude of its values to at most
/// one: each reading is clamped, and so is the combined result.
#[derive(Debug, Clone, Copy, PartialEq, Eq, Structural)]
pub struct Clamped<T>(pub T);

/// The clamp bound: the fixed-point value one.
pub open spec fn clamp_bound() -> Fixed {
    fx_raw(FX_SCALE as int)
}

impl<T: ActionKind> ActionKind for Clamped<T> where T::Output: Clamp {
    type Output = T::Output;

    open spec fn spec_get(&self, state: InputModel, binding: Binding) -> Option<T::Output> {
        match self.0.spec_get(state, binding) {
            Some(v) => Some(v.spec_clamp(clamp_bound())),
            None => None,
        }
    }

    open spec fn spec_reduce(&self, inputs: Seq<T::Output>) -> T::Output {
        self.0.spec_reduce(inputs).spec_clamp(clamp_bound())
    }

    open spec fn empty_value(&self) -> T::Output {
        self.0.empty_value().spec_clamp(clamp_bound())
    }

    proof fn reduce_empty(&self) {
        self.0.reduce_empty();
    }

    fn get(&mut self, state: &InputState, binding: &Binding) -> (r: Option<T::Output>) {
        let one = Fixed::one();
        proof {
            lemma_fx_raw(FX_SCALE as int);
            lemma_fixed_view_injective(one, clamp_bound());
        }
        match self.0.get(state, binding) {
            Some(v) => Some(v.clamp(one)),
            None => None,
        }
    }

    fn reduce(&mut self, inputs: &[T::Output]) -> (r: T::Output) {
        let one = Fixed::one();
        proof {
            lemma_fx_raw(FX_SCALE as int);
            lemma_fixed_view_injective(one, clamp_bound());
        }
        let combined = self.0.reduce(inputs);
        combined.clamp(one)
    }
}

/// Clamping a two dimensional axis value at one: a value within the unit
/// length passes through unchanged; a longer one has each component
/// rescaled by one over the rounded-up length, truncating toward zero, so
/// the direction is preserved up to that truncation, and the clamped
/// length never exceeds one.
pub proof fn lemma_clamped_axis2d(v: Vec2)
    ensures
        ({
            let len2 = v@.0 * v@.0 + v@.1 * v@.1;
            let m = FX_SCALE as int;
            let r = v.spec_clamp(clamp_bound());
            &&& len2 <= m * m ==> r == v
            &&& len2 > m * m ==> r@ == (
                tdiv(v@.0 * m, sqrt_ceil(len2)),
                tdiv(v@.1 * m, sqrt_ceil(len2)),
            )
            &&& r@.0 * r@.0 + r@.1 * r@.1 <= m * m
        }),
{
    let m = FX_SCALE as int;
    lemma_fixed_bounds(v.x);
    lemma_fixed_bounds(v.y);
    lemma_fx_raw(m);
    lemma_clamp2_in_range(v@, m);
    lemma_fx_raw(clamp2_spec(v@, m).0);
    lemma_fx_raw(clamp2_spec(v@, m).1);
    lemma_clamp2_len_bounded(v@, m);
    let r = v.spec_clamp(clamp_bound());
    let len2 = v@.0 * v@.0 + v@.1 * v@.1;
    if len2 <= m * m {
        lemma_vec2_view_injective(r, v);
    }
}

} // verus!
