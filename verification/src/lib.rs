/*!
A semantic input binding library.

A `Session` holds all input state for an application. `Action`s define
anything a player can do, like jump or move; `ActionSet`s group related
actions together; `Bindings` assign device inputs to actions.

Axis values are fixed-point numbers (`Fixed`), with `FX_SCALE` raw units to
one; every state transition and action computation carries a proved contract.
*/

mod actions;
mod assoc;
mod bindings;
mod buttons;
mod event;
mod math;
mod session;
mod state;

pub use crate::actions::ActionKind;
pub use crate::actions::clamp_bound;
pub use crate::actions::lemma_clamped_axis2d;
pub use crate::actions::any_true;
pub use crate::actions::axis1d_value;
pub use crate::actions::lemma_any_true_permutation;
pub use crate::actions::lemma_axis1d_dual_button;
pub use crate::actions::sum_fixed;
pub use crate::actions::sum_vec2;
pub use crate::actions::sum_vec3;
pub use crate::actions::Axis1dAction;
pub use crate::actions::Axis2dAction;
pub use crate::actions::Axis3dAction;
pub use crate::actions::BoolAction;
pub use crate::actions::Clamp;
pub use crate::actions::Clamped;
pub use crate::actions::EventAction;
pub use crate::bindings::ActionSetBindings;
pub use crate::bindings::Axis1dBinding;
pub use crate::bindings::Axis2dBinding;
pub use crate::bindings::Axis3dBinding;
pub use crate::bindings::Binding;
pub use crate::bindings::Bindings;
pub use crate::bindings::cache_complete;
pub use crate::bindings::cache_reflects;
pub use crate::bindings::cache_sound;
pub use crate::bindings::join_name_spec;
pub use crate::bindings::lemma_join_splits;
pub use crate::bindings::lemma_merge_latest_wins;
pub use crate::bindings::lemma_splits_unique;
pub use crate::bindings::merge_sets_spec;
pub use crate::bindings::rest_of;
pub use crate::bindings::sets_slash_free;
pub use crate::bindings::slash_free;
pub use crate::bindings::splits_as;
pub use crate::buttons::Axis1d;
pub use crate::buttons::Axis2d;
pub use crate::buttons::Button;
pub use crate::buttons::GamepadAxis1d;
pub use crate::buttons::GamepadAxis2d;
pub use crate::buttons::GamepadButton;
pub use crate::buttons::KeyboardKey;
pub use crate::buttons::MouseAxis1d;
pub use crate::buttons::MouseAxis2d;
pub use crate::buttons::MouseButton;
pub use crate::buttons::names::axis1d_name_spec;
pub use crate::buttons::names::axis2d_name_spec;
pub use crate::buttons::names::button_name_spec;
pub use crate::buttons::names::lemma_axis1d_name_round_trip;
pub use crate::buttons::names::lemma_axis2d_name_round_trip;
pub use crate::buttons::names::lemma_parse_axis1d_inverse;
pub use crate::buttons::names::lemma_parse_axis2d_inverse;
pub use crate::buttons::names::lemma_parse_button_inverse;
pub use crate::buttons::names::parse_axis1d_spec;
pub use crate::buttons::names::parse_axis2d_spec;
pub use crate::buttons::names::parse_button_spec;
pub use crate::buttons::sdl3::keyboard_key_from_sdl3_spec;
pub use crate::buttons::sdl3::mouse_button_from_sdl3_spec;
pub use crate::event::Event;
pub use crate::math::FX_SCALE;
pub use crate::math::Fixed;
pub use crate::math::Vec2;
pub use crate::math::Vec3;
pub use crate::math::clamp1_spec;
pub use crate::math::clamp2_spec;
pub use crate::math::clamp3_spec;
pub use crate::math::fx_add_spec;
pub use crate::math::fx_mul_spec;
pub use crate::math::fx_neg_spec;
pub use crate::math::fx_raw;
pub use crate::math::fx_sub_spec;
pub use crate::math::lemma_clamp2_len_bounded;
pub use crate::math::lemma_clamp3_len_bounded;
pub use crate::math::sat64;
pub use crate::math::sqrt_ceil;
pub use crate::math::sqrt_floor;
pub use crate::math::tdiv;
pub use crate::math::vec2_raw;
pub use crate::math::vec3_raw;
pub use crate::session::Action;
pub use crate::session::ActionSet;
pub use crate::session::BindingsCache;
pub use crate::session::Session;
pub use crate::session::gather_spec;
pub use crate::session::lemma_disabled_identity;
pub use crate::session::resolve_action;
pub use crate::session::resolve_spec;
pub use crate::state::ButtonState;
pub use crate::state::InputModel;
pub use crate::state::InputState;
pub use crate::state::empty_button_state;
pub use crate::state::held_button_state;
pub use crate::state::init_model;
pub use crate::state::laws::InputOp;
pub use crate::state::laws::held_after;
pub use crate::state::laws::held_at_last_update;
pub use crate::state::laws::lemma_button_down_frames;
pub use crate::state::laws::lemma_end_update_idempotent;
pub use crate::state::laws::lemma_is_down_characterization;
pub use crate::state::laws::lemma_press_release_same_frame;
pub use crate::state::laws::lemma_run_button_state;
pub use crate::state::laws::pressed_since_update;
pub use crate::state::laws::released_since_update;
pub use crate::state::laws::run_ops;
pub use crate::state::laws::step_op;
pub use crate::state::step_end;
pub use crate::state::step_event;
