//! The live, per-frame device state store.
//!
//! [`InputState`] consumes [`Event`]s, answers point-in-time queries, and
//! advances once per frame through [`InputState::end_update`]. Its abstract
//! value is an [`InputModel`], and every transition is stated against
//! [`step_event`] and [`step_end`].

use vstd::prelude::*;

use crate::assoc::assoc_map;
use crate::assoc::distinct_keys;
use crate::assoc::lemma_assoc_contains;
use crate::assoc::lemma_assoc_index;
use crate::buttons::Axis1d;
use crate::buttons::Axis2d;
use crate::buttons::Button;
use crate::event::Event;
use crate::math::Fixed;
use crate::math::Vec2;
use crate::math::fx_add_spec;
use crate::math::fx_sub_spec;

pub mod laws;

verus! {

/// The per-frame state of one button. A button absent from the state table
/// is equivalent to all three flags being false.
#[derive(Debug, Clone, Copy, PartialEq, Eq, Structural)]
pub struct ButtonState {
    /// Whether the button went down since the last frame boundary.
    pub just_pressed: bool,
    /// Whether the button went up since the last frame boundary.
    pub just_released: bool,
    /// Whether the button is currently held.
    pub pressed: bool,
}

/// The state of a button no event has touched since it was last swept.
pub open spec fn empty_button_state() -> ButtonState {
    ButtonState { just_pressed: false, just_released: false, pressed: false }
}

/// The state of a held button right after a frame boundary.
pub open spec fn held_button_state() -> ButtonState {
    ButtonState { just_pressed: false, just_released: false, pressed: true }
}

impl Default for ButtonState {
    /// The all-clear state, equivalent to absence from the table.
    fn default() -> (r: Self)
        ensures
            r == empty_button_state(),
    {
        ButtonState { just_pressed: false, just_released: false, pressed: false }
    }
}

/// The abstract value of an [`InputState`].
pub struct InputModel {
    /// Buttons with at least one live flag; absence means all-clear.
    pub buttons: Map<Button, ButtonState>,
    /// Last reported value of each one dimensional device axis.
    pub axes_1d: Map<Axis1d, Fixed>,
    /// Last reported value of each two dimensional device axis.
    pub axes_2d: Map<Axis2d, Vec2>,
    /// Relative mouse motion accumulated since the last frame boundary.
    pub mouse_motion: (int, int),
    /// Wheel turns accumulated since the last frame boundary.
    pub mouse_wheel: (int, int),
    /// Last reported absolute cursor position.
    pub cursor_position: (int, int),
    /// Offset subtracted from the cursor position when it is read.
    pub viewport_position: (int, int),
}

impl InputModel {
    /// The state recorded for `b`, or the all-clear state if none is.
    pub open spec fn button_state_of(self, b: Button) -> ButtonState {
        if self.buttons.contains_key(b) {
            self.buttons[b]
        } else {
            empty_button_state()
        }
    }

    /// Whether `b` is down: held, or pressed since the last frame boundary.
    pub open spec fn is_down(self, b: Button) -> bool {
        self.button_state_of(b).pressed || self.button_state_of(b).just_pressed
    }

    /// The current value of a one dimensional axis. Mouse axes read the
    /// motion and wheel accumulators; gamepad axes read the last reported
    /// value, zero if none was ever reported.
    pub open spec fn axis1d_of(self, axis: Axis1d) -> int {
        match axis {
            Axis1d::Mouse(mouse) => match mouse {
                crate::buttons::MouseAxis1d::WheelX => self.mouse_wheel.0,
                crate::buttons::MouseAxis1d::WheelY => self.mouse_wheel.1,
                crate::buttons::MouseAxis1d::X => self.mouse_motion.0,
                crate::buttons::MouseAxis1d::Y => self.mouse_motion.1,
            },
            Axis1d::Gamepad(_) => {
                if self.axes_1d.contains_key(axis) {
                    self.axes_1d[axis]@
                } else {
                    0
                }
            },
        }
    }

    /// The current value of a two dimensional axis. The mouse axis reads
    /// the motion accumulator; gamepad axes read the last reported value,
    /// zero if none was ever reported.
    pub open spec fn axis2d_of(self, axis: Axis2d) -> (int, int) {
        match axis {
            Axis2d::Mouse(_) => self.mouse_motion,
            Axis2d::Gamepad(_) => {
                if self.axes_2d.contains_key(axis) {
                    self.axes_2d[axis]@
                } else {
                    (0, 0)
                }
            },
        }
    }
}

/// The model of a freshly created state: no buttons, no axes, all zero.
pub open spec fn init_model() -> InputModel {
    InputModel {
        buttons: Map::empty(),
        axes_1d: Map::empty(),
        axes_2d: Map::empty(),
        mouse_motion: (0, 0),
        mouse_wheel: (0, 0),
        cursor_position: (0, 0),
        viewport_position: (0, 0),
    }
}

/// How one event transforms the model. A press sets `pressed` and
/// `just_pressed`, a release clears `pressed` and sets `just_released`;
/// neither clears the other edge, so a press and a release within one frame
/// leave both edges visible. Axis changes overwrite the last known value,
/// motion and wheel deltas accumulate, and a cursor move overwrites the
/// absolute position.
pub open spec fn step_event(m: InputModel, e: Event) -> InputModel {
    match e {
        Event::ButtonPressed(b) => {
            let prev = m.button_state_of(b);
            InputModel {
                buttons: m.buttons.insert(
                    b,
                    ButtonState {
                        just_pressed: true,
                        just_released: prev.just_released,
                        pressed: true,
                    },
                ),
                ..m
            }
        },
        Event::ButtonReleased(b) => {
            let prev = m.button_state_of(b);
            InputModel {
                buttons: m.buttons.insert(
                    b,
                    ButtonState {
                        just_pressed: prev.just_pressed,
                        just_released: true,
                        pressed: false,
                    },
                ),
                ..m
            }
        },
        Event::Axis1dChanged(axis, value) => InputModel {
            axes_1d: m.axes_1d.insert(axis, value),
            ..m
        },
        Event::Axis2dChanged(axis, value) => InputModel {
            axes_2d: m.axes_2d.insert(axis, value),
            ..m
        },
        Event::CursorMoved(x, y) => InputModel { cursor_position: (x@, y@), ..m },
        Event::MouseMotion(x, y) => InputModel {
            mouse_motion: (fx_add_spec(m.mouse_motion.0, x@), fx_add_spec(m.mouse_motion.1, y@)),
            ..m
        },
        Event::MouseWheel(x, y) => InputModel {
            mouse_wheel: (fx_add_spec(m.mouse_wheel.0, x@), fx_add_spec(m.mouse_wheel.1, y@)),
            ..m
        },
    }
}

/// The button table after a frame boundary: only held buttons remain, with
/// both edges cleared.
pub open spec fn end_buttons(buttons: Map<Button, ButtonState>) -> Map<Button, ButtonState> {
    Map::new(
        |b: Button| buttons.contains_key(b) && buttons[b].pressed,
        |b: Button| held_button_state(),
    )
}

/// How a frame boundary transforms the model: motion and wheel accumulators
/// reset, edges clear, and fully released buttons leave the table.
pub open spec fn step_end(m: InputModel) -> InputModel {
    InputModel { buttons: end_buttons(m.buttons), mouse_motion: (0, 0), mouse_wheel: (0, 0), ..m }
}

/// Tracks all of the input state for a session: which buttons are down,
/// the last reported axis values, and the per-frame accumulators.
#[derive(Debug)]
pub struct InputState {
    buttons: Vec<(Button, ButtonState)>,
    axes_1d: Vec<(Axis1d, Fixed)>,
    axes_2d: Vec<(Axis2d, Vec2)>,
    mouse_motion: Vec2,
    mouse_wheel: Vec2,
    cursor_position: Vec2,
    viewport_position: Vec2,
}

impl InputState {
    /// The tables never hold two entries for one key.
    #[verifier::type_invariant]
    spec fn wf(self) -> bool {
        distinct_keys(self.buttons@) && distinct_keys(self.axes_1d@) && distinct_keys(
            self.axes_2d@,
        )
    }
}

impl View for InputState {
    type V = InputModel;

    closed spec fn view(&self) -> InputModel {
        InputModel {
            buttons: assoc_map(self.buttons@),
            axes_1d: assoc_map(self.axes_1d@),
            axes_2d: assoc_map(self.axes_2d@),
            mouse_motion: self.mouse_motion@,
            mouse_wheel: self.mouse_wheel@,
            cursor_position: self.cursor_position@,
            viewport_position: self.viewport_position@,
        }
    }
}

/// Copies a table of copyable entries.
fn copy_entries<T: Copy>(v: &Vec<T>) -> (r: Vec<T>)
    ensures
        r@ == v@,
{
    let n = v.len();
    let mut out: Vec<T> = Vec::new();
    let mut i: usize = 0;
    while i < n
        invariant
            n == v@.len(),
            i <= n,
            out@ == v@.take(i as int),
        decreases n - i,
    {
        out.push(v[i]);
        proof {
            assert(out@ =~= v@.take(i + 1));
        }
        i = i + 1;
    }
    proof {
        assert(v@.take(n as int) =~= v@);
    }
    out
}

/// Looks a button up in the state table.
fn btn_get(entries: &Vec<(Button, ButtonState)>, b: Button) -> (r: Option<ButtonState>)
    requires
        distinct_keys(entries@),
    ensures
        r == if assoc_map(entries@).contains_key(b) {
            Some(assoc_map(entries@)[b])
        } else {
            None::<ButtonState>
        },
{
    let n = entries.len();
    let mut i: usize = 0;
    while i < n
        invariant
            n == entries@.len(),
            i <= n,
            distinct_keys(entries@),
            forall|j: int| 0 <= j < i ==> (#[trigger] entries@[j]).0 != b,
        decreases n - i,
    {
        let pair = entries[i];
        if pair.0 == b {
            proof {
                lemma_assoc_index(entries@, i as int);
            }
            return Some(pair.1);
        }
        i = i + 1;
    }
    proof {
        lemma_assoc_contains(entries@, b);
    }
    None
}

/// A copy of the button table with the entry for `b` inserted or replaced.
fn btn_upsert(entries: &Vec<(Button, ButtonState)>, b: Button, state: ButtonState) -> (r: Vec<
    (Button, ButtonState),
>)
    requires
        distinct_keys(entries@),
    ensures
        distinct_keys(r@),
        assoc_map(r@) == assoc_map(entries@).insert(b, state),
{
    let n = entries.len();
    let mut out: Vec<(Button, ButtonState)> = Vec::new();
    let mut i: usize = 0;
    proof {
        assert(assoc_map(out@) =~= assoc_map(entries@.take(0)).remove(b));
    }
    while i < n
        invariant
            n == entries@.len(),
            i <= n,
            distinct_keys(entries@),
            distinct_keys(out@),
            assoc_map(out@) == assoc_map(entries@.take(i as int)).remove(b),
        decreases n - i,
    {
        let pair = entries[i];
        let ghost prefix = entries@.take(i as int);
        proof {
            lemma_assoc_contains(prefix, pair.0);
            assert(forall|j: int| 0 <= j < i ==> (#[trigger] entries@[j]).0 != pair.0);
            assert(!assoc_map(prefix).contains_key(pair.0));
            lemma_assoc_contains(out@, pair.0);
            assert(entries@.take(i + 1).drop_last() =~= prefix);
            assert(entries@.take(i + 1).last() == entries@[i as int]);
        }
        if !(pair.0 == b) {
            let ghost pre = out@;
            out.push(pair);
            proof {
                assert(out@.drop_last() =~= pre);
            }
        }
        proof {
            assert(assoc_map(out@) =~= assoc_map(entries@.take(i + 1)).remove(b));
        }
        i = i + 1;
    }
    proof {
        assert(entries@.take(n as int) =~= entries@);
        lemma_assoc_contains(out@, b);
    }
    let ghost pre = out@;
    out.push((b, state));
    proof {
        assert(out@.drop_last() =~= pre);
        assert(assoc_map(out@) =~= assoc_map(entries@).insert(b, state));
    }
    out
}

/// Sweeps the button table at a frame boundary: held buttons stay with
/// cleared edges, everything else leaves.
fn btn_sweep(entries: &Vec<(Button, ButtonState)>) -> (r: Vec<(Button, ButtonState)>)
    requires
        distinct_keys(entries@),
    ensures
        distinct_keys(r@),
        assoc_map(r@) == end_buttons(assoc_map(entries@)),
{
    let n = entries.len();
    let mut out: Vec<(Button, ButtonState)> = Vec::new();
    let mut i: usize = 0;
    proof {
        assert(assoc_map(out@) =~= end_buttons(assoc_map(entries@.take(0))));
    }
    while i < n
        invariant
            n == entries@.len(),
            i <= n,
            distinct_keys(entries@),
            distinct_keys(out@),
            assoc_map(out@) == end_buttons(assoc_map(entries@.take(i as int))),
        decreases n - i,
    {
        let pair = entries[i];
        let ghost prefix = entries@.take(i as int);
        proof {
            lemma_assoc_contains(prefix, pair.0);
            assert(forall|j: int| 0 <= j < i ==> (#[trigger] entries@[j]).0 != pair.0);
            assert(!assoc_map(prefix).contains_key(pair.0));
            lemma_assoc_contains(out@, pair.0);
            assert(entries@.take(i + 1).drop_last() =~= prefix);
            assert(entries@.take(i + 1).last() == entries@[i as int]);
        }
        if pair.1.pressed {
            let ghost pre = out@;
            out.push((pair.0, ButtonState { just_pressed: false, just_released: false, pressed: true }));
            proof {
                assert(out@.drop_last() =~= pre);
                assert(assoc_map(out@) == assoc_map(pre).insert(pair.0, held_button_state()));
                assert(assoc_map(out@) =~= end_buttons(assoc_map(entries@.take(i + 1))));
            }
        } else {
            proof {
                assert(assoc_map(out@) =~= end_buttons(assoc_map(entries@.take(i + 1))));
            }
        }
        i = i + 1;
    }
    proof {
        assert(entries@.take(n as int) =~= entries@);
    }
    out
}

/// Looks a one dimensional axis up in the state table.
fn ax1_get(entries: &Vec<(Axis1d, Fixed)>, a: Axis1d) -> (r: Option<Fixed>)
    requires
        distinct_keys(entries@),
    ensures
        r == if assoc_map(entries@).contains_key(a) {
            Some(assoc_map(entries@)[a])
        } else {
            None::<Fixed>
        },
{
    let n = entries.len();
    let mut i: usize = 0;
    while i < n
        invariant
            n == entries@.len(),
            i <= n,
            distinct_keys(entries@),
            forall|j: int| 0 <= j < i ==> (#[trigger] entries@[j]).0 != a,
        decreases n - i,
    {
        let pair = entries[i];
        if pair.0 == a {
            proof {
                lemma_assoc_index(entries@, i as int);
            }
            return Some(pair.1);
        }
        i = i + 1;
    }
    proof {
        lemma_assoc_contains(entries@, a);
    }
    None
}

/// A copy of the 1D axis table with the entry for `a` inserted or replaced.
fn ax1_upsert(entries: &Vec<(Axis1d, Fixed)>, a: Axis1d, value: Fixed) -> (r: Vec<(Axis1d, Fixed)>)
    requires
        distinct_keys(entries@),
    ensures
        distinct_keys(r@),
        assoc_map(r@) == assoc_map(entries@).insert(a, value),
{
    let n = entries.len();
    let mut out: Vec<(Axis1d, Fixed)> = Vec::new();
    let mut i: usize = 0;
    proof {
        assert(assoc_map(out@) =~= assoc_map(entries@.take(0)).remove(a));
    }
    while i < n
        invariant
            n == entries@.len(),
            i <= n,
            distinct_keys(entries@),
            distinct_keys(out@),
            assoc_map(out@) == assoc_map(entries@.take(i as int)).remove(a),
        decreases n - i,
    {
        let pair = entries[i];
        let ghost prefix = entries@.take(i as int);
        proof {
            lemma_assoc_contains(prefix, pair.0);
            assert(forall|j: int| 0 <= j < i ==> (#[trigger] entries@[j]).0 != pair.0);
            assert(!assoc_map(prefix).contains_key(pair.0));
            lemma_assoc_contains(out@, pair.0);
            assert(entries@.take(i + 1).drop_last() =~= prefix);
            assert(entries@.take(i + 1).last() == entries@[i as int]);
        }
        if !(pair.0 == a) {
            let ghost pre = out@;
            out.push(pair);
            proof {
                assert(out@.drop_last() =~= pre);
            }
        }
        proof {
            assert(assoc_map(out@) =~= assoc_map(entries@.take(i + 1)).remove(a));
        }
        i = i + 1;
    }
    proof {
        assert(entries@.take(n as int) =~= entries@);
        lemma_assoc_contains(out@, a);
    }
    let ghost pre = out@;
    out.push((a, value));
    proof {
        assert(out@.drop_last() =~= pre);
        assert(assoc_map(out@) =~= assoc_map(entries@).insert(a, value));
    }
    out
}

/// Looks a two dimensional axis up in the state table.
fn ax2_get(entries: &Vec<(Axis2d, Vec2)>, a: Axis2d) -> (r: Option<Vec2>)
    requires
        distinct_keys(entries@),
    ensures
        r == if assoc_map(entries@).contains_key(a) {
            Some(assoc_map(entries@)[a])
        } else {
            None::<Vec2>
        },
{
    let n = entries.len();
    let mut i: usize = 0;
    while i < n
        invariant
            n == entries@.len(),
            i <= n,
            distinct_keys(entries@),
            forall|j: int| 0 <= j < i ==> (#[trigger] entries@[j]).0 != a,
        decreases n - i,
    {
        let pair = entries[i];
        if pair.0 == a {
            proof {
                lemma_assoc_index(entries@, i as int);
            }
            return Some(pair.1);
        }
        i = i + 1;
    }
    proof {
        lemma_assoc_contains(entries@, a);
    }
    None
}

/// A copy of the 2D axis table with the entry for `a` inserted or replaced.
fn ax2_upsert(entries: &Vec<(Axis2d, Vec2)>, a: Axis2d, value: Vec2) -> (r: Vec<(Axis2d, Vec2)>)
    requires
        distinct_keys(entries@),
    ensures
        distinct_keys(r@),
        assoc_map(r@) == assoc_map(entries@).insert(a, value),
{
    let n = entries.len();
    let mut out: Vec<(Axis2d, Vec2)> = Vec::new();
    let mut i: usize = 0;
    proof {
        assert(assoc_map(out@) =~= assoc_map(entries@.take(0)).remove(a));
    }
    while i < n
        invariant
            n == entries@.len(),
            i <= n,
            distinct_keys(entries@),
            distinct_keys(out@),
            assoc_map(out@) == assoc_map(entries@.take(i as int)).remove(a),
        decreases n - i,
    {
        let pair = entries[i];
        let ghost prefix = entries@.take(i as int);
        proof {
            lemma_assoc_contains(prefix, pair.0);
            assert(forall|j: int| 0 <= j < i ==> (#[trigger] entries@[j]).0 != pair.0);
            assert(!assoc_map(prefix).contains_key(pair.0));
            lemma_assoc_contains(out@, pair.0);
            assert(entries@.take(i + 1).drop_last() =~= prefix);
            assert(entries@.take(i + 1).last() == entries@[i as int]);
        }
        if !(pair.0 == a) {
            let ghost pre = out@;
            out.push(pair);
            proof {
                assert(out@.drop_last() =~= pre);
            }
        }
        proof {
            assert(assoc_map(out@) =~= assoc_map(entries@.take(i + 1)).remove(a));
        }
        i = i + 1;
    }
    proof {
        assert(entries@.take(n as int) =~= entries@);
        lemma_assoc_contains(out@, a);
    }
    let ghost pre = out@;
    out.push((a, value));
    proof {
        assert(out@.drop_last() =~= pre);
        assert(assoc_map(out@) =~= assoc_map(entries@).insert(a, value));
    }
    out
}

impl InputState {
    /// Creates an empty state: no buttons down, no axis values, all
    /// accumulators zero.
    pub fn new() -> (r: Self)
        ensures
            r@ == init_model(),
    {
        let r = InputState {
            buttons: Vec::new(),
            axes_1d: Vec::new(),
            axes_2d: Vec::new(),
            mouse_motion: Vec2::zero(),
            mouse_wheel: Vec2::zero(),
            cursor_position: Vec2::zero(),
            viewport_position: Vec2::zero(),
        };
        proof {
            assert(r@.buttons =~= init_model().buttons);
            assert(r@.axes_1d =~= init_model().axes_1d);
            assert(r@.axes_2d =~= init_model().axes_2d);
        }
        r
    }

    /// Sets the offset of the game viewport, used when reporting the
    /// cursor's position.
    pub fn set_viewport_position(&mut self, pos: Vec2)
        ensures
            final(self)@ == (InputModel { viewport_position: pos@, ..old(self)@ }),
    {
        proof {
            use_type_invariant(&*self);
        }
        self.viewport_position = pos;
    }

    /// Returns the current state for the given button.
    pub fn button_state(&self, button: Button) -> (r: ButtonState)
        ensures
            r == self@.button_state_of(button),
    {
        proof {
            use_type_invariant(self);
        }
        match btn_get(&self.buttons, button) {
            Some(state) => state,
            None => ButtonState { just_pressed: false, just_released: false, pressed: false },
        }
    }

    /// Tells whether the given button was pressed this update.
    pub fn is_button_just_down(&self, button: Button) -> (r: bool)
        ensures
            r == self@.button_state_of(button).just_pressed,
    {
        self.button_state(button).just_pressed
    }

    /// Tells whether the given button was released this update.
    pub fn is_button_just_up(&self, button: Button) -> (r: bool)
        ensures
            r == self@.button_state_of(button).just_released,
    {
        self.button_state(button).just_released
    }

    /// Tells whether the given button is currently pressed: held, or pressed
    /// since the last frame boundary.
    pub fn is_button_down(&self, button: Button) -> (r: bool)
        ensures
            r == self@.is_down(button),
    {
        let state = self.button_state(button);
        state.just_pressed || state.pressed
    }

    /// Tells whether the given button is currently released.
    pub fn is_button_up(&self, button: Button) -> (r: bool)
        ensures
            r == !self@.button_state_of(button).pressed,
    {
        !self.button_state(button).pressed
    }

    /// Tells the state of the given one dimensional axis.
    pub fn get_axis1d(&self, axis: Axis1d) -> (r: Fixed)
        ensures
            r@ == self@.axis1d_of(axis),
    {
        proof {
            use_type_invariant(self);
        }
        match axis {
            Axis1d::Mouse(mouse) => match mouse {
                crate::buttons::MouseAxis1d::WheelX => self.mouse_wheel.x,
                crate::buttons::MouseAxis1d::WheelY => self.mouse_wheel.y,
                crate::buttons::MouseAxis1d::X => self.mouse_motion.x,
                crate::buttons::MouseAxis1d::Y => self.mouse_motion.y,
            },
            Axis1d::Gamepad(_) => match ax1_get(&self.axes_1d, axis) {
                Some(value) => value,
                None => Fixed::zero(),
            },
        }
    }

    /// Tells the state of the given two dimensional axis.
    pub fn get_axis2d(&self, axis: Axis2d) -> (r: Vec2)
        ensures
            r@ == self@.axis2d_of(axis),
    {
        proof {
            use_type_invariant(self);
        }
        match axis {
            Axis2d::Mouse(_) => self.mouse_motion,
            Axis2d::Gamepad(_) => match ax2_get(&self.axes_2d, axis) {
                Some(value) => value,
                None => Vec2::zero(),
            },
        }
    }

    /// The relative mouse motion accumulated since the last frame boundary.
    pub fn mouse_motion(&self) -> (r: Vec2)
        ensures
            r@ == self@.mouse_motion,
    {
        self.mouse_motion
    }

    /// Tells the current position of the cursor, translated by the viewport
    /// offset.
    pub fn cursor_position(&self) -> (r: Vec2)
        ensures
            r@ == (
                fx_sub_spec(self@.cursor_position.0, self@.viewport_position.0),
                fx_sub_spec(self@.cursor_position.1, self@.viewport_position.1),
            ),
    {
        Vec2::new(
            self.cursor_position.x.sub(self.viewport_position.x),
            self.cursor_position.y.sub(self.viewport_position.y),
        )
    }

    /// A copy of the current state, for callers that want to run queries
    /// without holding the session's lock.
    pub fn snapshot(&self) -> (r: InputState)
        ensures
            r@ == self@,
    {
        proof {
            use_type_invariant(self);
        }
        InputState {
            buttons: copy_entries(&self.buttons),
            axes_1d: copy_entries(&self.axes_1d),
            axes_2d: copy_entries(&self.axes_2d),
            mouse_motion: self.mouse_motion,
            mouse_wheel: self.mouse_wheel,
            cursor_position: self.cursor_position,
            viewport_position: self.viewport_position,
        }
    }

    /// Marks the end of an update: resets the motion and wheel accumulators
    /// and clears edges, removing buttons that are no longer held.
    pub fn end_update(&mut self)
        ensures
            final(self)@ == step_end(old(self)@),
    {
        proof {
            use_type_invariant(&*self);
        }
        self.mouse_motion = Vec2::zero();
        self.mouse_wheel = Vec2::zero();
        let swept = btn_sweep(&self.buttons);
        self.buttons = swept;
    }

    /// Handles the given event and updates the state accordingly.
    pub fn handle_event(&mut self, event: Event)
        ensures
            final(self)@ == step_event(old(self)@, event),
    {
        proof {
            use_type_invariant(&*self);
        }
        match event {
            Event::ButtonPressed(button) => {
                let prev = self.button_state(button);
                let next = ButtonState {
                    just_pressed: true,
                    just_released: prev.just_released,
                    pressed: true,
                };
                let updated = btn_upsert(&self.buttons, button, next);
                self.buttons = updated;
            },
            Event::ButtonReleased(button) => {
                let prev = self.button_state(button);
                let next = ButtonState {
                    just_pressed: prev.just_pressed,
                    just_released: true,
                    pressed: false,
                };
                let updated = btn_upsert(&self.buttons, button, next);
                self.buttons = updated;
            },
            Event::Axis1dChanged(axis, value) => {
                let updated = ax1_upsert(&self.axes_1d, axis, value);
                self.axes_1d = updated;
            },
            Event::Axis2dChanged(axis, value) => {
                let updated = ax2_upsert(&self.axes_2d, axis, value);
                self.axes_2d = updated;
            },
            Event::CursorMoved(x, y) => {
                self.cursor_position = Vec2::new(x, y);
            },
            Event::MouseMotion(x, y) => {
                self.mouse_motion = self.mouse_motion.add(Vec2::new(x, y));
            },
            Event::MouseWheel(x, y) => {
                self.mouse_wheel = self.mouse_wheel.add(Vec2::new(x, y));
            },
        }
    }
}

} // verus!
