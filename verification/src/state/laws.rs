//! Laws of the per-frame input state machine, over arbitrary interleavings
//! of events and frame boundaries.

use vstd::prelude::*;

use crate::buttons::Button;
use crate::event::Event;
use crate::state::ButtonState;
use crate::state::InputModel;
use crate::state::empty_button_state;
use crate::state::held_button_state;
use crate::state::init_model;
use crate::state::step_end;
use crate::state::step_event;

verus! {

/// One operation against the input state: handling an event, or marking a
/// frame boundary.
pub enum InputOp {
    /// One event is handled.
    Handle(Event),
    /// A frame boundary passes.
    EndUpdate,
}

/// How one operation transforms the model.
pub open spec fn step_op(m: InputModel, op: InputOp) -> InputModel {
    match op {
        InputOp::Handle(e) => step_event(m, e),
        InputOp::EndUpdate => step_end(m),
    }
}

/// The model after a whole sequence of operations.
pub open spec fn run_ops(m: InputModel, ops: Seq<InputOp>) -> InputModel
    decreases ops.len(),
{
    if ops.len() == 0 {
        m
    } else {
        step_op(run_ops(m, ops.drop_last()), ops.last())
    }
}

/// Whether the last edge of button `b` in the history, if any, is a press.
pub open spec fn held_after(ops: Seq<InputOp>, b: Button) -> bool
    decreases ops.len(),
{
    if ops.len() == 0 {
        false
    } else {
        match ops.last() {
            InputOp::Handle(Event::ButtonPressed(b2)) => {
                if b2 == b {
                    true
                } else {
                    held_after(ops.drop_last(), b)
                }
            },
            InputOp::Handle(Event::ButtonReleased(b2)) => {
                if b2 == b {
                    false
                } else {
                    held_after(ops.drop_last(), b)
                }
            },
            _ => held_after(ops.drop_last(), b),
        }
    }
}

/// Whether a press of `b` occurred since the last frame boundary, or ever,
/// when no boundary has passed.
pub open spec fn pressed_since_update(ops: Seq<InputOp>, b: Button) -> bool
    decreases ops.len(),
{
    if ops.len() == 0 {
        false
    } else {
        match ops.last() {
            InputOp::Handle(Event::ButtonPressed(b2)) => {
                if b2 == b {
                    true
                } else {
                    pressed_since_update(ops.drop_last(), b)
                }
            },
            InputOp::EndUpdate => false,
            _ => pressed_since_update(ops.drop_last(), b),
        }
    }
}

/// Whether a release of `b` occurred since the last frame boundary, or
/// ever, when no boundary has passed.
pub open spec fn released_since_update(ops: Seq<InputOp>, b: Button) -> bool
    decreases ops.len(),
{
    if ops.len() == 0 {
        false
    } else {
        match ops.last() {
            InputOp::Handle(Event::ButtonReleased(b2)) => {
                if b2 == b {
                    true
                } else {
                    released_since_update(ops.drop_last(), b)
                }
            },
            InputOp::EndUpdate => false,
            _ => released_since_update(ops.drop_last(), b),
        }
    }
}

/// Whether `b` was held at the most recent completed frame boundary: the
/// last edge before that boundary was a press.
pub open spec fn held_at_last_update(ops: Seq<InputOp>, b: Button) -> bool
    decreases ops.len(),
{
    if ops.len() == 0 {
        false
    } else {
        match ops.last() {
            InputOp::EndUpdate => held_after(ops.drop_last(), b),
            _ => held_at_last_update(ops.drop_last(), b),
        }
    }
}

/// The full characterization of one button's entry after any history run
/// from the initial state: the entry exists exactly when an edge occurred
/// since the last frame boundary or the button is held, and its flags are
/// exactly the since-boundary edges and the held bit.
pub proof fn lemma_run_button_state(ops: Seq<InputOp>, b: Button)
    ensures
        ({
            let m = run_ops(init_model(), ops);
            &&& m.buttons.contains_key(b) == (pressed_since_update(ops, b) || released_since_update(
                ops,
                b,
            ) || held_after(ops, b))
            &&& m.button_state_of(b) == (ButtonState {
                just_pressed: pressed_since_update(ops, b),
                just_released: released_since_update(ops, b),
                pressed: held_after(ops, b),
            })
        }),
    decreases ops.len(),
{
    if ops.len() == 0 {
        assert(!init_model().buttons.contains_key(b));
    } else {
        lemma_run_button_state(ops.drop_last(), b);
        let rest = ops.drop_last();
        let m0 = run_ops(init_model(), rest);
        let m = run_ops(init_model(), ops);
        match ops.last() {
            InputOp::Handle(e) => {
                match e {
                    Event::ButtonPressed(b2) => {
                        if b2 == b {
                            assert(m.buttons.contains_key(b));
                        } else {
                            assert(m.button_state_of(b) == m0.button_state_of(b));
                        }
                    },
                    Event::ButtonReleased(b2) => {
                        if b2 == b {
                            assert(m.buttons.contains_key(b));
                        } else {
                            assert(m.button_state_of(b) == m0.button_state_of(b));
                        }
                    },
                    _ => {
                        assert(m.buttons == m0.buttons);
                    },
                }
            },
            InputOp::EndUpdate => {
                if m0.buttons.contains_key(b) && m0.buttons[b].pressed {
                    assert(m.buttons.contains_key(b));
                    assert(m.buttons[b] == held_button_state());
                } else {
                    assert(!m.buttons.contains_key(b));
                }
            },
        }
    }
}

/// `is_button_down` is true exactly when the button's last edge overall
/// was a press, or a press occurred since the last frame boundary.
pub proof fn lemma_is_down_characterization(ops: Seq<InputOp>, b: Button)
    ensures
        run_ops(init_model(), ops).is_down(b) == (held_after(ops, b) || pressed_since_update(
            ops,
            b,
        )),
{
    lemma_run_button_state(ops, b);
}

/// With no edge of `b` since the last frame boundary, being held now is
/// the same as having been held at that boundary.
proof fn lemma_no_edge_held(ops: Seq<InputOp>, b: Button)
    requires
        !pressed_since_update(ops, b),
        !released_since_update(ops, b),
    ensures
        held_after(ops, b) == held_at_last_update(ops, b),
    decreases ops.len(),
{
    if ops.len() == 0 {
    } else {
        match ops.last() {
            InputOp::EndUpdate => {
            },
            _ => {
                lemma_no_edge_held(ops.drop_last(), b);
            },
        }
    }
}

/// With a release but no press of `b` since the last frame boundary, the
/// button is not held now.
proof fn lemma_release_since_not_held(ops: Seq<InputOp>, b: Button)
    requires
        released_since_update(ops, b),
        !pressed_since_update(ops, b),
    ensures
        !held_after(ops, b),
    decreases ops.len(),
{
    if ops.len() == 0 {
    } else {
        match ops.last() {
            InputOp::Handle(Event::ButtonReleased(b2)) => {
                if b2 != b {
                    lemma_release_since_not_held(ops.drop_last(), b);
                }
            },
            InputOp::Handle(e) => {
                lemma_release_since_not_held(ops.drop_last(), b);
            },
            InputOp::EndUpdate => {
            },
        }
    }
}

/// For any interleaving of presses, releases and frame boundaries,
/// `is_button_down` is true exactly when the button was held at the most
/// recent completed frame boundary or a press occurred since.
///
/// The one family of histories left out is a release with no press since
/// the boundary of a button held at that boundary: there the button has
/// just been let go, and `is_button_down` is false although the button was
/// held at the boundary.
pub proof fn lemma_button_down_frames(ops: Seq<InputOp>, b: Button)
    requires
        !(released_since_update(ops, b) && !pressed_since_update(ops, b) && held_at_last_update(
            ops,
            b,
        )),
    ensures
        run_ops(init_model(), ops).is_down(b) == (held_at_last_update(ops, b)
            || pressed_since_update(ops, b)),
{
    lemma_is_down_characterization(ops, b);
    if pressed_since_update(ops, b) {
    } else {
        if released_since_update(ops, b) {
            lemma_release_since_not_held(ops, b);
        } else {
            lemma_no_edge_held(ops, b);
        }
    }
}

/// A press then a release of the same button within one frame leaves both
/// edges visible at once, with the button itself no longer pressed: the
/// tap is preserved, not collapsed.
pub proof fn lemma_press_release_same_frame(m: InputModel, b: Button)
    ensures
        step_event(step_event(m, Event::ButtonPressed(b)), Event::ButtonReleased(b)).button_state_of(
            b,
        ) == (ButtonState { just_pressed: true, just_released: true, pressed: false }),
{
}

/// A second frame boundary with no intervening events changes nothing: a
/// held button's entry stays as it is and every fully released button was
/// already removed, so the table does not grow with history.
pub proof fn lemma_end_update_idempotent(m: InputModel)
    ensures
        step_end(step_end(m)) == step_end(m),
        forall|b: Button|
            step_end(m).buttons.contains_key(b) ==> #[trigger] step_end(m).buttons[b]
                == held_button_state(),
        forall|b: Button|
            !(m.button_state_of(b).pressed) ==> !(#[trigger] step_end(m).buttons.contains_key(b)),
{
    assert(step_end(step_end(m)).buttons =~= step_end(m).buttons);
    assert(step_end(step_end(m)) == step_end(m));
}

} // verus!
