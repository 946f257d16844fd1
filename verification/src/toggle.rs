//! The cursor's highlight toggle and the press edges that drive it.
//!
//! The toggle flips once for each press of the button, however long the
//! button is then held: what counts is the frame in which the button goes
//! from released to pressed.

use vstd::prelude::*;

verus! {

/// The two values of the highlight toggle.
#[derive(Clone, Copy, Debug, PartialEq, Eq, Structural)]
pub enum ToggleState {
    Default,
    Highlighted,
}

impl Default for ToggleState {
    /// The value that the toggle starts with.
    fn default() -> (state: ToggleState)
        ensures
            state == ToggleState::Default,
    {
        ToggleState::Default
    }
}

impl ToggleState {
    /// The other value.
    pub open spec fn flipped(self) -> ToggleState {
        match self {
            ToggleState::Default => ToggleState::Highlighted,
            ToggleState::Highlighted => ToggleState::Default,
        }
    }
}

/// The button went from released to pressed: it is down in this frame and was
/// up in the last one.
pub open spec fn press_edge_spec(pressed_this_frame: bool, was_pressed_last_frame: bool) -> bool {
    pressed_this_frame && !was_pressed_last_frame
}

/// The toggle after a frame: flipped on a press edge, kept otherwise.
pub open spec fn update_spec(
    current_state: ToggleState,
    pressed_this_frame: bool,
    was_pressed_last_frame: bool,
) -> ToggleState {
    if press_edge_spec(pressed_this_frame, was_pressed_last_frame) {
        current_state.flipped()
    } else {
        current_state
    }
}

/// The toggle after a run of frames, given for each frame whether the button
/// was down in it. `was_pressed` is the button's status before the first.
pub open spec fn after_frames(state: ToggleState, was_pressed: bool, pressed: Seq<bool>) -> ToggleState
    decreases pressed.len(),
{
    if pressed.len() == 0 {
        state
    } else {
        after_frames(
            update_spec(state, pressed[0], was_pressed),
            pressed[0],
            pressed.subrange(1, pressed.len() as int),
        )
    }
}

/// How many presses begin in a run of frames: the frames in which the
/// button is down after a frame in which it was up.
pub open spec fn press_edges(was_pressed: bool, pressed: Seq<bool>) -> nat
    decreases pressed.len(),
{
    if pressed.len() == 0 {
        0
    } else {
        let first: nat = if press_edge_spec(pressed[0], was_pressed) {
            1
        } else {
            0
        };
        first + press_edges(pressed[0], pressed.subrange(1, pressed.len() as int))
    }
}

/// Whether the button's press began in this frame.
pub fn press_edge(pressed_this_frame: bool, was_pressed_last_frame: bool) -> (edge: bool)
    ensures
        edge == press_edge_spec(pressed_this_frame, was_pressed_last_frame),
{
    pressed_this_frame && !was_pressed_last_frame
}

/// The toggle's value after a frame in which the button's status is
/// `pressed_this_frame`, the frame before having seen `was_pressed_last_frame`.
///
/// A press edge flips the toggle. Every other frame keeps it: one in which
/// the button is up, and one in which it is still held.
pub fn update(
    current_state: ToggleState,
    pressed_this_frame: bool,
    was_pressed_last_frame: bool,
) -> (new_state: ToggleState)
    ensures
        new_state == update_spec(current_state, pressed_this_frame, was_pressed_last_frame),
        !press_edge_spec(pressed_this_frame, was_pressed_last_frame) ==> new_state == current_state,
        press_edge_spec(pressed_this_frame, was_pressed_last_frame) ==> new_state != current_state,
{
    if press_edge(pressed_this_frame, was_pressed_last_frame) {
        match current_state {
            ToggleState::Default => ToggleState::Highlighted,
            ToggleState::Highlighted => ToggleState::Default,
        }
    } else {
        current_state
    }
}

/// A press edge flips the toggle, whatever its value, and a second press
/// edge restores it; a frame without a press edge changes nothing.
pub proof fn lemma_transitions(state: ToggleState, pressed: bool, was_pressed: bool)
    ensures
        update_spec(state, true, false) == state.flipped(),
        update_spec(state, true, false) != state,
        update_spec(update_spec(state, true, false), true, false) == state,
        !press_edge_spec(pressed, was_pressed) ==> update_spec(state, pressed, was_pressed)
            == state,
{
}

/// However many frames pass with the button up, the toggle keeps its value,
/// whatever the button's status was before the first of them.
pub proof fn lemma_released_frames_keep_state(
    state: ToggleState,
    was_pressed: bool,
    pressed: Seq<bool>,
)
    requires
        forall|i: int| 0 <= i < pressed.len() ==> !pressed[i],
    ensures
        after_frames(state, was_pressed, pressed) == state,
    decreases pressed.len(),
{
    if pressed.len() > 0 {
        let rest = pressed.subrange(1, pressed.len() as int);
        assert forall|i: int| 0 <= i < rest.len() implies !rest[i] by {
            assert(rest[i] == pressed[i + 1]);
        }
        lemma_released_frames_keep_state(state, false, rest);
    }
}

/// While the button is held, frame after frame, the toggle keeps the value
/// that the press gave it.
pub proof fn lemma_held_frames_keep_state(state: ToggleState, pressed: Seq<bool>)
    requires
        forall|i: int| 0 <= i < pressed.len() ==> pressed[i],
    ensures
        after_frames(state, true, pressed) == state,
    decreases pressed.len(),
{
    if pressed.len() > 0 {
        let rest = pressed.subrange(1, pressed.len() as int);
        assert forall|i: int| 0 <= i < rest.len() implies rest[i] by {
            assert(rest[i] == pressed[i + 1]);
        }
        lemma_held_frames_keep_state(state, rest);
    }
}

/// After any run of frames the toggle has flipped once for each press that
/// began in it: it is back at its value after an even number of presses, and
/// at the other value after an odd number.
pub proof fn lemma_toggle_counts_presses(state: ToggleState, was_pressed: bool, pressed: Seq<bool>)
    ensures
        press_edges(was_pressed, pressed) % 2 == 0 ==> after_frames(state, was_pressed, pressed)
            == state,
        press_edges(was_pressed, pressed) % 2 == 1 ==> after_frames(state, was_pressed, pressed)
            == state.flipped(),
    decreases pressed.len(),
{
    if pressed.len() > 0 {
        lemma_toggle_counts_presses(
            update_spec(state, pressed[0], was_pressed),
            pressed[0],
            pressed.subrange(1, pressed.len() as int),
        );
    }
}

} // verus!
