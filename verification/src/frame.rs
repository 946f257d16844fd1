//! One frame of the cursor: the toggle is brought up to date with the button
//! first, then the contact point is found, then the marker is placed, so
//! that a marker always shows the toggle as the same frame's input left it.

use vstd::prelude::*;
use crate::geometry::{
    intersect_plane, intersect_plane_spec, is_behind, is_parallel, point_at, point_at_spec,
    NoRayError, Ray, Vec3,
};
use crate::marker::{color_spec, marker_spec, place_marker, Marker};
use crate::toggle::{update, update_spec, ToggleState};

verus! {

/// The ground: the plane through `point` with normal `normal`.
#[derive(Clone, Copy, Debug, PartialEq, Eq, Structural)]
pub struct GroundPlane {
    pub point: Vec3,
    pub normal: Vec3,
}

/// What one frame is given.
///
/// `cursor_ray` is `None` while the cursor is outside the window. Otherwise
/// it holds what the camera made of the cursor's position: the ray from the
/// camera through it, or the failure to form one.
#[derive(Clone, Copy, Debug, PartialEq, Eq)]
pub struct FrameInput {
    pub button_pressed: bool,
    pub cursor_ray: Option<Result<Ray, NoRayError>>,
    pub ground: GroundPlane,
}

/// Where the cursor's ray touches the ground, if there is a ray and the
/// ground lies ahead of it.
pub open spec fn contact_spec(
    cursor_ray: Option<Result<Ray, NoRayError>>,
    ground: GroundPlane,
) -> Option<Vec3> {
    match cursor_ray {
        Some(Ok(ray)) => match intersect_plane_spec(ray, ground.point, ground.normal) {
            Some(t) => Some(point_at_spec(ray, t)),
            None => None,
        },
        _ => None,
    }
}

/// The point of the ground under the cursor.
///
/// There is none in a frame without a cursor, none where the camera formed no
/// ray, and none where the ray does not meet the ground ahead of the camera.
pub fn contact_point(cursor_ray: Option<Result<Ray, NoRayError>>, ground: &GroundPlane) -> (contact:
    Option<Vec3>)
    ensures
        cursor_ray is None ==> contact is None,
        cursor_ray matches Some(Err(_)) ==> contact is None,
        cursor_ray matches Some(Ok(ray)) ==> (contact is None <==> is_parallel(ray, ground.normal)
            || is_behind(ray, ground.point, ground.normal)),
        contact == contact_spec(cursor_ray, *ground),
{
    match cursor_ray {
        Some(Ok(ray)) => match intersect_plane(&ray, &ground.point, &ground.normal) {
            Some(t) => Some(point_at(&ray, t)),
            None => None,
        },
        _ => None,
    }
}

/// The cursor's one toggle, and what the button was doing in the last frame.
#[derive(Clone, Copy, Debug, PartialEq, Eq, Structural)]
pub struct FramePipeline {
    state: ToggleState,
    was_pressed: bool,
}

impl Default for FramePipeline {
    /// The pipeline before its first frame.
    fn default() -> (pipeline: FramePipeline)
        ensures
            pipeline.state() == ToggleState::Default,
            !pipeline.was_pressed(),
    {
        FramePipeline::new()
    }
}

impl FramePipeline {
    /// The toggle's value.
    pub closed spec fn spec_state(&self) -> ToggleState {
        self.state
    }

    /// Whether the button was down in the last frame.
    pub closed spec fn spec_was_pressed(&self) -> bool {
        self.was_pressed
    }

    /// The pipeline before its first frame: the toggle at its default, the
    /// button up.
    pub fn new() -> (pipeline: FramePipeline)
        ensures
            pipeline.state() == ToggleState::Default,
            !pipeline.was_pressed(),
    {
        FramePipeline { state: ToggleState::Default, was_pressed: false }
    }

    /// The toggle's value.
    #[verifier::when_used_as_spec(spec_state)]
    pub fn state(&self) -> (state: ToggleState)
        ensures
            state == self.state(),
    {
        self.state
    }

    /// Whether the button was down in the last frame.
    #[verifier::when_used_as_spec(spec_was_pressed)]
    pub fn was_pressed(&self) -> (pressed: bool)
        ensures
            pressed == self.was_pressed(),
    {
        self.was_pressed
    }

    /// Runs one frame and returns what to draw in it, if anything.
    ///
    /// The toggle is updated from the button first. The marker, where there
    /// is a contact point, then bears the colour of the toggle's new value.
    pub fn run_frame(&mut self, input: &FrameInput) -> (drawn: Option<Marker>)
        ensures
            final(self).state() == update_spec(
                old(self).state(),
                input.button_pressed,
                old(self).was_pressed(),
            ),
            final(self).was_pressed() == input.button_pressed,
            !input.button_pressed ==> final(self).state() == old(self).state(),
            drawn == marker_spec(
                contact_spec(input.cursor_ray, input.ground),
                input.ground.normal,
                final(self).state(),
            ),
            input.cursor_ray is None ==> drawn is None,
            input.cursor_ray matches Some(Err(_)) ==> drawn is None,
            input.cursor_ray matches Some(Ok(ray)) ==> (drawn is None <==> is_parallel(
                ray,
                input.ground.normal,
            ) || is_behind(ray, input.ground.point, input.ground.normal)),
            drawn matches Some(marker) ==> marker.color == color_spec(final(self).state()),
    {
        self.state = update(self.state, input.button_pressed, self.was_pressed);
        self.was_pressed = input.button_pressed;
        let contact = contact_point(input.cursor_ray, &input.ground);
        place_marker(contact, &input.ground.normal, self.state)
    }
}

} // verus!
