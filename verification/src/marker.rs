//! The marker drawn where the cursor touches the ground.

use vstd::prelude::*;
use crate::geometry::{saturate, Ray, Vec3, point_at};
use crate::toggle::ToggleState;

verus! {

/// The marker's radius: a fifth of a world unit, in thousandths.
pub const MARKER_RADIUS: i32 = 200;

/// How far the marker floats above the surface, along the normal, so that the
/// two are not drawn into each other: a hundredth of the normal's length, in
/// thousandths.
pub const SURFACE_OFFSET: i32 = 10;

/// A colour. Each channel is in thousandths of full intensity.
#[derive(Clone, Copy, Debug, PartialEq, Eq, Structural)]
pub struct Color {
    pub red: u16,
    pub green: u16,
    pub blue: u16,
}

/// The circle to draw in a frame: centred at `center`, facing along `normal`.
#[derive(Clone, Copy, Debug, PartialEq, Eq, Structural)]
pub struct Marker {
    pub center: Vec3,
    pub normal: Vec3,
    pub radius: i32,
    pub color: Color,
}

/// The colour that shows a toggle value: white by default, a warm red when
/// highlighted.
pub open spec fn color_spec(state: ToggleState) -> Color {
    match state {
        ToggleState::Default => Color { red: 1000, green: 1000, blue: 1000 },
        ToggleState::Highlighted => Color { red: 1000, green: 300, blue: 300 },
    }
}

/// The marker's centre for a contact point: lifted off the surface by
/// `SURFACE_OFFSET` along the normal.
pub open spec fn lifted(contact: Vec3, normal: Vec3) -> Vec3 {
    saturate(contact@.plus(normal@.scaled(SURFACE_OFFSET as int)))
}

/// The marker for a contact point, if there is one.
pub open spec fn marker_spec(contact: Option<Vec3>, normal: Vec3, state: ToggleState) -> Option<
    Marker,
> {
    match contact {
        Some(point) => Some(
            Marker {
                center: lifted(point, normal),
                normal,
                radius: MARKER_RADIUS,
                color: color_spec(state),
            },
        ),
        None => None,
    }
}

/// The colour that shows `state`.
pub fn color_for(state: ToggleState) -> (color: Color)
    ensures
        color == color_spec(state),
{
    match state {
        ToggleState::Default => Color { red: 1000, green: 1000, blue: 1000 },
        ToggleState::Highlighted => Color { red: 1000, green: 300, blue: 300 },
    }
}

/// What to draw for a frame's contact point: nothing where there is none,
/// else a circle of radius `MARKER_RADIUS` in the colour of `state`, lying
/// `SURFACE_OFFSET` above the contact point and facing along the plane's
/// normal.
pub fn place_marker(contact: Option<Vec3>, normal: &Vec3, state: ToggleState) -> (drawn: Option<
    Marker,
>)
    ensures
        contact is None <==> drawn is None,
        drawn == marker_spec(contact, *normal, state),
{
    match contact {
        Some(point) => {
            let above = Ray { origin: point, direction: *normal };
            Some(
                Marker {
                    center: point_at(&above, SURFACE_OFFSET as i128),
                    normal: *normal,
                    radius: MARKER_RADIUS,
                    color: color_for(state),
                },
            )
        },
        None => None,
    }
}

} // verus!
