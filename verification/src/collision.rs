//! Axis-aligned bounding-box collision detection.
//!
//! Rectangles are given as a center and a full width/height. The detector
//! reports whether two rectangles overlap and, if they do, which edge of the
//! *subject* (first) rectangle the other rectangle's overlap resolves to:
//! the side whose penetration depth is shallowest, with left/right told
//! apart by the sign of the horizontal offset and top/bottom by the sign of
//! the vertical offset. Touching edges (zero penetration) do not count as an
//! overlap, and an overlap in which one rectangle sticks out past the other
//! on neither side of an axis (containment) names no edge on that axis; if
//! neither axis names an edge, no collision is reported, since the
//! reflection policy would have no side to answer.

use vstd::prelude::*;

use crate::direction::Vec2;

verus! {

/// Largest coordinate magnitude and size the detector accepts; within it,
/// every half-extent sum and penetration depth fits in an `i64`.
pub const COORD_LIMIT: i64 = 4_000_000_000_000_000;

/// The edge of the subject rectangle that an overlap resolves to.
#[derive(Clone, Copy, Debug, PartialEq, Eq, Structural)]
pub enum Collision {
    Left,
    Right,
    Top,
    Bottom,
}

/// What the detector returns: which edge of the subject rectangle (centered
/// at `a_pos`, of full size `a_size`) the other rectangle (`b_pos`,
/// `b_size`) penetrates, if they overlap at all.
pub open spec fn spec_collide(a_pos: Vec2, a_size: Vec2, b_pos: Vec2, b_size: Vec2) -> Option<
    Collision,
> {
    let a_min_x = a_pos.x - a_size.x / 2;
    let a_max_x = a_pos.x + a_size.x / 2;
    let a_min_y = a_pos.y - a_size.y / 2;
    let a_max_y = a_pos.y + a_size.y / 2;
    let b_min_x = b_pos.x - b_size.x / 2;
    let b_max_x = b_pos.x + b_size.x / 2;
    let b_min_y = b_pos.y - b_size.y / 2;
    let b_max_y = b_pos.y + b_size.y / 2;
    if a_min_x < b_max_x && a_max_x > b_min_x && a_min_y < b_max_y && a_max_y > b_min_y {
        // the other rectangle straddles exactly one vertical edge of the
        // subject, or neither (when one contains the other on that axis)
        let x_edge: Option<Collision> = if b_min_x > a_min_x && b_min_x < a_max_x && b_max_x
            > a_max_x {
            Some(Collision::Right)
        } else if b_max_x > a_min_x && b_max_x < a_max_x && b_min_x < a_min_x {
            Some(Collision::Left)
        } else {
            None
        };
        let y_edge: Option<Collision> = if b_min_y > a_min_y && b_min_y < a_max_y && b_max_y
            > a_max_y {
            Some(Collision::Top)
        } else if b_max_y > a_min_y && b_max_y < a_max_y && b_min_y < a_min_y {
            Some(Collision::Bottom)
        } else {
            None
        };
        let x_depth = if b_min_x > a_min_x {
            a_max_x - b_min_x
        } else {
            b_max_x - a_min_x
        };
        let y_depth = if b_min_y > a_min_y {
            a_max_y - b_min_y
        } else {
            b_max_y - a_min_y
        };
        match (x_edge, y_edge) {
            (Some(xc), Some(yc)) => if y_depth < x_depth {
                Some(yc)
            } else {
                Some(xc)
            },
            (Some(xc), None) => Some(xc),
            (None, Some(yc)) => Some(yc),
            (None, None) => None,
        }
    } else {
        None
    }
}

/// Test two rectangles for overlap; on overlap, name the edge of the
/// subject rectangle (the first one) penetrated most shallowly.
pub fn collide(a_pos: Vec2, a_size: Vec2, b_pos: Vec2, b_size: Vec2) -> (r: Option<Collision>)
    requires
        -COORD_LIMIT <= a_pos.x <= COORD_LIMIT,
        -COORD_LIMIT <= a_pos.y <= COORD_LIMIT,
        -COORD_LIMIT <= b_pos.x <= COORD_LIMIT,
        -COORD_LIMIT <= b_pos.y <= COORD_LIMIT,
        0 < a_size.x <= COORD_LIMIT,
        0 < a_size.y <= COORD_LIMIT,
        0 < b_size.x <= COORD_LIMIT,
        0 < b_size.y <= COORD_LIMIT,
    ensures
        r == spec_collide(a_pos, a_size, b_pos, b_size),
{
    let a_min_x = a_pos.x - a_size.x / 2;
    let a_max_x = a_pos.x + a_size.x / 2;
    let a_min_y = a_pos.y - a_size.y / 2;
    let a_max_y = a_pos.y + a_size.y / 2;
    let b_min_x = b_pos.x - b_size.x / 2;
    let b_max_x = b_pos.x + b_size.x / 2;
    let b_min_y = b_pos.y - b_size.y / 2;
    let b_max_y = b_pos.y + b_size.y / 2;
    if a_min_x < b_max_x && a_max_x > b_min_x && a_min_y < b_max_y && a_max_y > b_min_y {
        let x_edge: Option<Collision> = if b_min_x > a_min_x && b_min_x < a_max_x && b_max_x
            > a_max_x {
            Some(Collision::Right)
        } else if b_max_x > a_min_x && b_max_x < a_max_x && b_min_x < a_min_x {
            Some(Collision::Left)
        } else {
            None
        };
        let y_edge: Option<Collision> = if b_min_y > a_min_y && b_min_y < a_max_y && b_max_y
            > a_max_y {
            Some(Collision::Top)
        } else if b_max_y > a_min_y && b_max_y < a_max_y && b_min_y < a_min_y {
            Some(Collision::Bottom)
        } else {
            None
        };
        let x_depth = if b_min_x > a_min_x {
            a_max_x - b_min_x
        } else {
            b_max_x - a_min_x
        };
        let y_depth = if b_min_y > a_min_y {
            a_max_y - b_min_y
        } else {
            b_max_y - a_min_y
        };
        match (x_edge, y_edge) {
            (Some(xc), Some(yc)) => if y_depth < x_depth {
                Some(yc)
            } else {
                Some(xc)
            },
            (Some(xc), None) => Some(xc),
            (None, Some(yc)) => Some(yc),
            (None, None) => None,
        }
    } else {
        None
    }
}

} // verus!
