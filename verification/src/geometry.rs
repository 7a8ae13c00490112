//! Where a strip along a screen edge lies: its size and its position, in
//! physical pixels.

use crate::edge::Edge;
use vstd::prelude::*;

verus! {

/// How thick a strip is, in pixels, whichever edge it lies along.
pub const STRIP_THICKNESS: i32 = 50;

/// The size of a window.
#[derive(Clone, Copy, Debug, PartialEq, Eq, Structural)]
pub struct Size {
    pub width: i32,
    pub height: i32,
}

/// The position of a window's top-left corner on the screen.
#[derive(Clone, Copy, Debug, PartialEq, Eq, Structural)]
pub struct Position {
    pub x: i32,
    pub y: i32,
}

/// A size together with a position: the frame a window is to take.
#[derive(Clone, Copy, Debug, PartialEq, Eq, Structural)]
pub struct Placement {
    pub size: Size,
    pub position: Position,
}

/// The size of the strip along `edge`: as high as the screen along its left
/// and right edges, as wide as the screen along its top and bottom edges.
pub open spec fn strip_size(edge: Edge, screen_width: i32, screen_height: i32) -> Size {
    match edge {
        Edge::Left | Edge::Right => Size { width: STRIP_THICKNESS, height: screen_height },
        Edge::Top | Edge::Bottom => Size { width: screen_width, height: STRIP_THICKNESS },
    }
}

/// The corner of the strip along `edge`: the screen's origin for the left and
/// top edges; for the other two, one thickness short of the screen's far side.
pub open spec fn strip_position(edge: Edge, screen_width: i32, screen_height: i32) -> Position
    recommends
        screen_width > 0,
        screen_height > 0,
{
    match edge {
        Edge::Left | Edge::Top => Position { x: 0, y: 0 },
        Edge::Right => Position { x: (screen_width - STRIP_THICKNESS) as i32, y: 0 },
        Edge::Bottom => Position { x: 0, y: (screen_height - STRIP_THICKNESS) as i32 },
    }
}

/// The frame of the strip along `edge` on a screen of the given dimensions.
pub open spec fn strip(edge: Edge, screen_width: i32, screen_height: i32) -> Placement
    recommends
        screen_width > 0,
        screen_height > 0,
{
    Placement {
        size: strip_size(edge, screen_width, screen_height),
        position: strip_position(edge, screen_width, screen_height),
    }
}

/// On a screen of positive dimensions the strip has, as plain integers, the
/// width, height and corner that its edge calls for; nothing wraps around.
pub proof fn lemma_strip_frame(edge: Edge, screen_width: i32, screen_height: i32)
    requires
        screen_width > 0,
        screen_height > 0,
    ensures
        ({
            let frame = strip(edge, screen_width, screen_height);
            match edge {
                Edge::Left => {
                    &&& frame.size.width == 50
                    &&& frame.size.height == screen_height
                    &&& frame.position.x == 0
                    &&& frame.position.y == 0
                },
                Edge::Right => {
                    &&& frame.size.width == 50
                    &&& frame.size.height == screen_height
                    &&& frame.position.x == screen_width - 50
                    &&& frame.position.y == 0
                },
                Edge::Top => {
                    &&& frame.size.width == screen_width
                    &&& frame.size.height == 50
                    &&& frame.position.x == 0
                    &&& frame.position.y == 0
                },
                Edge::Bottom => {
                    &&& frame.size.width == screen_width
                    &&& frame.size.height == 50
                    &&& frame.position.x == 0
                    &&& frame.position.y == screen_height - 50
                },
            }
        }),
{
}

impl Placement {
    /// Computes the frame of the strip along `edge`.
    pub fn along(edge: Edge, screen_width: i32, screen_height: i32) -> (frame: Placement)
        requires
            screen_width > 0,
            screen_height > 0,
        ensures
            frame == strip(edge, screen_width, screen_height),
    {
        match edge {
            Edge::Left => Placement {
                size: Size { width: STRIP_THICKNESS, height: screen_height },
                position: Position { x: 0, y: 0 },
            },
            Edge::Right => Placement {
                size: Size { width: STRIP_THICKNESS, height: screen_height },
                position: Position { x: screen_width - STRIP_THICKNESS, y: 0 },
            },
            Edge::Top => Placement {
                size: Size { width: screen_width, height: STRIP_THICKNESS },
                position: Position { x: 0, y: 0 },
            },
            Edge::Bottom => Placement {
                size: Size { width: screen_width, height: STRIP_THICKNESS },
                position: Position { x: 0, y: screen_height - STRIP_THICKNESS },
            },
        }
    }
}

} // verus!
