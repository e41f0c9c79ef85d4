//! The renderer: a pure function of the current entity list. A frame
//! clears the surface to a fixed background color and draws one filled,
//! rotated rectangle per entity, centered at the entity's position. It has
//! no state of its own, so it is safe to call while paused — that is how
//! the initial or reset frame is shown before playback starts.

use vstd::prelude::*;
use vstd::string::StringExecFns;

use crate::interpreter::RuntimeEntity;
use crate::runtime::Runtime;

verus! {

/// One rectangle to draw: the entity's pose, size and resolved color.
pub struct DrawRect {
    pub x: i64,
    pub y: i64,
    pub width: u32,
    pub height: u32,
    pub rotation: i64,
    /// Fill color: six lowercase hexadecimal digits.
    pub color: String,
}

/// A complete frame: the clear color, then the rectangles in entity order.
pub struct Frame {
    /// Background color: six lowercase hexadecimal digits.
    pub background: String,
    pub rects: Vec<DrawRect>,
}

/// The fixed background color a frame clears to: a dark neutral gray.
pub open spec fn background_color() -> Seq<char> {
    "202020"@
}

/// The rectangle an entity draws as.
pub open spec fn rect_of(e: RuntimeEntity) -> DrawRect {
    DrawRect {
        x: e.x,
        y: e.y,
        width: e.width,
        height: e.height,
        rotation: e.rotation,
        color: e.color,
    }
}

/// The rectangles of a frame: one per entity, in order.
pub open spec fn frame_rects(s: Seq<RuntimeEntity>) -> Seq<DrawRect> {
    s.map_values(|e: RuntimeEntity| rect_of(e))
}

/// `f` is the frame that entity list `s` renders as: the fixed background
/// and exactly the entities' rectangles. Rendering is a pure function of
/// the entity list, so this pins the frame completely.
pub open spec fn frame_matches(f: Frame, s: Seq<RuntimeEntity>) -> bool {
    &&& f.background@ == background_color()
    &&& f.rects@ == frame_rects(s)
}

/// Renders an entity list into a frame.
pub fn render_entities(entities: &Vec<RuntimeEntity>) -> (f: Frame)
    ensures
        frame_matches(f, entities@),
{
    let mut rects: Vec<DrawRect> = Vec::new();
    let mut i: usize = 0;
    while i < entities.len()
        invariant
            i <= entities@.len(),
            rects@ == frame_rects(entities@.take(i as int)),
        decreases entities@.len() - i,
    {
        let e = &entities[i];
        rects.push(
            DrawRect {
                x: e.x,
                y: e.y,
                width: e.width,
                height: e.height,
                rotation: e.rotation,
                color: e.color.clone(),
            },
        );
        proof {
            assert(rects@ =~= frame_rects(entities@.take(i + 1)));
        }
        i = i + 1;
    }
    proof {
        assert(entities@.take(entities@.len() as int) =~= entities@);
    }
    Frame { background: String::from_str("202020"), rects }
}

impl Runtime {
    /// Draws the current entity list. Pure: the frame is a function of the
    /// entity list alone, and the runtime is untouched.
    pub fn render(&self) -> (f: Frame)
        ensures
            frame_matches(f, self@.entities),
    {
        render_entities(self.entities())
    }
}

} // verus!
