//! The declarative scene description: global configuration plus an ordered
//! list of entity descriptions, each an optional-component bag.
//!
//! Continuous quantities (positions, velocities, forces) are integers in
//! engine units; times are integer milliseconds. A sprite tint is a packed
//! `0xRRGGBB` value.

use vstd::prelude::*;

verus! {

/// Global configuration: the gravity vector, in engine units per second
/// squared (screen coordinates, so positive `y` points down).
#[derive(Clone, Copy)]
pub struct Config {
    pub gravity_x: i64,
    pub gravity_y: i64,
}

/// Placement of an entity: position, rotation and scale. Absent fields
/// resolve to the defaults during scene interpretation (position and
/// rotation zero, scale one).
#[derive(Clone, Copy)]
pub struct TransformSpec {
    pub x: Option<i64>,
    pub y: Option<i64>,
    pub rotation: Option<i64>,
    pub scale_x: Option<i64>,
    pub scale_y: Option<i64>,
}

/// Appearance of an entity: texture name, size, and a packed `0xRRGGBB`
/// tint used as the entity's display color. Absent fields resolve to the
/// defaults during scene interpretation (32 by 32, mid-gray).
pub struct SpriteSpec {
    pub texture: Option<String>,
    pub width: Option<u32>,
    pub height: Option<u32>,
    pub tint: Option<u32>,
}

/// Initial velocity. Presence of this component marks the entity dynamic.
#[derive(Clone, Copy)]
pub struct VelocitySpec {
    pub vx: i64,
    pub vy: i64,
}

/// Collision volume. The physics body is a rectangle sized from the
/// explicit dimensions here or, absent those, from the sprite.
pub struct ColliderSpec {
    pub shape: String,
    pub width: Option<u32>,
    pub height: Option<u32>,
}

/// Player control parameters. Presence of this component marks the entity
/// player-controlled. `move_speed` is a horizontal speed magnitude;
/// `jump_force` is a vertical velocity, negative meaning upward in screen
/// coordinates. Absent fields resolve to the defaults during scene
/// interpretation (speed 200, jump force -400).
#[derive(Clone, Copy)]
pub struct InputSpec {
    pub move_speed: Option<u32>,
    pub jump_force: Option<i64>,
}

/// Declared behavior parameters for a future behavior system. Carried
/// through unchanged; nothing in this runtime simulates it.
pub struct AiBehaviorSpec {
    pub kind: String,
    pub speed: Option<i64>,
    pub detection_radius: Option<u32>,
}

/// One entity description: a unique name, a set of tags, and the
/// optional components. Unknown components of a source document are not
/// represented here: the host ignores them when it builds this value.
pub struct EntitySpec {
    pub name: String,
    pub tags: Vec<String>,
    pub transform: Option<TransformSpec>,
    pub sprite: Option<SpriteSpec>,
    pub velocity: Option<VelocitySpec>,
    pub collider: Option<ColliderSpec>,
    pub input: Option<InputSpec>,
    pub ai_behavior: Option<AiBehaviorSpec>,
}

/// A whole scene description: configuration plus the ordered entity list.
pub struct GameSpec {
    pub config: Config,
    pub entities: Vec<EntitySpec>,
}

impl EntitySpec {
    /// Whether two entity descriptions carry the same name.
    pub open spec fn same_name(self, other: EntitySpec) -> bool {
        self.name@ == other.name@
    }
}

/// Entity names must be unique within a spec: they are the cross-reference
/// keys under which physics bodies are registered.
pub open spec fn names_unique(s: Seq<EntitySpec>) -> bool {
    forall|i: int, j: int| 0 <= i < j < s.len() ==> !s[i].same_name(s[j])
}

/// There is an entity earlier in the list with the same name as `s[i]`.
pub open spec fn dup_at(s: Seq<EntitySpec>, i: int) -> bool {
    exists|j: int| 0 <= j < i && s[j].same_name(s[i])
}

/// Uniqueness is exactly the absence of a duplicate at every position.
pub proof fn lemma_names_unique_iff_no_dup(s: Seq<EntitySpec>)
    ensures
        names_unique(s) <==> (forall|i: int| 0 <= i < s.len() ==> !dup_at(s, i)),
{
    if names_unique(s) {
        assert forall|i: int| 0 <= i < s.len() implies !dup_at(s, i) by {
            if dup_at(s, i) {
                let j = choose|j: int| 0 <= j < i && s[j].same_name(s[i]);
                assert(!s[j].same_name(s[i]));
            }
        }
    }
    if forall|i: int| 0 <= i < s.len() ==> !dup_at(s, i) {
        assert forall|i: int, j: int| 0 <= i < j < s.len() implies !s[i].same_name(s[j]) by {
            assert(!dup_at(s, j));
        }
    }
}

} // verus!
