//! The scene interpreter: converts a declarative [`GameSpec`] into the
//! ordered list of runtime entities and the physics-body definitions the
//! host must create, resolving absent fields to their defaults. This is the
//! single rebuild point used by both the initial load and every reset.

use vstd::prelude::*;
use vstd::string::{is_ascii, StrSliceExecFns, StringExecFns};

use crate::model::{dup_at, names_unique, EntitySpec, GameSpec};

verus! {

/// Default sprite width and height, in engine units.
pub const DEFAULT_SPRITE_SIZE: u32 = 32;

/// Default sprite tint: mid-gray.
pub const DEFAULT_TINT: u32 = 0x808080;

/// Default horizontal move speed for player-controlled entities.
pub const DEFAULT_MOVE_SPEED: u32 = 200;

/// Default jump velocity; negative is upward in screen coordinates.
pub const DEFAULT_JUMP_FORCE: i64 = -400;

/// A live, render-facing mirror of one entity: the resolved display fields
/// plus the derived simulation state. The physics body (when there is one)
/// is the authority for `x`, `y` and `rotation` while the simulation runs;
/// these fields are a per-frame cache used for rendering.
pub struct RuntimeEntity {
    pub name: String,
    pub x: i64,
    pub y: i64,
    pub rotation: i64,
    pub width: u32,
    pub height: u32,
    /// Resolved display color: six lowercase hexadecimal digits.
    pub color: String,
    pub has_input: bool,
    pub move_speed: u32,
    pub jump_force: i64,
    pub tags: Vec<String>,
    pub is_grounded: bool,
    /// Index of this entity's body definition, when it declared a collider.
    pub body: Option<usize>,
}

/// What the host must create in its physics engine for one
/// collider-bearing entity: a rectangle body, labelled with the entity's
/// index so contact events can be routed back.
#[derive(Clone, Copy)]
pub struct BodyDef {
    /// Index of the owning entity in the runtime entity list.
    pub entity: usize,
    pub x: i64,
    pub y: i64,
    pub width: u32,
    pub height: u32,
    /// A body is static exactly when its entity declared neither a
    /// `velocity` nor an `input` component.
    pub is_static: bool,
}

/// The result of interpreting a scene: the entity list and the body
/// registry, created together and torn down together.
pub struct Scene {
    pub entities: Vec<RuntimeEntity>,
    pub bodies: Vec<BodyDef>,
}

/// Why a load or reset was rejected. A failed load is fatal to that
/// attempt and leaves no partial scene behind.
#[derive(Clone, Copy, PartialEq, Eq, Structural, Debug)]
pub enum LoadError {
    /// The entity at `index` carries the same name as an earlier entity.
    DuplicateName { index: usize },
}

/// One lowercase hexadecimal digit.
pub open spec fn hex_digit(d: int) -> char {
    "0123456789abcdef"@[d]
}

/// A value below `0x1000000` written as exactly six lowercase
/// hexadecimal digits.
pub open spec fn hex6(n: int) -> Seq<char> {
    seq![
        hex_digit(n / 0x100000 % 16),
        hex_digit(n / 0x10000 % 16),
        hex_digit(n / 0x1000 % 16),
        hex_digit(n / 0x100 % 16),
        hex_digit(n / 0x10 % 16),
        hex_digit(n % 16),
    ]
}

/// Appends the hexadecimal digit for `d` to `s`.
fn push_hex_digit(s: &mut String, d: usize)
    requires
        d < 16,
    ensures
        final(s)@ == old(s)@.push(hex_digit(d as int)),
{
    let digits = "0123456789abcdef";
    proof {
        reveal_strlit("0123456789abcdef");
        assert(is_ascii(digits));
    }
    s.append(digits.substring_ascii(d, d + 1));
    proof {
        assert(old(s)@ + digits@.subrange(d as int, d as int + 1) =~= old(s)@.push(
            hex_digit(d as int),
        ));
    }
}

/// Formats `n` as exactly six lowercase hexadecimal digits.
pub fn format_hex6(n: u32) -> (r: String)
    requires
        n < 0x1000000,
    ensures
        r@ == hex6(n as int),
{
    let mut s = String::new();
    push_hex_digit(&mut s, ((n / 0x100000) % 16) as usize);
    push_hex_digit(&mut s, ((n / 0x10000) % 16) as usize);
    push_hex_digit(&mut s, ((n / 0x1000) % 16) as usize);
    push_hex_digit(&mut s, ((n / 0x100) % 16) as usize);
    push_hex_digit(&mut s, ((n / 0x10) % 16) as usize);
    push_hex_digit(&mut s, (n % 16) as usize);
    proof {
        assert(s@ =~= hex6(n as int));
    }
    s
}

/// Resolved horizontal position: the transform's, or zero.
pub open spec fn resolved_x(es: EntitySpec) -> i64 {
    match es.transform {
        Some(t) => t.x.unwrap_or(0),
        None => 0,
    }
}

/// Resolved vertical position: the transform's, or zero.
pub open spec fn resolved_y(es: EntitySpec) -> i64 {
    match es.transform {
        Some(t) => t.y.unwrap_or(0),
        None => 0,
    }
}

/// Resolved rotation: the transform's, or zero.
pub open spec fn resolved_rotation(es: EntitySpec) -> i64 {
    match es.transform {
        Some(t) => t.rotation.unwrap_or(0),
        None => 0,
    }
}

/// Resolved display width: the sprite's, or the default size.
pub open spec fn resolved_width(es: EntitySpec) -> u32 {
    match es.sprite {
        Some(sp) => sp.width.unwrap_or(DEFAULT_SPRITE_SIZE),
        None => DEFAULT_SPRITE_SIZE,
    }
}

/// Resolved display height: the sprite's, or the default size.
pub open spec fn resolved_height(es: EntitySpec) -> u32 {
    match es.sprite {
        Some(sp) => sp.height.unwrap_or(DEFAULT_SPRITE_SIZE),
        None => DEFAULT_SPRITE_SIZE,
    }
}

/// Resolved tint, reduced to its low 24 bits.
pub open spec fn resolved_tint(es: EntitySpec) -> u32 {
    (match es.sprite {
        Some(sp) => sp.tint.unwrap_or(DEFAULT_TINT),
        None => DEFAULT_TINT,
    }) % 0x1000000
}

/// Resolved move speed: the input component's, or the default. Only
/// meaningful for entities that declare `input`.
pub open spec fn resolved_move_speed(es: EntitySpec) -> u32 {
    match es.input {
        Some(inp) => inp.move_speed.unwrap_or(DEFAULT_MOVE_SPEED),
        None => DEFAULT_MOVE_SPEED,
    }
}

/// Resolved jump force: the input component's, or the default. Only
/// meaningful for entities that declare `input`.
pub open spec fn resolved_jump_force(es: EntitySpec) -> i64 {
    match es.input {
        Some(inp) => inp.jump_force.unwrap_or(DEFAULT_JUMP_FORCE),
        None => DEFAULT_JUMP_FORCE,
    }
}

/// Body width: the collider's explicit width, or the sprite's.
pub open spec fn body_width(es: EntitySpec) -> u32 {
    match es.collider {
        Some(c) => c.width.unwrap_or(resolved_width(es)),
        None => resolved_width(es),
    }
}

/// Body height: the collider's explicit height, or the sprite's.
pub open spec fn body_height(es: EntitySpec) -> u32 {
    match es.collider {
        Some(c) => c.height.unwrap_or(resolved_height(es)),
        None => resolved_height(es),
    }
}

/// A body is static exactly when the entity declared neither `velocity`
/// nor `input`.
pub open spec fn body_is_static(es: EntitySpec) -> bool {
    es.velocity is None && es.input is None
}

/// How many of the first `upto` entity descriptions declare a collider:
/// the body slot assigned to the next collider-bearing entity.
pub open spec fn body_count(s: Seq<EntitySpec>, upto: int) -> int
    decreases upto,
{
    if upto <= 0 {
        0
    } else {
        body_count(s, upto - 1) + if s[upto - 1].collider is Some {
            1int
        } else {
            0int
        }
    }
}

/// The body slot of entity `i`: its body-count prefix when it declares a
/// collider, and no slot otherwise.
pub open spec fn slot_of(s: Seq<EntitySpec>, i: int) -> Option<usize> {
    if s[i].collider is Some {
        Some(body_count(s, i) as usize)
    } else {
        None
    }
}

pub proof fn lemma_body_count_bounds(s: Seq<EntitySpec>, upto: int)
    requires
        0 <= upto,
    ensures
        0 <= body_count(s, upto) <= upto,
    decreases upto,
{
    if upto > 0 {
        lemma_body_count_bounds(s, upto - 1);
    }
}

pub proof fn lemma_body_count_mono(s: Seq<EntitySpec>, a: int, b: int)
    requires
        0 <= a <= b,
    ensures
        body_count(s, a) <= body_count(s, b),
        a < b && s[a].collider is Some ==> body_count(s, a) < body_count(s, b),
    decreases b - a,
{
    if a < b {
        lemma_body_count_mono(s, a + 1, b);
    }
}

/// The runtime entity `e` mirrors the description `es`: every display
/// field resolved with its default, the derived control fields, the tags
/// carried through, `is_grounded` initially false, and the given body slot.
pub open spec fn entity_mirrors(e: RuntimeEntity, es: EntitySpec, slot: Option<usize>) -> bool {
    &&& e.name == es.name
    &&& e.x == resolved_x(es)
    &&& e.y == resolved_y(es)
    &&& e.rotation == resolved_rotation(es)
    &&& e.width == resolved_width(es)
    &&& e.height == resolved_height(es)
    &&& e.color@ == hex6(resolved_tint(es) as int)
    &&& e.has_input == (es.input is Some)
    &&& e.move_speed == resolved_move_speed(es)
    &&& e.jump_force == resolved_jump_force(es)
    &&& e.tags@ == es.tags@
    &&& !e.is_grounded
    &&& e.body == slot
}

/// The body definition `b` is the one entity `i` (described by `es`)
/// calls for: positioned at the entity's transform, sized from the
/// collider or the sprite, static exactly when the entity is passive.
pub open spec fn body_def_matches(b: BodyDef, es: EntitySpec, i: int) -> bool {
    &&& b.entity == i
    &&& b.x == resolved_x(es)
    &&& b.y == resolved_y(es)
    &&& b.width == body_width(es)
    &&& b.height == body_height(es)
    &&& b.is_static == body_is_static(es)
}

/// Body slot `k` is registered to a collider-bearing entity whose slot is
/// `k`: the registry holds an entry exactly for the entities that declare
/// a collider.
pub open spec fn body_registered(b: BodyDef, s: Seq<EntitySpec>, k: int) -> bool {
    &&& b.entity < s.len()
    &&& s[b.entity as int].collider is Some
    &&& body_count(s, b.entity as int) == k
}

/// The interpreted scene mirrors the description: entity for entity in
/// order, with a body definition exactly for each collider-bearing entity,
/// in spec order.
pub open spec fn scene_mirrors(
    entities: Seq<RuntimeEntity>,
    bodies: Seq<BodyDef>,
    g: GameSpec,
) -> bool {
    &&& entities.len() == g.entities@.len()
    &&& forall|i: int|
        0 <= i < entities.len() ==> entity_mirrors(
            #[trigger] entities[i],
            g.entities@[i],
            slot_of(g.entities@, i),
        )
    &&& bodies.len() == body_count(g.entities@, g.entities@.len() as int)
    &&& forall|i: int|
        0 <= i < g.entities@.len() && (#[trigger] g.entities@[i]).collider is Some
            ==> body_def_matches(bodies[body_count(g.entities@, i)], g.entities@[i], i)
    &&& forall|k: int| 0 <= k < bodies.len() ==> body_registered(#[trigger] bodies[k], g.entities@, k)
}

/// Clones a tag list element for element.
fn clone_tags(v: &Vec<String>) -> (r: Vec<String>)
    ensures
        r@ == v@,
{
    let mut r: Vec<String> = Vec::new();
    let mut i: usize = 0;
    while i < v.len()
        invariant
            i <= v@.len(),
            r@ == v@.take(i as int),
        decreases v@.len() - i,
    {
        r.push(v[i].clone());
        proof {
            assert(v@.take(i as int).push(v@[i as int]) =~= v@.take(i + 1));
        }
        i = i + 1;
    }
    proof {
        assert(v@.take(v@.len() as int) =~= v@);
    }
    r
}

/// Interprets a scene description. For each entity description, in order:
/// resolves the display and control fields with their defaults, carries
/// the tags through, starts the entity airborne, and — when a collider is
/// declared — emits a rectangle body definition, static exactly when the
/// entity declares neither `velocity` nor `input`. Rejects a description
/// whose entity names are not unique, naming the first offender; a
/// rejected load produces no scene at all.
pub fn interpret(game: &GameSpec) -> (r: Result<Scene, LoadError>)
    ensures
        r is Ok <==> names_unique(game.entities@),
        r matches Ok(sc) ==> scene_mirrors(sc.entities@, sc.bodies@, *game),
        r matches Err(LoadError::DuplicateName { index }) ==> {
            &&& dup_at(game.entities@, index as int)
            &&& forall|i: int| 0 <= i < index ==> !dup_at(game.entities@, i)
        },
{
    let n = game.entities.len();
    let mut i: usize = 0;
    while i < n
        invariant
            i <= n,
            n == game.entities@.len(),
            forall|t: int| 0 <= t < i ==> !dup_at(game.entities@, t),
        decreases n - i,
    {
        let mut j: usize = 0;
        while j < i
            invariant
                j <= i < n,
                n == game.entities@.len(),
                forall|t: int| 0 <= t < i ==> !dup_at(game.entities@, t),
                forall|q: int|
                    0 <= q < j ==> !game.entities@[q].same_name(game.entities@[i as int]),
            decreases i - j,
        {
            if crate::strutil::str_eq(game.entities[j].name.as_str(), game.entities[i].name.as_str()) {
                proof {
                    assert(game.entities@[j as int].same_name(game.entities@[i as int]));
                    assert(dup_at(game.entities@, i as int));
                    crate::model::lemma_names_unique_iff_no_dup(game.entities@);
                }
                return Err(LoadError::DuplicateName { index: i });
            }
            j = j + 1;
        }
        i = i + 1;
    }
    proof {
        crate::model::lemma_names_unique_iff_no_dup(game.entities@);
    }
    let ghost sv = game.entities@;
    let mut entities: Vec<RuntimeEntity> = Vec::new();
    let mut bodies: Vec<BodyDef> = Vec::new();
    let mut i: usize = 0;
    while i < n
        invariant
            i <= n,
            n == sv.len(),
            sv == game.entities@,
            entities@.len() == i,
            bodies@.len() == body_count(sv, i as int),
            forall|t: int|
                0 <= t < i ==> entity_mirrors(#[trigger] entities@[t], sv[t], slot_of(sv, t)),
            forall|t: int|
                0 <= t < i && (#[trigger] sv[t]).collider is Some ==> body_def_matches(
                    bodies@[body_count(sv, t)],
                    sv[t],
                    t,
                ),
            forall|k: int| 0 <= k < bodies@.len() ==> body_registered(#[trigger] bodies@[k], sv, k),
        decreases n - i,
    {
        let es = &game.entities[i];
        let x = match &es.transform {
            Some(t) => t.x.unwrap_or(0),
            None => 0,
        };
        let y = match &es.transform {
            Some(t) => t.y.unwrap_or(0),
            None => 0,
        };
        let rotation = match &es.transform {
            Some(t) => t.rotation.unwrap_or(0),
            None => 0,
        };
        let width = match &es.sprite {
            Some(sp) => sp.width.unwrap_or(DEFAULT_SPRITE_SIZE),
            None => DEFAULT_SPRITE_SIZE,
        };
        let height = match &es.sprite {
            Some(sp) => sp.height.unwrap_or(DEFAULT_SPRITE_SIZE),
            None => DEFAULT_SPRITE_SIZE,
        };
        let tint = (match &es.sprite {
            Some(sp) => sp.tint.unwrap_or(DEFAULT_TINT),
            None => DEFAULT_TINT,
        }) % 0x1000000;
        let has_input = es.input.is_some();
        let move_speed = match &es.input {
            Some(inp) => inp.move_speed.unwrap_or(DEFAULT_MOVE_SPEED),
            None => DEFAULT_MOVE_SPEED,
        };
        let jump_force = match &es.input {
            Some(inp) => inp.jump_force.unwrap_or(DEFAULT_JUMP_FORCE),
            None => DEFAULT_JUMP_FORCE,
        };
        proof {
            lemma_body_count_bounds(sv, i as int);
        }
        let body = match &es.collider {
            Some(c) => {
                let bw = match c.width {
                    Some(w) => w,
                    None => width,
                };
                let bh = match c.height {
                    Some(h) => h,
                    None => height,
                };
                let is_static = es.velocity.is_none() && es.input.is_none();
                let slot = bodies.len();
                bodies.push(
                    BodyDef { entity: i, x, y, width: bw, height: bh, is_static },
                );
                Some(slot)
            },
            None => None,
        };
        entities.push(
            RuntimeEntity {
                name: es.name.clone(),
                x,
                y,
                rotation,
                width,
                height,
                color: format_hex6(tint),
                has_input,
                move_speed,
                jump_force,
                tags: clone_tags(&es.tags),
                is_grounded: false,
                body,
            },
        );
        proof {
            assert forall|t: int| 0 <= t < i + 1 && (#[trigger] sv[t]).collider is Some
                implies body_def_matches(bodies@[body_count(sv, t)], sv[t], t) by {
                lemma_body_count_bounds(sv, t);
                if t < i {
                    lemma_body_count_mono(sv, t + 1, i as int);
                }
            }
        }
        i = i + 1;
    }
    Ok(Scene { entities, bodies })
}

} // verus!
