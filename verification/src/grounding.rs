//! The grounding state machine: a per-entity boolean "standing on a
//! supporting surface", driven purely by the physics engine's
//! contact-begin and contact-end events. An entity touching two supports
//! that separately end contact reports airborne as soon as either contact
//! ends: the predicate is a boolean, not a counter, a simplification kept
//! for compatibility with the behaviour this runtime mirrors.

use vstd::pervasive::VecAdditionalExecFns;
use vstd::prelude::*;

use crate::interpreter::RuntimeEntity;

verus! {

/// The entity carries this tag.
pub open spec fn has_tag(e: RuntimeEntity, t: Seq<char>) -> bool {
    exists|i: int| 0 <= i < e.tags@.len() && (#[trigger] e.tags@[i])@ == t
}

/// A supporting surface: an entity tagged `ground` or `platform`.
pub open spec fn is_support(e: RuntimeEntity) -> bool {
    has_tag(e, "ground"@) || has_tag(e, "platform"@)
}

/// The contact pair `(a, b)` changes the grounding of entity `i`: `i` is
/// one side of the pair, is player-controlled, and the other side is a
/// supporting surface. Either pairing order counts; a pair naming an
/// entity that does not exist changes nothing.
pub open spec fn grounds(s: Seq<RuntimeEntity>, a: int, b: int, i: int) -> bool {
    &&& 0 <= a < s.len()
    &&& 0 <= b < s.len()
    &&& ((i == a && s[a].has_input && is_support(s[b])) || (i == b && s[b].has_input && is_support(
        s[a],
    )))
}

/// `e` with its grounding flag set to `g`.
pub open spec fn with_grounded(e: RuntimeEntity, g: bool) -> RuntimeEntity {
    RuntimeEntity { is_grounded: g, ..e }
}

/// The entity list after the contact pair `(a, b)` began (`began` true) or
/// ended (`began` false): the grounding flag of each affected player
/// entity set accordingly, everything else untouched.
pub open spec fn contacted(s: Seq<RuntimeEntity>, a: int, b: int, began: bool) -> Seq<
    RuntimeEntity,
> {
    Seq::new(
        s.len(),
        |i: int|
            if grounds(s, a, b, i) {
                with_grounded(s[i], began)
            } else {
                s[i]
            },
    )
}

/// A placeholder entity, used only to swap a real entity out of the list
/// while a field of it is rewritten.
pub(crate) fn blank_entity() -> RuntimeEntity {
    RuntimeEntity {
        name: String::new(),
        x: 0,
        y: 0,
        rotation: 0,
        width: 0,
        height: 0,
        color: String::new(),
        has_input: false,
        move_speed: 0,
        jump_force: 0,
        tags: Vec::new(),
        is_grounded: false,
        body: None,
    }
}

/// Sets the grounding flag of entity `i`, leaving every other field and
/// every other entity untouched.
pub(crate) fn set_grounded(entities: &mut Vec<RuntimeEntity>, i: usize, g: bool)
    requires
        i < old(entities)@.len(),
    ensures
        final(entities)@ == old(entities)@.update(
            i as int,
            with_grounded(old(entities)@[i as int], g),
        ),
{
    let mut e = blank_entity();
    entities.set_and_swap(i, &mut e);
    e.is_grounded = g;
    entities.set_and_swap(i, &mut e);
    proof {
        assert(entities@ =~= old(entities)@.update(
            i as int,
            with_grounded(old(entities)@[i as int], g),
        ));
    }
}

/// Whether the entity is tagged as a supporting surface.
pub fn entity_is_support(e: &RuntimeEntity) -> (r: bool)
    ensures
        r == is_support(*e),
{
    let mut i: usize = 0;
    while i < e.tags.len()
        invariant
            i <= e.tags@.len(),
            forall|t: int|
                0 <= t < i ==> (#[trigger] e.tags@[t])@ != "ground"@ && e.tags@[t]@ != "platform"@,
        decreases e.tags@.len() - i,
    {
        let tag = e.tags[i].as_str();
        if crate::strutil::str_eq(tag, "ground") || crate::strutil::str_eq(tag, "platform") {
            return true;
        }
        i = i + 1;
    }
    false
}

/// Applies one contact event to the entity list: for each side of the pair
/// that is a player entity touching a supporting surface, the grounding
/// flag becomes `began`. Out-of-range indices change nothing.
pub(crate) fn apply_contact(entities: &mut Vec<RuntimeEntity>, a: usize, b: usize, began: bool)
    ensures
        final(entities)@ == contacted(old(entities)@, a as int, b as int, began),
{
    let ghost s0 = entities@;
    let n = entities.len();
    if a >= n || b >= n {
        proof {
            assert(entities@ =~= contacted(s0, a as int, b as int, began));
        }
        return ;
    }
    let a_affected = entities[a].has_input && entity_is_support(&entities[b]);
    let b_affected = entities[b].has_input && entity_is_support(&entities[a]);
    if a_affected {
        set_grounded(entities, a, began);
    }
    if b_affected {
        set_grounded(entities, b, began);
    }
    proof {
        assert(entities@ =~= contacted(s0, a as int, b as int, began));
    }
}

} // verus!
