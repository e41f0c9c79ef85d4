//! The runtime's guarantees that relate several operations, stated and
//! proved once over the same specifications the operations' own contracts
//! use.

use vstd::prelude::*;

use crate::grounding::{contacted, grounds, with_grounded};
use crate::input::InputState;
use crate::interpreter::{
    body_count, scene_mirrors, BodyDef, RuntimeEntity,
};
use crate::model::GameSpec;
use crate::render::{frame_matches, Frame};
use crate::runtime::{
    clamp_dt, command_for, driven, elapsed_since, sched_start, sched_tick, step_commands,
    stepped_entity, Phase, SchedState, MAX_STEP_MS,
};

verus! {

/// Rebuilding is idempotent: two scenes interpreted from the same
/// description — the initial load and any later reset — agree entity for
/// entity in count, name, initial pose and every other resolved field, and
/// carry identical body definitions.
pub proof fn lemma_rebuild_identical(
    e1: Seq<RuntimeEntity>,
    b1: Seq<BodyDef>,
    e2: Seq<RuntimeEntity>,
    b2: Seq<BodyDef>,
    g: GameSpec,
)
    requires
        scene_mirrors(e1, b1, g),
        scene_mirrors(e2, b2, g),
    ensures
        e1.len() == e2.len(),
        forall|i: int|
            0 <= i < e1.len() ==> {
                &&& (#[trigger] e1[i]).name@ == e2[i].name@
                &&& e1[i].x == e2[i].x
                &&& e1[i].y == e2[i].y
                &&& e1[i].rotation == e2[i].rotation
                &&& e1[i].width == e2[i].width
                &&& e1[i].height == e2[i].height
                &&& e1[i].color@ == e2[i].color@
                &&& e1[i].has_input == e2[i].has_input
                &&& e1[i].move_speed == e2[i].move_speed
                &&& e1[i].jump_force == e2[i].jump_force
                &&& e1[i].tags@ == e2[i].tags@
                &&& e1[i].is_grounded == e2[i].is_grounded
                &&& e1[i].body == e2[i].body
            },
        b1 == b2,
{
    let sv = g.entities@;
    assert forall|k: int| 0 <= k < b1.len() implies b1[k] == b2[k] by {
        let ea = b1[k].entity as int;
        let eb = b2[k].entity as int;
        if ea != eb {
            if ea < eb {
                crate::interpreter::lemma_body_count_mono(sv, ea + 1, eb);
            } else {
                crate::interpreter::lemma_body_count_mono(sv, eb + 1, ea);
            }
        }
    }
    assert(b1 =~= b2);
}

/// A scene starts with every entity airborne: grounding comes only from
/// contact events after the simulation starts.
pub proof fn lemma_loaded_airborne(e: Seq<RuntimeEntity>, b: Seq<BodyDef>, g: GameSpec)
    requires
        scene_mirrors(e, b, g),
    ensures
        forall|i: int| 0 <= i < e.len() ==> !(#[trigger] e[i]).is_grounded,
{
}

/// The body registry is exactly the collider-bearing entities: an entity
/// with a collider and neither `velocity` nor `input` gets a static body;
/// an entity without a collider has no slot, and no body entry names it.
pub proof fn lemma_collider_registry(e: Seq<RuntimeEntity>, b: Seq<BodyDef>, g: GameSpec)
    requires
        scene_mirrors(e, b, g),
    ensures
        forall|i: int|
            0 <= i < g.entities@.len() && (#[trigger] g.entities@[i]).collider is Some
                && g.entities@[i].velocity is None && g.entities@[i].input is None ==> b[body_count(
                g.entities@,
                i,
            )].is_static,
        forall|i: int|
            0 <= i < e.len() ==> ((#[trigger] e[i]).body is Some <==> g.entities@[i].collider
                is Some),
        forall|k: int|
            0 <= k < b.len() ==> g.entities@[(#[trigger] b[k]).entity as int].collider is Some,
{
}

/// A contact-begin grounds exactly the player entities of the pair that
/// touch a supporting surface; everything else is untouched. The matching
/// contact-end clears the same entities.
pub proof fn lemma_contact_transitions(s: Seq<RuntimeEntity>, a: int, b: int, i: int)
    requires
        0 <= i < s.len(),
    ensures
        grounds(s, a, b, i) ==> contacted(s, a, b, true)[i] == with_grounded(s[i], true),
        grounds(s, a, b, i) ==> contacted(s, a, b, false)[i] == with_grounded(s[i], false),
        !grounds(s, a, b, i) ==> contacted(s, a, b, true)[i] == s[i],
        !grounds(s, a, b, i) ==> contacted(s, a, b, false)[i] == s[i],
{
}

/// Jumping while airborne is inert: a player that is not grounded gets no
/// vertical velocity from the jump key, and stays airborne.
pub proof fn lemma_airborne_jump_inert(e: RuntimeEntity, inp: InputState)
    requires
        !e.is_grounded,
    ensures
        command_for(e, inp).vy is None,
        !stepped_entity(e, inp).is_grounded,
{
}

/// Jumping while grounded takes effect at once: the command sets the
/// vertical velocity to the entity's jump force, and the entity is
/// airborne immediately — before any contact-end event arrives.
pub proof fn lemma_grounded_jump(e: RuntimeEntity, inp: InputState)
    requires
        driven(e),
        e.is_grounded,
        inp.jump,
    ensures
        command_for(e, inp).vy == Some(e.jump_force),
        !stepped_entity(e, inp).is_grounded,
{
}

/// Move-right wins: holding both directions at once gives rightward
/// velocity of magnitude exactly the entity's move speed.
pub proof fn lemma_move_right_precedence(e: RuntimeEntity, inp: InputState)
    requires
        inp.left,
        inp.right,
    ensures
        command_for(e, inp).vx == e.move_speed as i64,
{
}

/// Every command a step issues names a body slot the registry really has:
/// a host may apply a plan without checking its indices.
pub proof fn lemma_step_commands_name_valid_bodies(
    s: Seq<RuntimeEntity>,
    inp: InputState,
    body_slots: int,
)
    requires
        forall|e: int|
            0 <= e < s.len() ==> match (#[trigger] s[e]).body {
                Some(k) => k < body_slots,
                None => true,
            },
    ensures
        forall|j: int|
            0 <= j < step_commands(s, inp).len() ==> (#[trigger] step_commands(s, inp)[j]).body
                < body_slots,
    decreases s.len(),
{
    if s.len() != 0 {
        let front = s.drop_last();
        lemma_step_commands_name_valid_bodies(front, inp, body_slots);
        assert forall|j: int|
            0 <= j < step_commands(s, inp).len() implies (#[trigger] step_commands(s, inp)[j]).body
            < body_slots by {
            if j < step_commands(front, inp).len() {
                assert(step_commands(s, inp)[j] == step_commands(front, inp)[j]);
            } else {
                assert(driven(s.last()));
                assert(step_commands(s, inp)[j] == command_for(s.last(), inp));
            }
        }
    }
}

/// No single step advances simulated time beyond the clamp, however long
/// the host stalled.
pub proof fn lemma_step_time_clamped(c: SchedState, now: u64)
    ensures
        match sched_tick(c, now).1 {
            Some(dt) => dt <= MAX_STEP_MS,
            None => true,
        },
{
}

/// The scheduler state and the total simulated time a sequence of ticks
/// advances.
pub open spec fn run_ticks(c: SchedState, ticks: Seq<u64>) -> (SchedState, int)
    decreases ticks.len(),
{
    if ticks.len() == 0 {
        (c, 0)
    } else {
        let first = sched_tick(c, ticks[0]);
        let rest = run_ticks(first.0, ticks.skip(1));
        (
            rest.0,
            (match first.1 {
                Some(dt) => dt as int,
                None => 0,
            }) + rest.1,
        )
    }
}

/// Pause stops time: however many scheduler ticks arrive while not
/// running, the state is unchanged and the total physics advancement is
/// zero.
pub proof fn lemma_paused_ticks_advance_nothing(c: SchedState, ticks: Seq<u64>)
    requires
        c.phase != Phase::Running,
    ensures
        run_ticks(c, ticks).0 == c,
        run_ticks(c, ticks).1 == 0,
    decreases ticks.len(),
{
    if ticks.len() != 0 {
        lemma_paused_ticks_advance_nothing(c, ticks.skip(1));
    }
}

/// Resuming re-anchors frame timing: the first tick after a start depends
/// only on the start and tick times, never on how long the runtime sat
/// paused or where its anchor stood before — there is no discontinuous
/// time jump.
pub proof fn lemma_resume_no_time_jump(c1: SchedState, c2: SchedState, t_start: u64, t_tick: u64)
    requires
        c1.phase != Phase::Running,
        c2.phase != Phase::Running,
    ensures
        sched_tick(sched_start(c1, t_start), t_tick) == sched_tick(sched_start(c2, t_start), t_tick),
        sched_tick(sched_start(c1, t_start), t_tick).1 == Some(
            clamp_dt(elapsed_since(t_tick, t_start)),
        ),
{
}

/// Rendering is deterministic: two frames drawn from the same entity list
/// are identical — the renderer keeps no hidden state.
pub proof fn lemma_render_deterministic(f1: Frame, f2: Frame, s: Seq<RuntimeEntity>)
    requires
        frame_matches(f1, s),
        frame_matches(f2, s),
    ensures
        f1.background@ == f2.background@,
        f1.rects@ == f2.rects@,
{
}

} // verus!
