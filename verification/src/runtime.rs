//! The simulation controller: owns the loaded scene, its lifecycle
//! (loaded, running, paused), the input sampler, and the per-step
//! algorithm. The physics engine itself is an external capability: each
//! step the controller hands the host a plan — a clamped time step and the
//! velocity commands derived from the input snapshot — and the host applies
//! the plan to its engine, steps it, and hands contact events and body
//! poses back.

use vstd::pervasive::VecAdditionalExecFns;
use vstd::prelude::*;

use crate::grounding::{apply_contact, contacted, set_grounded};
use crate::input::InputState;
use crate::interpreter::{
    interpret, scene_mirrors, BodyDef, LoadError, RuntimeEntity,
};
use crate::model::{names_unique, GameSpec};

verus! {

/// The longest stretch of simulated time one step may advance, in
/// milliseconds: a stalled host produces a clamped step, not an unstable
/// physics jump.
pub const MAX_STEP_MS: u64 = 100;

/// The lifecycle of a loaded runtime.
#[derive(Clone, Copy, PartialEq, Eq, Structural, Debug)]
pub enum Phase {
    /// Loaded (or reset) and not yet running.
    Loaded,
    /// Stepping whenever the host's scheduler ticks.
    Running,
    /// Stopped exactly where the last step left the world.
    Paused,
}

/// The scheduler-facing part of the controller's state: the phase and the
/// frame-timing anchor (the time of the last step or of the resume).
#[derive(Clone, Copy, PartialEq, Eq, Structural, Debug)]
pub struct SchedState {
    pub phase: Phase,
    pub anchor_ms: u64,
}

/// Wall-clock time elapsed since the anchor; zero if the clock ran
/// backwards.
pub open spec fn elapsed_since(now: u64, anchor: u64) -> u64 {
    if now >= anchor {
        (now - anchor) as u64
    } else {
        0
    }
}

/// Elapsed time clamped to the longest permitted step.
pub open spec fn clamp_dt(elapsed: u64) -> u64 {
    if elapsed > MAX_STEP_MS {
        MAX_STEP_MS
    } else {
        elapsed
    }
}

/// Starting moves a non-running controller to running and anchors frame
/// timing at the current time; starting a running controller changes
/// nothing.
pub open spec fn sched_start(c: SchedState, now: u64) -> SchedState {
    if c.phase == Phase::Running {
        c
    } else {
        SchedState { phase: Phase::Running, anchor_ms: now }
    }
}

/// Pausing stops a running controller where it is; pausing anything else
/// changes nothing.
pub open spec fn sched_pause(c: SchedState) -> SchedState {
    if c.phase == Phase::Running {
        SchedState { phase: Phase::Paused, ..c }
    } else {
        c
    }
}

/// One scheduler tick: a running controller re-anchors at `now` and
/// advances by the clamped elapsed time; any other controller ignores the
/// tick and advances by nothing.
pub open spec fn sched_tick(c: SchedState, now: u64) -> (SchedState, Option<u64>) {
    if c.phase == Phase::Running {
        (
            SchedState { phase: Phase::Running, anchor_ms: now },
            Some(clamp_dt(elapsed_since(now, c.anchor_ms))),
        )
    } else {
        (c, None)
    }
}

/// One velocity command for the host's physics engine: set the horizontal
/// velocity of the body, and, when jumping, the vertical velocity too;
/// a vertical component of `None` leaves the body's vertical velocity
/// untouched.
#[derive(Clone, Copy, PartialEq, Eq, Structural, Debug)]
pub struct BodyCommand {
    /// The body's slot in the body registry.
    pub body: usize,
    pub vx: i64,
    pub vy: Option<i64>,
}

/// What one step asks of the host: apply the commands, then advance the
/// physics engine by `dt_ms` of simulated time.
pub struct StepPlan {
    pub dt_ms: u64,
    pub commands: Vec<BodyCommand>,
}

/// The horizontal velocity an input snapshot gives a player: `move right`
/// wins over `move left` when both are held, and no direction means a full
/// horizontal stop.
pub open spec fn horiz_velocity(left: bool, right: bool, speed: u32) -> i64 {
    if right {
        speed as i64
    } else if left {
        (-(speed as int)) as i64
    } else {
        0
    }
}

/// A driven entity: player-controlled and backed by a physics body. Only
/// driven entities receive velocity commands.
pub open spec fn driven(e: RuntimeEntity) -> bool {
    e.has_input && e.body is Some
}

/// The command a driven entity's body receives for this snapshot: the
/// derived horizontal velocity, and the entity's jump force as vertical
/// velocity exactly when jump is held while the entity is grounded.
pub open spec fn command_for(e: RuntimeEntity, inp: InputState) -> BodyCommand {
    BodyCommand {
        body: match e.body {
            Some(k) => k,
            None => 0,
        },
        vx: horiz_velocity(inp.left, inp.right, e.move_speed),
        vy: if inp.jump && e.is_grounded {
            Some(e.jump_force)
        } else {
            None
        },
    }
}

/// An entity after the step's input handling: a driven entity that jumps
/// loses its grounding immediately — anticipating the engine's own
/// contact-end event, so the same jump cannot fire twice in one frame —
/// and nothing else changes.
pub open spec fn stepped_entity(e: RuntimeEntity, inp: InputState) -> RuntimeEntity {
    if driven(e) {
        RuntimeEntity { is_grounded: e.is_grounded && !inp.jump, ..e }
    } else {
        e
    }
}

/// The commands one step issues: one per driven entity, in entity order.
pub open spec fn step_commands(s: Seq<RuntimeEntity>, inp: InputState) -> Seq<BodyCommand>
    decreases s.len(),
{
    if s.len() == 0 {
        Seq::empty()
    } else {
        step_commands(s.drop_last(), inp) + if driven(s.last()) {
            seq![command_for(s.last(), inp)]
        } else {
            Seq::empty()
        }
    }
}

/// `e` with the pose the physics engine reported.
pub open spec fn posed(e: RuntimeEntity, x: i64, y: i64, rotation: i64) -> RuntimeEntity {
    RuntimeEntity { x: x, y: y, rotation: rotation, ..e }
}

/// The mathematical state of a runtime: the immutable scene description,
/// the entity list, the body registry, the input sampler, and the
/// scheduler state.
pub ghost struct RuntimeView {
    pub game: GameSpec,
    pub entities: Seq<RuntimeEntity>,
    pub bodies: Seq<BodyDef>,
    pub input: InputState,
    pub sched: SchedState,
}

impl RuntimeView {
    /// Well-formedness, established at load and preserved by every
    /// operation: names are unique; entity and body registries point at
    /// each other consistently; each entity keeps the name its
    /// description gave it; and only player-controlled entities are ever
    /// grounded.
    pub open spec fn wf(self) -> bool {
        &&& names_unique(self.game.entities@)
        &&& self.entities.len() == self.game.entities@.len()
        &&& forall|e: int|
            0 <= e < self.entities.len() ==> (#[trigger] self.entities[e]).name@
                == self.game.entities@[e].name@
        &&& forall|e: int|
            0 <= e < self.entities.len() ==> match (#[trigger] self.entities[e]).body {
                Some(k) => k < self.bodies.len() && self.bodies[k as int].entity == e,
                None => true,
            }
        &&& forall|k: int|
            0 <= k < self.bodies.len() ==> (#[trigger] self.bodies[k]).entity < self.entities.len()
                && self.entities[self.bodies[k].entity as int].body == Some(k as usize)
        &&& forall|e: int|
            0 <= e < self.entities.len() ==> ((#[trigger] self.entities[e]).is_grounded
                ==> self.entities[e].has_input)
    }
}

/// A loaded game: the interpreted scene, the input sampler, and the frame
/// lifecycle, stepped by handing plans to the host's physics engine.
pub struct Runtime {
    game: GameSpec,
    entities: Vec<RuntimeEntity>,
    bodies: Vec<BodyDef>,
    input: InputState,
    phase: Phase,
    anchor_ms: u64,
}

impl View for Runtime {
    type V = RuntimeView;

    closed spec fn view(&self) -> RuntimeView {
        RuntimeView {
            game: self.game,
            entities: self.entities@,
            bodies: self.bodies@,
            input: self.input,
            sched: SchedState { phase: self.phase, anchor_ms: self.anchor_ms },
        }
    }
}

/// A mirrored scene with unique names satisfies the registry
/// well-formedness clauses.
proof fn lemma_mirrors_wf(v: RuntimeView)
    requires
        names_unique(v.game.entities@),
        scene_mirrors(v.entities, v.bodies, v.game),
    ensures
        v.wf(),
{
    let sv = v.game.entities@;
    assert forall|e: int| 0 <= e < v.entities.len() implies match (#[trigger] v.entities[e]).body {
        Some(k) => k < v.bodies.len() && v.bodies[k as int].entity == e,
        None => true,
    } by {
        crate::interpreter::lemma_body_count_bounds(sv, e);
        if sv[e].collider is Some {
            crate::interpreter::lemma_body_count_mono(sv, e + 1, sv.len() as int);
        }
    }
    assert forall|k: int| 0 <= k < v.bodies.len() implies (#[trigger] v.bodies[k]).entity
        < v.entities.len() && v.entities[v.bodies[k].entity as int].body == Some(k as usize) by {
        let e = v.bodies[k].entity as int;
        crate::interpreter::lemma_body_count_bounds(sv, e);
    }
}

/// Overwrites the render pose of entity `i`, leaving every other field
/// and every other entity untouched.
fn set_pose(entities: &mut Vec<RuntimeEntity>, i: usize, x: i64, y: i64, rotation: i64)
    requires
        i < old(entities)@.len(),
    ensures
        final(entities)@ == old(entities)@.update(
            i as int,
            posed(old(entities)@[i as int], x, y, rotation),
        ),
{
    let mut e = crate::grounding::blank_entity();
    entities.set_and_swap(i, &mut e);
    e.x = x;
    e.y = y;
    e.rotation = rotation;
    entities.set_and_swap(i, &mut e);
    proof {
        assert(entities@ =~= old(entities)@.update(
            i as int,
            posed(old(entities)@[i as int], x, y, rotation),
        ));
    }
}

/// Copies the body-definition list.
fn copy_defs(v: &Vec<BodyDef>) -> (r: Vec<BodyDef>)
    ensures
        r@ == v@,
{
    let mut r: Vec<BodyDef> = Vec::new();
    let mut i: usize = 0;
    while i < v.len()
        invariant
            i <= v@.len(),
            r@ == v@.take(i as int),
        decreases v@.len() - i,
    {
        r.push(v[i]);
        proof {
            assert(v@.take(i as int).push(v@[i as int]) =~= v@.take(i + 1));
        }
        i = i + 1;
    }
    proof {
        assert(v@.take(v@.len() as int) =~= v@);
    }
    r
}

impl Runtime {
    /// Loads a scene description: interprets it into the runtime entity
    /// list and the body definitions the host must create, starting in the
    /// loaded (not running) phase with no key held. Rejected exactly when
    /// the description's entity names are not unique; a rejected load
    /// produces no runtime at all.
    pub fn new(game: GameSpec) -> (r: Result<Runtime, LoadError>)
        ensures
            r is Ok <==> names_unique(game.entities@),
            r matches Ok(rt) ==> {
                &&& rt@.wf()
                &&& rt@.game == game
                &&& scene_mirrors(rt@.entities, rt@.bodies, game)
                &&& rt@.input == (InputState { left: false, right: false, jump: false })
                &&& rt@.sched.phase == Phase::Loaded
            },
            r matches Err(LoadError::DuplicateName { index }) ==> {
                &&& crate::model::dup_at(game.entities@, index as int)
                &&& forall|i: int| 0 <= i < index ==> !crate::model::dup_at(game.entities@, i)
            },
    {
        match interpret(&game) {
            Ok(sc) => {
                let rt = Runtime {
                    game,
                    entities: sc.entities,
                    bodies: sc.bodies,
                    input: InputState::new(),
                    phase: Phase::Loaded,
                    anchor_ms: 0,
                };
                proof {
                    lemma_mirrors_wf(rt@);
                }
                Ok(rt)
            },
            Err(e) => Err(e),
        }
    }

    /// Rebuilds the scene from the stored description — the same full
    /// rebuild as the initial load — discarding all physics and render
    /// state accumulated since, and returns the body definitions the host
    /// must recreate after clearing its physics world. The runtime is
    /// loaded (not running) afterwards; the key state persists, since keys
    /// stay physically held across a reset.
    pub fn reset(&mut self) -> (defs: Vec<BodyDef>)
        requires
            old(self)@.wf(),
        ensures
            final(self)@.wf(),
            final(self)@.game == old(self)@.game,
            scene_mirrors(final(self)@.entities, final(self)@.bodies, old(self)@.game),
            final(self)@.input == old(self)@.input,
            final(self)@.sched.phase == Phase::Loaded,
            defs@ == final(self)@.bodies,
    {
        match interpret(&self.game) {
            Ok(sc) => {
                self.entities = sc.entities;
                self.bodies = sc.bodies;
                self.phase = Phase::Loaded;
                proof {
                    lemma_mirrors_wf(self@);
                }
                copy_defs(&self.bodies)
            },
            Err(_) => {
                // Unreachable: the stored description was validated at load.
                proof {
                    assert(false);
                }
                vstd::pervasive::unreached()
            },
        }
    }

    /// Starts (or resumes) the frame loop: a loaded or paused runtime
    /// becomes running, with frame timing anchored at `now_ms` — so a
    /// resume never replays the time spent paused. Starting a running
    /// runtime changes nothing.
    pub fn start(&mut self, now_ms: u64)
        requires
            old(self)@.wf(),
        ensures
            final(self)@.wf(),
            final(self)@ == (RuntimeView { sched: sched_start(old(self)@.sched, now_ms), ..old(
                self,
            )@ }),
    {
        if !matches!(self.phase, Phase::Running) {
            self.phase = Phase::Running;
            self.anchor_ms = now_ms;
        }
    }

    /// Pauses a running runtime, leaving the world exactly as the last
    /// step computed it; pausing anything else changes nothing.
    pub fn pause(&mut self)
        requires
            old(self)@.wf(),
        ensures
            final(self)@.wf(),
            final(self)@ == (RuntimeView { sched: sched_pause(old(self)@.sched), ..old(self)@ }),
    {
        if matches!(self.phase, Phase::Running) {
            self.phase = Phase::Paused;
        }
    }

    /// Records a key-down notification from the host. Takes effect from
    /// the next step's snapshot on; an unrecognized key is ignored.
    pub fn key_down(&mut self, key: &str)
        requires
            old(self)@.wf(),
        ensures
            final(self)@.wf(),
            final(self)@ == (RuntimeView {
                input: crate::input::applied_key(old(self)@.input, key@, true),
                ..old(self)@
            }),
    {
        self.input.key_down(key);
    }

    /// Records a key-up notification from the host.
    pub fn key_up(&mut self, key: &str)
        requires
            old(self)@.wf(),
        ensures
            final(self)@.wf(),
            final(self)@ == (RuntimeView {
                input: crate::input::applied_key(old(self)@.input, key@, false),
                ..old(self)@
            }),
    {
        self.input.key_up(key);
    }

    /// One scheduler tick. A runtime that is not running ignores it: no
    /// plan, nothing changed. A running runtime takes a single input
    /// snapshot, re-anchors frame timing at `now_ms`, clears the grounding
    /// of every driven entity that jumps, and returns the step plan: the
    /// elapsed time clamped to [`MAX_STEP_MS`], and one velocity command
    /// per driven entity, in entity order.
    pub fn plan_step(&mut self, now_ms: u64) -> (plan: Option<StepPlan>)
        requires
            old(self)@.wf(),
        ensures
            final(self)@.wf(),
            final(self)@.game == old(self)@.game,
            final(self)@.bodies == old(self)@.bodies,
            final(self)@.input == old(self)@.input,
            final(self)@.sched == sched_tick(old(self)@.sched, now_ms).0,
            old(self)@.sched.phase != Phase::Running ==> final(self)@ == old(self)@ && plan
                is None,
            old(self)@.sched.phase == Phase::Running ==> {
                &&& plan matches Some(p)
                &&& p.dt_ms == clamp_dt(elapsed_since(now_ms, old(self)@.sched.anchor_ms))
                &&& sched_tick(old(self)@.sched, now_ms).1 == Some(p.dt_ms)
                &&& p.commands@ == step_commands(old(self)@.entities, old(self)@.input)
                &&& final(self)@.entities.len() == old(self)@.entities.len()
                &&& forall|i: int|
                    0 <= i < old(self)@.entities.len() ==> final(self)@.entities[i]
                        == stepped_entity(#[trigger] old(self)@.entities[i], old(self)@.input)
            },
    {
        if !matches!(self.phase, Phase::Running) {
            return None;
        }
        let elapsed = if now_ms >= self.anchor_ms {
            now_ms - self.anchor_ms
        } else {
            0
        };
        let dt_ms = if elapsed > MAX_STEP_MS {
            MAX_STEP_MS
        } else {
            elapsed
        };
        self.anchor_ms = now_ms;
        let snapshot = self.input;
        let ghost s0 = self.entities@;
        let ghost g0 = self.game;
        let ghost b0 = self.bodies@;
        let mut commands: Vec<BodyCommand> = Vec::new();
        let n = self.entities.len();
        let mut i: usize = 0;
        while i < n
            invariant
                i <= n,
                n == s0.len(),
                self.entities@.len() == s0.len(),
                snapshot == self.input,
                self.game == g0,
                self.bodies@ == b0,
                self.phase == Phase::Running,
                self.anchor_ms == now_ms,
                commands@ == step_commands(s0.take(i as int), snapshot),
                forall|t: int|
                    0 <= t < i ==> self.entities@[t] == stepped_entity(
                        #[trigger] s0[t],
                        snapshot,
                    ),
                forall|t: int| i <= t < n ==> self.entities@[t] == s0[t],
            decreases n - i,
        {
            let has_input = self.entities[i].has_input;
            let slot = self.entities[i].body;
            if has_input && slot.is_some() {
                let move_speed = self.entities[i].move_speed;
                let jump_force = self.entities[i].jump_force;
                let grounded = self.entities[i].is_grounded;
                let k = match slot {
                    Some(k) => k,
                    None => 0,
                };
                let vx = if snapshot.right {
                    move_speed as i64
                } else if snapshot.left {
                    -(move_speed as i64)
                } else {
                    0
                };
                let vy = if snapshot.jump && grounded {
                    Some(jump_force)
                } else {
                    None
                };
                commands.push(BodyCommand { body: k, vx, vy });
                if snapshot.jump && grounded {
                    set_grounded(&mut self.entities, i, false);
                }
            }
            proof {
                assert(s0.take(i + 1).drop_last() =~= s0.take(i as int));
                assert(s0.take(i + 1).last() == s0[i as int]);
                assert(commands@ =~= step_commands(s0.take(i + 1), snapshot));
            }
            i = i + 1;
        }
        proof {
            assert(s0.take(n as int) =~= s0);
            let fv = self@;
            let ov = old(self)@;
            assert forall|e: int| 0 <= e < fv.entities.len() implies {
                &&& (#[trigger] fv.entities[e]).name@ == fv.game.entities@[e].name@
                &&& fv.entities[e].body == ov.entities[e].body
                &&& fv.entities[e].has_input == ov.entities[e].has_input
                &&& (fv.entities[e].is_grounded ==> fv.entities[e].has_input)
            } by {
                assert(fv.entities[e] == stepped_entity(ov.entities[e], snapshot));
            }
        }
        Some(StepPlan { dt_ms, commands })
    }

    /// Routes a contact-begin event from the host's physics engine, by the
    /// entity indices the bodies were labelled with: each side of the pair
    /// that is a player entity touching a `ground`- or `platform`-tagged
    /// entity becomes grounded.
    pub fn contact_begin(&mut self, a: usize, b: usize)
        requires
            old(self)@.wf(),
        ensures
            final(self)@.wf(),
            final(self)@ == (RuntimeView {
                entities: contacted(old(self)@.entities, a as int, b as int, true),
                ..old(self)@
            }),
    {
        apply_contact(&mut self.entities, a, b, true);
    }

    /// Routes a contact-end event from the host's physics engine: each
    /// side of the pair that is a player entity leaving a supporting
    /// surface becomes airborne.
    pub fn contact_end(&mut self, a: usize, b: usize)
        requires
            old(self)@.wf(),
        ensures
            final(self)@.wf(),
            final(self)@ == (RuntimeView {
                entities: contacted(old(self)@.entities, a as int, b as int, false),
                ..old(self)@
            }),
    {
        apply_contact(&mut self.entities, a, b, false);
    }

    /// Copies the pose the physics engine reported for one entity's body
    /// into the entity's render fields. An index that names no entity
    /// changes nothing.
    pub fn sync_pose(&mut self, entity: usize, x: i64, y: i64, rotation: i64)
        requires
            old(self)@.wf(),
        ensures
            final(self)@.wf(),
            entity < old(self)@.entities.len() ==> final(self)@ == (RuntimeView {
                entities: old(self)@.entities.update(
                    entity as int,
                    posed(old(self)@.entities[entity as int], x, y, rotation),
                ),
                ..old(self)@
            }),
            entity >= old(self)@.entities.len() ==> final(self)@ == old(self)@,
    {
        if entity >= self.entities.len() {
            return ;
        }
        set_pose(&mut self.entities, entity, x, y, rotation);
    }

    /// The current runtime entity list, for rendering and host overlays.
    pub fn entities(&self) -> (r: &Vec<RuntimeEntity>)
        ensures
            r@ == self@.entities,
    {
        &self.entities
    }

    /// The body definitions of the current scene, in registry order.
    pub fn body_defs(&self) -> (r: &Vec<BodyDef>)
        ensures
            r@ == self@.bodies,
    {
        &self.bodies
    }

    /// The current lifecycle phase.
    pub fn phase(&self) -> (r: Phase)
        ensures
            r == self@.sched.phase,
    {
        self.phase
    }

    /// The current input sampler state.
    pub fn input_state(&self) -> (r: InputState)
        ensures
            r == self@.input,
    {
        self.input
    }
}

} // verus!
