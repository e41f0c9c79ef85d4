use promptplay::interpreter::interpret;
use promptplay::model::{
    ColliderSpec, Config, EntitySpec, GameSpec, InputSpec, SpriteSpec, TransformSpec,
};
use promptplay::runtime::{Phase, Runtime};

fn entity(name: &str) -> EntitySpec {
    EntitySpec {
        name: name.to_string(),
        tags: Vec::new(),
        transform: None,
        sprite: None,
        velocity: None,
        collider: None,
        input: None,
        ai_behavior: None,
    }
}

fn player_at(x: i64, y: i64) -> EntitySpec {
    let mut e = entity("player");
    e.transform = Some(TransformSpec {
        x: Some(x),
        y: Some(y),
        rotation: None,
        scale_x: None,
        scale_y: None,
    });
    e.sprite = Some(SpriteSpec { texture: None, width: None, height: None, tint: Some(0x3366FF) });
    e.collider = Some(ColliderSpec { shape: "rectangle".to_string(), width: None, height: None });
    e.input = Some(InputSpec { move_speed: Some(200), jump_force: Some(-400) });
    e
}

fn platform_at(x: i64, y: i64) -> EntitySpec {
    let mut e = entity("platform");
    e.tags = vec!["platform".to_string()];
    e.transform = Some(TransformSpec {
        x: Some(x),
        y: Some(y),
        rotation: None,
        scale_x: None,
        scale_y: None,
    });
    e.collider = Some(ColliderSpec {
        shape: "rectangle".to_string(),
        width: Some(400),
        height: Some(20),
    });
    e
}

fn world() -> GameSpec {
    GameSpec {
        config: Config { gravity_x: 0, gravity_y: 1000 },
        entities: vec![player_at(100, 100), platform_at(100, 200)],
    }
}

#[test]
fn reset_rebuilds_identically() {
    let mut rt = Runtime::new(world()).unwrap();
    let first: Vec<(String, i64, i64, i64)> = rt
        .entities()
        .iter()
        .map(|e| (e.name.clone(), e.x, e.y, e.rotation))
        .collect();
    let first_defs: Vec<(usize, i64, i64, bool)> = rt
        .body_defs()
        .iter()
        .map(|b| (b.entity, b.x, b.y, b.is_static))
        .collect();

    // Disturb everything a session can disturb.
    rt.key_down("ArrowRight");
    rt.start(0);
    rt.contact_begin(0, 1);
    let _ = rt.plan_step(16);
    rt.sync_pose(0, 555, 666, 7);
    assert_ne!(rt.entities()[0].x, 100);

    let defs = rt.reset();
    assert_eq!(rt.phase(), Phase::Loaded);
    let again: Vec<(String, i64, i64, i64)> = rt
        .entities()
        .iter()
        .map(|e| (e.name.clone(), e.x, e.y, e.rotation))
        .collect();
    let again_defs: Vec<(usize, i64, i64, bool)> = defs
        .iter()
        .map(|b| (b.entity, b.x, b.y, b.is_static))
        .collect();
    assert_eq!(first, again);
    assert_eq!(first_defs, again_defs);
    assert!(rt.entities().iter().all(|e| !e.is_grounded));
}

#[test]
fn never_grounded_jump_has_no_velocity_effect() {
    let mut rt = Runtime::new(world()).unwrap();
    assert!(!rt.entities()[0].is_grounded);
    rt.key_down("Space");
    rt.start(0);
    let plan = rt.plan_step(16).unwrap();
    assert_eq!(plan.commands.len(), 1);
    assert_eq!(plan.commands[0].vy, None);
    assert!(!rt.entities()[0].is_grounded);
}

#[test]
fn grounded_jump_fires_and_clears_grounding_at_once() {
    let mut rt = Runtime::new(world()).unwrap();
    rt.contact_begin(0, 1);
    assert!(rt.entities()[0].is_grounded);
    rt.key_down("Space");
    rt.start(0);
    let plan = rt.plan_step(16).unwrap();
    // Vertical velocity becomes the jump force, and the entity is airborne
    // immediately, before any contact-end event arrives.
    assert_eq!(plan.commands[0].vy, Some(-400));
    assert!(!rt.entities()[0].is_grounded);
    // Holding the key cannot fire a second jump next frame.
    let plan2 = rt.plan_step(32).unwrap();
    assert_eq!(plan2.commands[0].vy, None);
}

#[test]
fn contact_pair_order_does_not_matter() {
    let mut rt = Runtime::new(world()).unwrap();
    rt.contact_begin(1, 0);
    assert!(rt.entities()[0].is_grounded);
    rt.contact_end(1, 0);
    assert!(!rt.entities()[0].is_grounded);
}

#[test]
fn contact_with_unknown_entity_changes_nothing() {
    let mut rt = Runtime::new(world()).unwrap();
    rt.contact_begin(0, 99);
    rt.contact_begin(99, 7);
    assert!(rt.entities().iter().all(|e| !e.is_grounded));
}

#[test]
fn platform_itself_never_grounds() {
    let mut rt = Runtime::new(world()).unwrap();
    rt.contact_begin(1, 1);
    assert!(!rt.entities()[1].is_grounded);
}

#[test]
fn move_right_wins_when_both_directions_held() {
    let mut rt = Runtime::new(world()).unwrap();
    rt.key_down("ArrowLeft");
    rt.key_down("ArrowRight");
    rt.start(0);
    let plan = rt.plan_step(16).unwrap();
    assert_eq!(plan.commands[0].vx, 200);
    // Horizontal input never touches the vertical component.
    assert_eq!(plan.commands[0].vy, None);
}

#[test]
fn move_left_alone_moves_left_and_release_stops() {
    let mut rt = Runtime::new(world()).unwrap();
    rt.key_down("ArrowLeft");
    rt.start(0);
    let plan = rt.plan_step(16).unwrap();
    assert_eq!(plan.commands[0].vx, -200);
    rt.key_up("ArrowLeft");
    let plan2 = rt.plan_step(32).unwrap();
    assert_eq!(plan2.commands[0].vx, 0);
}

#[test]
fn long_stall_is_clamped_to_one_tenth_second() {
    let mut rt = Runtime::new(world()).unwrap();
    rt.start(0);
    // Five simulated seconds elapse before the next tick.
    let plan = rt.plan_step(5000).unwrap();
    assert_eq!(plan.dt_ms, 100);

    // Under the scene's gravity of 1000 units/s^2, a clamped step moves a
    // resting body by at most 10 units, where an unclamped five-second step
    // would have moved it 25000.
    let g = 1000i64;
    let mut vy = 0i64;
    let mut y = 0i64;
    let dt = plan.dt_ms as i64;
    vy += g * dt / 1000;
    y += vy * dt / 1000;
    assert_eq!(y, 10);
    assert!(y <= 10);
}

#[test]
fn pause_stops_time_and_resume_does_not_jump() {
    let mut rt = Runtime::new(world()).unwrap();
    rt.start(0);
    let plan = rt.plan_step(16).unwrap();
    assert_eq!(plan.dt_ms, 16);
    rt.sync_pose(0, 101, 102, 0);
    let x_before = rt.entities()[0].x;

    rt.pause();
    assert_eq!(rt.phase(), Phase::Paused);
    // Scheduler keeps ticking; a paused runtime plans nothing.
    assert!(rt.plan_step(100).is_none());
    assert!(rt.plan_step(5000).is_none());
    assert!(rt.plan_step(90000).is_none());
    assert_eq!(rt.entities()[0].x, x_before);

    // Resuming anchors timing afresh: the pause gap is not replayed.
    rt.start(100_000);
    let plan2 = rt.plan_step(100_016).unwrap();
    assert_eq!(plan2.dt_ms, 16);
}

#[test]
fn pause_before_start_changes_nothing() {
    let mut rt = Runtime::new(world()).unwrap();
    rt.pause();
    assert_eq!(rt.phase(), Phase::Loaded);
}

#[test]
fn starting_twice_keeps_the_first_anchor() {
    let mut rt = Runtime::new(world()).unwrap();
    rt.start(0);
    rt.start(50);
    let plan = rt.plan_step(60).unwrap();
    assert_eq!(plan.dt_ms, 60);
}

#[test]
fn contact_end_without_begin_stays_airborne() {
    let mut rt = Runtime::new(world()).unwrap();
    rt.contact_end(0, 1);
    assert!(!rt.entities()[0].is_grounded);
}

#[test]
fn up_arrow_and_w_also_jump() {
    let mut rt = Runtime::new(world()).unwrap();
    rt.contact_begin(0, 1);
    rt.key_down("ArrowUp");
    rt.start(0);
    let plan = rt.plan_step(16).unwrap();
    assert_eq!(plan.commands[0].vy, Some(-400));
    rt.key_up("ArrowUp");
    rt.contact_begin(0, 1);
    rt.key_down("KeyW");
    let plan2 = rt.plan_step(32).unwrap();
    assert_eq!(plan2.commands[0].vy, Some(-400));
}

#[test]
fn plan_before_start_is_none() {
    let mut rt = Runtime::new(world()).unwrap();
    assert_eq!(rt.phase(), Phase::Loaded);
    assert!(rt.plan_step(16).is_none());
}

#[test]
fn sync_pose_updates_only_named_entity() {
    let mut rt = Runtime::new(world()).unwrap();
    rt.sync_pose(0, 7, 8, 9);
    assert_eq!(rt.entities()[0].x, 7);
    assert_eq!(rt.entities()[0].y, 8);
    assert_eq!(rt.entities()[0].rotation, 9);
    assert_eq!(rt.entities()[1].x, 100);
    // An index that names no entity changes nothing and is not an error.
    rt.sync_pose(50, 1, 2, 3);
    assert_eq!(rt.entities()[0].x, 7);
}

#[test]
fn render_is_pure_before_any_step() {
    let rt = Runtime::new(world()).unwrap();
    let f1 = rt.render();
    let f2 = rt.render();
    assert_eq!(f1.background, f2.background);
    assert_eq!(f1.rects.len(), f2.rects.len());
    for (a, b) in f1.rects.iter().zip(f2.rects.iter()) {
        assert_eq!(a.x, b.x);
        assert_eq!(a.y, b.y);
        assert_eq!(a.width, b.width);
        assert_eq!(a.height, b.height);
        assert_eq!(a.rotation, b.rotation);
        assert_eq!(a.color, b.color);
    }
}

#[test]
fn render_mirrors_entity_list() {
    let rt = Runtime::new(world()).unwrap();
    let f = rt.render();
    assert_eq!(f.rects.len(), 2);
    assert_eq!(f.rects[0].x, 100);
    assert_eq!(f.rects[0].y, 100);
    assert_eq!(f.rects[0].color, "3366ff");
    // Display size comes from the sprite (here the default), not from the
    // collider: the 400 by 20 rectangle is the physics body's size.
    assert_eq!(f.rects[1].width, 32);
    assert_eq!(f.rects[1].height, 32);
    assert_eq!(rt.body_defs()[1].width, 400);
    assert_eq!(rt.body_defs()[1].height, 20);
}

#[test]
fn fresh_load_and_reset_agree_with_interpreter() {
    let g = world();
    let scene = interpret(&g).unwrap();
    let mut rt = Runtime::new(world()).unwrap();
    rt.start(0);
    let _ = rt.plan_step(16);
    let _ = rt.reset();
    assert_eq!(scene.entities.len(), rt.entities().len());
    for (a, b) in scene.entities.iter().zip(rt.entities().iter()) {
        assert_eq!(a.name, b.name);
        assert_eq!(a.x, b.x);
        assert_eq!(a.y, b.y);
        assert_eq!(a.rotation, b.rotation);
        assert_eq!(a.color, b.color);
    }
}
