use promptplay::interpreter::{interpret, LoadError};
use promptplay::model::{
    ColliderSpec, Config, EntitySpec, GameSpec, InputSpec, SpriteSpec, TransformSpec, VelocitySpec,
};

fn bare_entity(name: &str) -> EntitySpec {
    EntitySpec {
        name: name.to_string(),
        tags: Vec::new(),
        transform: None,
        sprite: None,
        velocity: None,
        collider: None,
        input: None,
        ai_behavior: None,
    }
}

fn game_of(entities: Vec<EntitySpec>) -> GameSpec {
    GameSpec { config: Config { gravity_x: 0, gravity_y: 1000 }, entities }
}

#[test]
fn defaults_resolve_for_missing_components() {
    let g = game_of(vec![bare_entity("thing")]);
    let scene = interpret(&g).unwrap();
    assert_eq!(scene.entities.len(), 1);
    let e = &scene.entities[0];
    assert_eq!(e.name, "thing");
    assert_eq!(e.x, 0);
    assert_eq!(e.y, 0);
    assert_eq!(e.rotation, 0);
    assert_eq!(e.width, 32);
    assert_eq!(e.height, 32);
    assert_eq!(e.color, "808080");
    assert!(!e.has_input);
    assert!(!e.is_grounded);
    assert!(e.body.is_none());
    assert!(scene.bodies.is_empty());
}

#[test]
fn tint_formats_as_six_hex_digits() {
    let mut red = bare_entity("red");
    red.sprite = Some(SpriteSpec {
        texture: None,
        width: None,
        height: None,
        tint: Some(0xFF0000),
    });
    let mut teal = bare_entity("teal");
    teal.sprite = Some(SpriteSpec {
        texture: None,
        width: None,
        height: None,
        tint: Some(0x00FF7F),
    });
    let scene = interpret(&game_of(vec![red, teal])).unwrap();
    assert_eq!(scene.entities[0].color, "ff0000");
    assert_eq!(scene.entities[1].color, "00ff7f");
}

#[test]
fn duplicate_names_are_rejected() {
    let g = game_of(vec![bare_entity("dup"), bare_entity("other"), bare_entity("dup")]);
    match interpret(&g) {
        Err(LoadError::DuplicateName { index }) => assert_eq!(index, 2),
        Ok(_) => panic!("duplicate names must be rejected"),
    }
}

#[test]
fn first_duplicate_is_reported() {
    let g = game_of(vec![bare_entity("x"), bare_entity("x"), bare_entity("x")]);
    match interpret(&g) {
        Err(LoadError::DuplicateName { index }) => assert_eq!(index, 1),
        Ok(_) => panic!("duplicate names must be rejected"),
    }
}

#[test]
fn tint_mixed_digits() {
    let mut e = bare_entity("mix");
    e.sprite = Some(SpriteSpec {
        texture: None,
        width: None,
        height: None,
        tint: Some(0xA1B2C3),
    });
    let scene = interpret(&game_of(vec![e])).unwrap();
    assert_eq!(scene.entities[0].color, "a1b2c3");
}

#[test]
fn input_component_defaults() {
    let mut player = bare_entity("player");
    player.input = Some(InputSpec { move_speed: None, jump_force: None });
    let scene = interpret(&game_of(vec![player])).unwrap();
    let e = &scene.entities[0];
    assert!(e.has_input);
    assert_eq!(e.move_speed, 200);
    assert_eq!(e.jump_force, -400);
}

#[test]
fn body_sized_from_collider_or_sprite() {
    let mut explicit = bare_entity("explicit");
    explicit.sprite = Some(SpriteSpec {
        texture: None,
        width: Some(64),
        height: Some(48),
        tint: None,
    });
    explicit.collider = Some(ColliderSpec {
        shape: "rectangle".to_string(),
        width: Some(10),
        height: Some(20),
    });
    let mut fallback = bare_entity("fallback");
    fallback.sprite = Some(SpriteSpec {
        texture: None,
        width: Some(64),
        height: Some(48),
        tint: None,
    });
    fallback.collider = Some(ColliderSpec { shape: "rectangle".to_string(), width: None, height: None });
    let scene = interpret(&game_of(vec![explicit, fallback])).unwrap();
    assert_eq!(scene.bodies.len(), 2);
    assert_eq!(scene.bodies[0].width, 10);
    assert_eq!(scene.bodies[0].height, 20);
    assert_eq!(scene.bodies[1].width, 64);
    assert_eq!(scene.bodies[1].height, 48);
    assert_eq!(scene.entities[0].body, Some(0));
    assert_eq!(scene.entities[1].body, Some(1));
}

#[test]
fn static_iff_neither_velocity_nor_input() {
    let mut wall = bare_entity("wall");
    wall.collider = Some(ColliderSpec { shape: "rectangle".to_string(), width: None, height: None });
    let mut crate_box = bare_entity("crate");
    crate_box.collider = Some(ColliderSpec { shape: "rectangle".to_string(), width: None, height: None });
    crate_box.velocity = Some(VelocitySpec { vx: 5, vy: 0 });
    let mut player = bare_entity("player");
    player.collider = Some(ColliderSpec { shape: "rectangle".to_string(), width: None, height: None });
    player.input = Some(InputSpec { move_speed: None, jump_force: None });
    let scene = interpret(&game_of(vec![wall, crate_box, player])).unwrap();
    assert!(scene.bodies[0].is_static);
    assert!(!scene.bodies[1].is_static);
    assert!(!scene.bodies[2].is_static);
}

#[test]
fn body_registry_drops_with_collider() {
    let mut with = bare_entity("with");
    with.collider = Some(ColliderSpec { shape: "rectangle".to_string(), width: None, height: None });
    let scene = interpret(&game_of(vec![with])).unwrap();
    assert_eq!(scene.bodies.len(), 1);
    assert_eq!(scene.bodies[0].entity, 0);

    // The same entity without its collider has no registry entry at all.
    let without = bare_entity("with");
    let scene2 = interpret(&game_of(vec![without])).unwrap();
    assert!(scene2.bodies.is_empty());
    assert!(scene2.entities[0].body.is_none());
}

#[test]
fn transform_and_tags_carry_through() {
    let mut e = bare_entity("hero");
    e.transform = Some(TransformSpec {
        x: Some(120),
        y: Some(-40),
        rotation: Some(3),
        scale_x: None,
        scale_y: None,
    });
    e.tags = vec!["player".to_string(), "hero".to_string()];
    let scene = interpret(&game_of(vec![e])).unwrap();
    let r = &scene.entities[0];
    assert_eq!(r.x, 120);
    assert_eq!(r.y, -40);
    assert_eq!(r.rotation, 3);
    assert_eq!(r.tags, vec!["player".to_string(), "hero".to_string()]);
}
