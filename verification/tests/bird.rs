use blappy_birb::application::App;
use blappy_birb::bird::{animate_bird, flap_bird, spawn_bird, AnimationIndices};
use blappy_birb::input::{ButtonPressed, Input};
use blappy_birb::state::AppState;
use blappy_birb::world::{Collider, Command, Entity, Marker, Window, World};

fn world() -> World {
    App::new(42).world
}

fn input(delta: u64) -> Input {
    Input {
        delta,
        keyboard: false,
        touch: false,
        mouse: false,
        escape: false,
        loaded: true,
        window: Some(Window { width: 640_000, height: 1_136_000 }),
        collisions: Vec::new(),
        readings: Vec::new(),
    }
}

fn world_with_bird(vy: i64) -> World {
    let mut world = world();
    spawn_bird(&mut world);
    world.entities[0].vy = vy;
    world.commands.clear();
    world
}

#[test]
fn bird_appears_at_rest_at_its_place() {
    let mut world = world();
    spawn_bird(&mut world);
    let bird = Entity {
        id: 0,
        marker: Marker::Bird,
        scope: Some(AppState::InGame),
        x: 40_000,
        y: 128_000,
        vx: 0,
        vy: 0,
        collider: Collider::Ball { radius: 15_000 },
        scored: false,
    };
    assert_eq!(world.entities, vec![bird]);
    assert_eq!(world.commands, vec![Command::Spawn(bird)]);
    assert_eq!(world.next_id, 1);
    assert_eq!(world.animation.frame, 0);
    assert_eq!(world.animation.indices, AnimationIndices { first: 0, last: 3 });
    assert_eq!(world.animation.timer.duration, 200_000_000);
}

#[test]
fn flap_lifts_a_falling_bird() {
    let mut world = world_with_bird(-250_000);
    world.presses.push(ButtonPressed);
    flap_bird(&mut world);
    assert_eq!(world.entities[0].vy, 600_000);
    assert_eq!(world.commands, vec![Command::SetVelocity { id: 0, vx: 0, vy: 600_000 }]);
}

#[test]
fn flap_lifts_a_bird_at_half_the_jump_speed() {
    let mut world = world_with_bird(300_000);
    world.presses.push(ButtonPressed);
    flap_bird(&mut world);
    assert_eq!(world.entities[0].vy, 600_000);
}

#[test]
fn flap_leaves_a_fast_rising_bird_alone() {
    let mut world = world_with_bird(300_001);
    world.presses.push(ButtonPressed);
    flap_bird(&mut world);
    assert_eq!(world.entities[0].vy, 300_001);
    assert!(world.commands.is_empty());
}

#[test]
fn flap_right_after_a_flap_changes_nothing() {
    let mut world = world_with_bird(0);
    world.presses.push(ButtonPressed);
    flap_bird(&mut world);
    let after_first = world.entities.clone();
    world.commands.clear();
    flap_bird(&mut world);
    assert_eq!(world.entities, after_first);
    assert!(world.commands.is_empty());
}

#[test]
fn two_activations_in_a_frame_lift_once() {
    let mut world = world_with_bird(0);
    world.presses.push(ButtonPressed);
    world.presses.push(ButtonPressed);
    flap_bird(&mut world);
    assert_eq!(world.entities[0].vy, 600_000);
    assert_eq!(world.commands.len(), 1);
}

#[test]
fn no_activation_no_flap() {
    let mut world = world_with_bird(-100_000);
    flap_bird(&mut world);
    assert_eq!(world.entities[0].vy, -100_000);
    assert!(world.commands.is_empty());
}

#[test]
fn flap_without_a_bird_does_nothing() {
    let mut world = world();
    world.presses.push(ButtonPressed);
    flap_bird(&mut world);
    assert!(world.entities.is_empty());
    assert!(world.commands.is_empty());
}

#[test]
fn flap_with_two_birds_does_nothing() {
    let mut world = world();
    spawn_bird(&mut world);
    spawn_bird(&mut world);
    world.commands.clear();
    world.presses.push(ButtonPressed);
    flap_bird(&mut world);
    assert_eq!(world.entities[0].vy, 0);
    assert_eq!(world.entities[1].vy, 0);
    assert!(world.commands.is_empty());
}

#[test]
fn flap_keeps_the_horizontal_velocity() {
    let mut world = world_with_bird(0);
    world.entities[0].vx = 7;
    world.presses.push(ButtonPressed);
    flap_bird(&mut world);
    assert_eq!(world.entities[0].vx, 7);
    assert_eq!(world.commands, vec![Command::SetVelocity { id: 0, vx: 7, vy: 600_000 }]);
}

#[test]
fn frames_follow_each_other_and_wrap() {
    let indices = AnimationIndices { first: 0, last: 3 };
    assert_eq!(indices.next(0), 1);
    assert_eq!(indices.next(2), 3);
    assert_eq!(indices.next(3), 0);
    let other = AnimationIndices { first: 5, last: usize::MAX };
    assert_eq!(other.next(usize::MAX), 5);
}

#[test]
fn animation_shows_a_new_frame_every_fifth_of_a_second() {
    let mut world = world_with_bird(0);
    animate_bird(&mut world, &input(150_000_000));
    assert_eq!(world.animation.frame, 0);
    assert!(world.commands.is_empty());
    animate_bird(&mut world, &input(50_000_000));
    assert_eq!(world.animation.frame, 1);
    assert_eq!(world.commands, vec![Command::ShowFrame(1)]);
    animate_bird(&mut world, &input(200_000_000));
    animate_bird(&mut world, &input(200_000_000));
    assert_eq!(world.animation.frame, 3);
    animate_bird(&mut world, &input(200_000_000));
    assert_eq!(world.animation.frame, 0);
}
