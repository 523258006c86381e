use blappy_birb::application::App;
use blappy_birb::input::Input;
use blappy_birb::obstacles::{
    reset_entropy, reset_game_state, reset_timer, score_obstacle, spawn_obstacle,
    spawn_obstacle_timed, track_obstacle_movement,
};
use blappy_birb::state::{AppState, GameState};
use blappy_birb::world::{Collider, Command, Entity, Marker, Window, World};

const WINDOW: Window = Window { width: 640_000, height: 1_136_000 };

fn world() -> World {
    App::new(42).world
}

fn input(delta: u64, window: Option<Window>) -> Input {
    Input {
        delta,
        keyboard: false,
        touch: false,
        mouse: false,
        escape: false,
        loaded: true,
        window,
        collisions: Vec::new(),
        readings: Vec::new(),
    }
}

fn obstacle(id: u64, x: i64, y: i64) -> Entity {
    Entity {
        id,
        marker: Marker::Obstacle,
        scope: Some(AppState::InGame),
        x,
        y,
        vx: -200_000,
        vy: 0,
        collider: Collider::Barriers {
            half_width: 20_000,
            half_height: 400_000,
            upper: 300_000,
            lower: -700_000,
        },
        scored: false,
    }
}

fn world_with_obstacles(positions: &[i64]) -> World {
    let mut world = world();
    for x in positions {
        spawn_obstacle(&mut world, Some(WINDOW));
        let last = world.entities.len() - 1;
        world.entities[last].x = *x;
    }
    world.commands.clear();
    world
}

#[test]
fn obstacle_appears_right_of_the_window_at_the_drawn_height() {
    let mut world = world();
    spawn_obstacle(&mut world, Some(WINDOW));
    assert_eq!(world.entities, vec![obstacle(0, 340_000, 236_746)]);
    assert_eq!(world.commands, vec![Command::Spawn(obstacle(0, 340_000, 236_746))]);
    spawn_obstacle(&mut world, Some(WINDOW));
    assert_eq!(world.entities[1], obstacle(1, 340_000, 368_650));
    assert_eq!(world.next_id, 2);
}

#[test]
fn obstacle_follows_the_width_of_the_window() {
    let mut world = world();
    spawn_obstacle(&mut world, Some(Window { width: 1_000_001, height: 5 }));
    assert_eq!(world.entities[0].x, 520_000);
    let mut narrow = App::new(42).world;
    spawn_obstacle(&mut narrow, Some(Window { width: 0, height: 0 }));
    assert_eq!(narrow.entities[0].x, 20_000);
    let mut wide = App::new(42).world;
    spawn_obstacle(&mut wide, Some(Window { width: u32::MAX, height: 0 }));
    assert_eq!(wide.entities[0].x, 2_147_483_647 + 20_000);
}

#[test]
fn no_window_no_obstacle_and_no_draw() {
    let mut world = world();
    spawn_obstacle(&mut world, None);
    assert!(world.entities.is_empty());
    assert!(world.commands.is_empty());
    spawn_obstacle(&mut world, Some(WINDOW));
    assert_eq!(world.entities[0].y, 236_746);
}

#[test]
fn no_identity_left_no_obstacle() {
    let mut world = world();
    world.next_id = u64::MAX;
    spawn_obstacle(&mut world, Some(WINDOW));
    assert!(world.entities.is_empty());
    assert!(world.commands.is_empty());
    assert_eq!(world.next_id, u64::MAX);
}

#[test]
fn heights_repeat_after_the_generator_is_set_back() {
    let mut world = world();
    spawn_obstacle(&mut world, Some(WINDOW));
    spawn_obstacle(&mut world, Some(WINDOW));
    reset_entropy(&mut world);
    spawn_obstacle(&mut world, Some(WINDOW));
    spawn_obstacle(&mut world, Some(WINDOW));
    assert_eq!(world.entities[2].y, world.entities[0].y);
    assert_eq!(world.entities[3].y, world.entities[1].y);
    assert_eq!(world.entities[2].id, 2);
}

#[test]
fn timer_lets_an_obstacle_appear_every_two_seconds() {
    let mut world = world();
    spawn_obstacle_timed(&mut world, &input(1_999_999_999, Some(WINDOW)));
    assert!(world.entities.is_empty());
    spawn_obstacle_timed(&mut world, &input(1, Some(WINDOW)));
    assert_eq!(world.entities.len(), 1);
    spawn_obstacle_timed(&mut world, &input(1_000_000_000, Some(WINDOW)));
    assert_eq!(world.entities.len(), 1);
    spawn_obstacle_timed(&mut world, &input(1_000_000_000, Some(WINDOW)));
    assert_eq!(world.entities.len(), 2);
    assert_eq!(world.entities[0].y, 236_746);
    assert_eq!(world.entities[1].y, 368_650);
}

#[test]
fn long_frame_brings_one_obstacle() {
    let mut world = world();
    spawn_obstacle_timed(&mut world, &input(7_000_000_000, Some(WINDOW)));
    assert_eq!(world.entities.len(), 1);
    assert_eq!(world.spawn_timer.elapsed, 1_000_000_000);
}

#[test]
fn timer_runs_on_without_a_window() {
    let mut world = world();
    spawn_obstacle_timed(&mut world, &input(2_000_000_000, None));
    assert!(world.entities.is_empty());
    assert_eq!(world.spawn_timer.elapsed, 0);
    assert!(world.spawn_timer.just_finished());
}

#[test]
fn reset_timer_forgets_the_time_counted() {
    let mut world = world();
    spawn_obstacle_timed(&mut world, &input(1_900_000_000, Some(WINDOW)));
    reset_timer(&mut world);
    assert_eq!(world.spawn_timer.elapsed, 0);
    spawn_obstacle_timed(&mut world, &input(1_900_000_000, Some(WINDOW)));
    assert!(world.entities.is_empty());
}

#[test]
fn reset_game_state_asks_for_a_run_and_wipes_the_score() {
    let mut world = world();
    world.score.passed_obstactle();
    world.game_state = GameState::GameOver;
    reset_game_state(&mut world);
    assert_eq!(world.next_game_state, Some(GameState::Running));
    assert_eq!(world.score.value(), 0);
    assert_eq!(world.game_state, GameState::GameOver);
}

#[test]
fn obstacle_out_of_sight_is_destroyed() {
    let mut world = world_with_obstacles(&[-340_001, -340_000, 100_000, -900_000]);
    track_obstacle_movement(&mut world, Some(WINDOW));
    let left: Vec<u64> = world.entities.iter().map(|e| e.id).collect();
    assert_eq!(left, vec![1, 2]);
    assert_eq!(world.commands, vec![Command::Despawn(0), Command::Despawn(3)]);
}

#[test]
fn destroyed_obstacle_does_not_come_back() {
    let mut world = world_with_obstacles(&[-400_000]);
    track_obstacle_movement(&mut world, Some(WINDOW));
    assert!(world.entities.is_empty());
    world.commands.clear();
    track_obstacle_movement(&mut world, Some(WINDOW));
    assert!(world.commands.is_empty());
    spawn_obstacle(&mut world, Some(WINDOW));
    assert_eq!(world.entities.len(), 1);
    assert_eq!(world.entities[0].id, 1);
}

#[test]
fn only_obstacles_are_destroyed_out_of_sight() {
    let mut world = world_with_obstacles(&[-400_000]);
    world.entities[0].marker = Marker::Background;
    track_obstacle_movement(&mut world, Some(WINDOW));
    assert_eq!(world.entities.len(), 1);
    assert!(world.commands.is_empty());
}

#[test]
fn without_a_window_nothing_is_destroyed() {
    let mut world = world_with_obstacles(&[-9_000_000]);
    track_obstacle_movement(&mut world, None);
    assert_eq!(world.entities.len(), 1);
    assert!(world.commands.is_empty());
}

#[test]
fn left_boundary_follows_the_window() {
    let mut world = world_with_obstacles(&[-20_001, -20_000]);
    track_obstacle_movement(&mut world, Some(Window { width: 1, height: 1 }));
    assert_eq!(world.entities.len(), 1);
    assert_eq!(world.entities[0].x, -20_000);
}

#[test]
fn obstacle_counts_once_it_is_left_of_the_bird() {
    let mut world = world_with_obstacles(&[39_999, 40_000, 40_001, -5]);
    score_obstacle(&mut world);
    let scored: Vec<bool> = world.entities.iter().map(|e| e.scored).collect();
    assert_eq!(scored, vec![true, false, false, true]);
    assert_eq!(world.passed.len(), 2);
    assert!(world.commands.is_empty());
}

#[test]
fn obstacle_counts_only_once() {
    let mut world = world_with_obstacles(&[10_000]);
    score_obstacle(&mut world);
    assert_eq!(world.passed.len(), 1);
    world.passed.clear();
    score_obstacle(&mut world);
    score_obstacle(&mut world);
    assert!(world.passed.is_empty());
    assert!(world.entities[0].scored);
}

#[test]
fn obstacle_right_of_the_bird_does_not_count() {
    let mut world = world_with_obstacles(&[340_000, 40_000]);
    score_obstacle(&mut world);
    assert!(world.passed.is_empty());
    assert!(!world.entities[0].scored);
    assert!(!world.entities[1].scored);
}

#[test]
fn only_obstacles_count() {
    let mut world = world_with_obstacles(&[0]);
    world.entities[0].marker = Marker::Bird;
    score_obstacle(&mut world);
    assert!(world.passed.is_empty());
    assert!(!world.entities[0].scored);
}
