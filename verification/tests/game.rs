use blappy_birb::application::App;
use blappy_birb::bird::spawn_bird;
use blappy_birb::game::{
    continue_to_menu, despawn_loading_screen, detect_collisions, escape_to_quit, finish_game,
    new_picture, player_scored, setup_camera, spawn_game_over_ui, spawn_ground_and_ceiling,
    spawn_loading_screen, spawn_start_menu, spawn_ui, start_game_on_input, update_score,
};
use blappy_birb::input::{ButtonPressed, Input};
use blappy_birb::obstacles::{spawn_obstacle, PlayerPassedObstacle};
use blappy_birb::physics::CollisionEvent;
use blappy_birb::state::{AppState, GameState};
use blappy_birb::world::{Collider, Command, Entity, Marker, Query, Sound, Window, World};

const WINDOW: Window = Window { width: 640_000, height: 1_136_000 };

fn world() -> World {
    App::new(42).world
}

fn input() -> Input {
    Input {
        delta: 16_000_000,
        keyboard: false,
        touch: false,
        mouse: false,
        escape: false,
        loaded: false,
        window: Some(WINDOW),
        collisions: Vec::new(),
        readings: Vec::new(),
    }
}

fn markers(world: &World) -> Vec<Marker> {
    world.entities.iter().map(|e| e.marker).collect()
}

#[test]
fn camera_outlives_every_phase() {
    let mut world = world();
    setup_camera(&mut world);
    assert_eq!(world.entities, vec![new_picture(Marker::Camera, None, 0, 0)]);
}

#[test]
fn loading_screen_comes_and_goes() {
    let mut world = world();
    spawn_loading_screen(&mut world);
    assert_eq!(markers(&world), vec![Marker::LoadingScreen]);
    despawn_loading_screen(&mut world);
    assert!(world.entities.is_empty());
    assert_eq!(
        world.commands,
        vec![
            Command::Spawn(new_picture(Marker::LoadingScreen, None, 0, 0)),
            Command::Despawn(0)
        ]
    );
}

#[test]
fn missing_loading_screen_is_no_error() {
    let mut world = world();
    setup_camera(&mut world);
    world.commands.clear();
    despawn_loading_screen(&mut world);
    assert_eq!(world.entities.len(), 1);
    assert!(world.commands.is_empty());
}

#[test]
fn two_loading_screens_are_left_alone() {
    let mut world = world();
    spawn_loading_screen(&mut world);
    spawn_loading_screen(&mut world);
    world.commands.clear();
    despawn_loading_screen(&mut world);
    assert_eq!(world.entities.len(), 2);
    assert!(world.commands.is_empty());
}

#[test]
fn menu_is_asked_for_once_the_assets_are_loaded() {
    let mut world = world();
    continue_to_menu(&mut world, &input());
    assert_eq!(world.next_app_state, None);
    let mut loaded = input();
    loaded.loaded = true;
    continue_to_menu(&mut world, &loaded);
    assert_eq!(world.next_app_state, Some(AppState::Menu));
    assert_eq!(world.app_state, AppState::Loading);
}

#[test]
fn start_menu_lasts_as_long_as_the_menu() {
    let mut world = world();
    spawn_start_menu(&mut world);
    assert_eq!(markers(&world), vec![Marker::StartBackground, Marker::StartInstructions]);
    assert!(world.entities.iter().all(|e| e.scope == Some(AppState::Menu)));
}

#[test]
fn activation_in_the_menu_asks_for_a_run() {
    let mut world = world();
    start_game_on_input(&mut world);
    assert_eq!(world.next_app_state, None);
    world.presses.push(ButtonPressed);
    start_game_on_input(&mut world);
    assert_eq!(world.next_app_state, Some(AppState::InGame));
}

#[test]
fn activation_after_the_end_asks_for_the_menu() {
    let mut world = world();
    finish_game(&mut world);
    assert_eq!(world.next_app_state, None);
    world.presses.push(ButtonPressed);
    world.presses.push(ButtonPressed);
    finish_game(&mut world);
    assert_eq!(world.next_app_state, Some(AppState::Menu));
}

#[test]
fn ground_and_ceiling_span_the_window() {
    let mut world = world();
    spawn_ground_and_ceiling(&mut world, Some(WINDOW));
    assert_eq!(
        markers(&world),
        vec![Marker::Background, Marker::GroundTexture, Marker::Roof, Marker::Floor]
    );
    assert_eq!(world.entities[1].y, -500_000);
    let roof = Entity {
        id: 2,
        marker: Marker::Roof,
        scope: Some(AppState::InGame),
        x: -320_000,
        y: 568_000,
        vx: 0,
        vy: 0,
        collider: Collider::Cuboid { half_width: 640_000, half_height: 10_000 },
        scored: false,
    };
    assert_eq!(world.entities[2], roof);
    assert_eq!(world.entities[3], Entity { id: 3, marker: Marker::Floor, y: -568_000, ..roof });
    assert!(world.entities.iter().all(|e| e.scope == Some(AppState::InGame)));
}

#[test]
fn ground_and_ceiling_of_an_odd_window() {
    let mut world = world();
    spawn_ground_and_ceiling(&mut world, Some(Window { width: 7, height: u32::MAX }));
    assert_eq!(world.entities[2].x, -3);
    assert_eq!(world.entities[2].y, 2_147_483_647);
    assert_eq!(world.entities[3].y, -2_147_483_647);
    assert_eq!(
        world.entities[3].collider,
        Collider::Cuboid { half_width: 7, half_height: 10_000 }
    );
}

#[test]
fn no_window_no_ground() {
    let mut world = world();
    spawn_ground_and_ceiling(&mut world, None);
    assert!(world.entities.is_empty());
}

#[test]
fn score_display_is_told_the_score() {
    let mut world = world();
    setup_camera(&mut world);
    spawn_ui(&mut world);
    world.score.passed_obstactle();
    world.commands.clear();
    update_score(&mut world);
    assert_eq!(world.commands, vec![Command::ShowScore { id: 1, score: 100 }]);
}

#[test]
fn score_is_not_shown_without_exactly_one_display() {
    let mut world = world();
    update_score(&mut world);
    assert!(world.commands.is_empty());
    spawn_ui(&mut world);
    spawn_ui(&mut world);
    world.commands.clear();
    update_score(&mut world);
    assert!(world.commands.is_empty());
}

#[test]
fn every_obstacle_passed_is_rewarded() {
    let mut world = world();
    world.passed.push(PlayerPassedObstacle);
    world.passed.push(PlayerPassedObstacle);
    world.passed.push(PlayerPassedObstacle);
    player_scored(&mut world);
    assert_eq!(world.score.value(), 300);
    assert_eq!(world.commands, vec![Command::Play(Sound::Point); 3]);
    assert!(world.passed.is_empty());
    player_scored(&mut world);
    assert_eq!(world.score.value(), 300);
}

#[test]
fn collision_of_the_bird_ends_the_run() {
    let mut world = world();
    spawn_bird(&mut world);
    spawn_obstacle(&mut world, Some(WINDOW));
    world.commands.clear();
    detect_collisions(&mut world, &vec![CollisionEvent::Started(1, 0)]);
    assert_eq!(world.next_game_state, Some(GameState::GameOver));
    assert_eq!(world.game_state, GameState::Running);
    assert_eq!(world.commands, vec![Command::Play(Sound::Hit)]);
}

#[test]
fn several_collisions_in_a_frame_end_the_run_once() {
    let mut world = world();
    spawn_bird(&mut world);
    world.commands.clear();
    let events = vec![
        CollisionEvent::Started(0, 7),
        CollisionEvent::Started(8, 0),
        CollisionEvent::Stopped(0, 7),
    ];
    detect_collisions(&mut world, &events);
    assert_eq!(world.next_game_state, Some(GameState::GameOver));
    assert_eq!(world.commands, vec![Command::Play(Sound::Hit)]);
}

#[test]
fn end_of_a_contact_does_not_end_the_run() {
    let mut world = world();
    spawn_bird(&mut world);
    world.commands.clear();
    detect_collisions(&mut world, &vec![CollisionEvent::Stopped(0, 1)]);
    assert_eq!(world.next_game_state, None);
    assert!(world.commands.is_empty());
}

#[test]
fn collision_without_the_bird_does_not_end_the_run() {
    let mut world = world();
    spawn_bird(&mut world);
    spawn_obstacle(&mut world, Some(WINDOW));
    spawn_obstacle(&mut world, Some(WINDOW));
    world.commands.clear();
    let events = vec![CollisionEvent::Started(1, 2), CollisionEvent::Started(5, 6)];
    detect_collisions(&mut world, &events);
    assert_eq!(world.next_game_state, None);
    detect_collisions(&mut world, &Vec::new());
    assert_eq!(world.next_game_state, None);
    assert!(world.commands.is_empty());
}

#[test]
fn game_over_screen_belongs_to_the_run() {
    let mut world = world();
    spawn_game_over_ui(&mut world);
    assert_eq!(
        world.entities,
        vec![new_picture(Marker::GameOverScreen, Some(AppState::InGame), 0, 0)]
    );
}

#[test]
fn escape_quits() {
    let mut world = world();
    escape_to_quit(&mut world, &input());
    assert!(world.commands.is_empty());
    let mut pressed = input();
    pressed.escape = true;
    escape_to_quit(&mut world, &pressed);
    assert_eq!(world.commands, vec![Command::Exit]);
}

#[test]
fn queries_choose_by_scope_marker_and_place() {
    let mut world = world();
    spawn_start_menu(&mut world);
    spawn_bird(&mut world);
    assert_eq!(world.single(Query::Marked(Marker::Bird)).map(|e| e.id), Some(2));
    assert_eq!(world.single(Query::Scoped(AppState::Menu)), None);
    assert_eq!(world.single(Query::Marked(Marker::Obstacle)), None);
    assert!(world.is_marked(2, Marker::Bird));
    assert!(!world.is_marked(2, Marker::Obstacle));
    assert!(!world.is_marked(3, Marker::Bird));
    world.commands.clear();
    world.despawn(Query::Scoped(AppState::Menu));
    assert_eq!(markers(&world), vec![Marker::Bird]);
    assert_eq!(world.commands, vec![Command::Despawn(0), Command::Despawn(1)]);
}
