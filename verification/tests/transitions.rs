use blappy_birb::{AppState, GameState};
use blappy_birb::application::App;
use blappy_birb::input::{ButtonPressed, Input};
use blappy_birb::obstacles::PlayerPassedObstacle;
use blappy_birb::schedule::{run_system, Label, RunIf, System};
use blappy_birb::world::{Command, Marker, Window};

fn idle() -> Input {
    Input {
        delta: 0,
        keyboard: false,
        touch: false,
        mouse: false,
        escape: false,
        loaded: true,
        window: Some(Window { width: 640_000, height: 1_136_000 }),
        collisions: Vec::new(),
        readings: Vec::new(),
    }
}

fn markers(app: &App) -> Vec<Marker> {
    app.world.entities.iter().map(|e| e.marker).collect()
}

#[test]
fn asking_for_the_active_phase_changes_nothing() {
    let mut app = App::game(42);
    app.startup(&idle());
    let before = app.world.entities.clone();
    app.world.next_app_state = Some(AppState::Loading);
    app.apply_app_transition(&idle());
    assert_eq!(app.world.next_app_state, None);
    assert_eq!(app.world.app_state, AppState::Loading);
    assert_eq!(app.world.entities, before);
    assert!(app.world.commands.is_empty());
}

#[test]
fn nothing_asked_nothing_entered() {
    let mut app = App::game(42);
    app.apply_app_transition(&idle());
    app.apply_game_transition(&idle());
    assert_eq!(app.world.app_state, AppState::Loading);
    assert_eq!(app.world.game_state, GameState::Running);
    assert!(app.world.entities.is_empty());
    assert!(app.world.commands.is_empty());
}

#[test]
fn old_phase_is_cleared_before_the_new_one_is_set_up() {
    let mut app = App::game(42);
    app.world.app_state = AppState::Menu;
    run_system(&mut app.world, System::SpawnStartMenu, &idle());
    app.world.commands.clear();
    app.world.next_app_state = Some(AppState::InGame);
    app.apply_app_transition(&idle());
    let commands = app.take_commands();
    assert_eq!(commands[0], Command::Despawn(0));
    assert_eq!(commands[1], Command::Despawn(1));
    assert!(commands[2..].iter().all(|c| matches!(c, Command::Spawn(_))));
    assert_eq!(commands.len(), 9);
    assert!(app.world.entities.iter().all(|e| e.scope == Some(AppState::InGame)));
    assert_eq!(app.world.app_state, AppState::InGame);
}

#[test]
fn leaving_a_run_destroys_all_of_it() {
    let mut app = App::game(42);
    app.world.app_state = AppState::InGame;
    run_system(&mut app.world, System::SetupCamera, &idle());
    run_system(&mut app.world, System::SpawnBird, &idle());
    run_system(&mut app.world, System::SpawnObstacle, &idle());
    run_system(&mut app.world, System::SpawnGroundAndCeiling, &idle());
    run_system(&mut app.world, System::SpawnUi, &idle());
    run_system(&mut app.world, System::SpawnGameOverUi, &idle());
    app.world.next_app_state = Some(AppState::Menu);
    app.apply_app_transition(&idle());
    assert_eq!(
        markers(&app),
        vec![Marker::Camera, Marker::StartBackground, Marker::StartInstructions]
    );
}

#[test]
fn inner_phase_changes_only_during_a_run() {
    let mut app = App::game(42);
    app.world.app_state = AppState::Menu;
    app.world.next_game_state = Some(GameState::GameOver);
    app.apply_game_transition(&idle());
    assert_eq!(app.world.game_state, GameState::Running);
    assert_eq!(app.world.next_game_state, None);
    assert!(app.world.entities.is_empty());
    assert!(app.world.physics_active);

    app.world.app_state = AppState::InGame;
    app.world.next_game_state = Some(GameState::GameOver);
    app.apply_game_transition(&idle());
    assert_eq!(app.world.game_state, GameState::GameOver);
    assert!(!app.world.physics_active);
    assert_eq!(markers(&app), vec![Marker::GameOverScreen]);
    assert_eq!(
        app.take_commands()[0],
        Command::SetPhysicsActive(false)
    );
}

#[test]
fn asking_for_the_active_inner_phase_changes_nothing() {
    let mut app = App::game(42);
    app.world.app_state = AppState::InGame;
    app.world.next_game_state = Some(GameState::Running);
    app.apply_game_transition(&idle());
    assert_eq!(app.world.next_game_state, None);
    assert!(app.world.commands.is_empty());
}

#[test]
fn passes_outside_their_phase_do_not_run() {
    let mut app = App::game(42);
    app.startup(&idle());
    app.update(&Input { loaded: false, ..idle() });
    app.world.app_state = AppState::InGame;
    app.world.game_state = GameState::GameOver;
    run_system(&mut app.world, System::SpawnBird, &idle());
    run_system(&mut app.world, System::SpawnObstacle, &idle());
    app.take_commands();
    let bird = app.world.entities[2];
    let commands = app.update(&Input { keyboard: true, delta: 5_000_000_000, ..idle() });
    assert_eq!(app.world.next_app_state, Some(AppState::Menu));
    assert_eq!(app.world.entities[2], bird);
    assert_eq!(app.world.entities.len(), 4);
    assert_eq!(app.world.spawn_timer.elapsed, 0);
    assert!(commands.is_empty());
}

#[test]
fn added_pass_runs_at_its_moment() {
    let mut app = App::new(1);
    app.add_systems(Label::Update, System::SpawnBird, RunIf::InState(AppState::Menu));
    app.add_systems(Label::Update, System::SetupCamera, RunIf::Always);
    app.update(&idle());
    assert_eq!(markers(&app), vec![Marker::Camera]);
    app.world.app_state = AppState::Menu;
    app.update(&idle());
    assert_eq!(markers(&app), vec![Marker::Camera, Marker::Bird, Marker::Camera]);
}

#[test]
fn commands_are_handed_over_once() {
    let mut app = App::game(42);
    run_system(&mut app.world, System::StopPhysics, &idle());
    assert_eq!(app.take_commands(), vec![Command::SetPhysicsActive(false)]);
    assert!(app.take_commands().is_empty());
}

#[test]
fn animation_at_the_largest_number_stands_still() {
    let mut app = App::game(42);
    app.world.animation.frame = usize::MAX;
    let before = app.world.animation;
    run_system(&mut app.world, System::AnimateBird, &Input { delta: 200_000_000, ..idle() });
    assert_eq!(app.world.animation, before);
    app.world.animation.indices.last = usize::MAX;
    run_system(&mut app.world, System::AnimateBird, &Input { delta: 200_000_000, ..idle() });
    assert_eq!(app.world.animation.frame, 0);
    assert_eq!(app.take_commands(), vec![Command::ShowFrame(0)]);
}

#[test]
fn every_pass_runs_by_its_name() {
    let mut app = App::game(42);
    app.world.presses.push(ButtonPressed);
    app.world.passed.push(PlayerPassedObstacle);
    run_system(&mut app.world, System::PlayerScored, &idle());
    assert_eq!(app.world.score.value(), 100);
    run_system(&mut app.world, System::StartGameOnInput, &idle());
    assert_eq!(app.world.next_app_state, Some(AppState::InGame));
    run_system(&mut app.world, System::FinishGame, &idle());
    assert_eq!(app.world.next_app_state, Some(AppState::Menu));
    run_system(&mut app.world, System::ResetGameState, &idle());
    assert_eq!(app.world.score.value(), 0);
    let two_seconds = Input { delta: 2_000_000_000, ..idle() };
    run_system(&mut app.world, System::SpawnObstacleTimed, &two_seconds);
    run_system(&mut app.world, System::ResetEntropy, &idle());
    run_system(&mut app.world, System::ResetTimer, &idle());
    run_system(&mut app.world, System::SpawnObstacle, &idle());
    assert_eq!(app.world.entities[0].y, app.world.entities[1].y);
    run_system(&mut app.world, System::ListenForInput, &Input { mouse: true, ..idle() });
    assert_eq!(app.world.presses.len(), 2);
    run_system(&mut app.world, System::EscapeToQuit, &Input { escape: true, ..idle() });
    assert_eq!(app.world.commands.last(), Some(&Command::Exit));
}
