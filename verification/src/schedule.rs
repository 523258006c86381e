//! The passes of the game by name, the moments at which they run, and the
//! list that says which pass runs when.

use crate::bird::{
    animate_bird, flap_bird, spawn_bird, spec_animate_bird, spec_flap_bird, spec_spawn_bird,
};
use crate::consts::OBSTACLE_REWARD;
use crate::game::{
    continue_to_menu, despawn_loading_screen, detect_collisions, escape_to_quit, finish_game,
    player_scored, score_has_room, setup_camera, spawn_game_over_ui, spawn_ground_and_ceiling,
    spawn_loading_screen, spawn_start_menu, spawn_ui, spec_continue_to_menu,
    spec_despawn_loading_screen, spec_detect_collisions, spec_escape_to_quit, spec_finish_game,
    spec_player_scored, spec_setup_camera, spec_spawn_game_over_ui, spec_spawn_ground_and_ceiling,
    spec_spawn_loading_screen, spec_spawn_start_menu, spec_spawn_ui, spec_start_game_on_input,
    spec_update_score, start_game_on_input, update_score,
};
use crate::input::{Input, listen_for_input, spec_listen_for_input};
use crate::obstacles::{
    reset_entropy, reset_game_state, reset_timer, score_obstacle, spawn_obstacle,
    spawn_obstacle_timed, spec_reset_entropy, spec_reset_game_state, spec_reset_timer,
    spec_score_obstacle, spec_spawn_obstacle, spec_spawn_obstacle_timed,
    spec_track_obstacle_movement, track_obstacle_movement,
};
use crate::physics::{spec_start_physics, spec_stop_physics, start_physics, stop_physics};
use crate::state::{AppState, GameState};
use crate::world::{World, WorldView};
use vstd::prelude::*;

verus! {

/// A pass of the game.
#[derive(Clone, Copy, PartialEq, Eq, Hash, Debug, Structural)]
pub enum System {
    /// Makes the camera.
    SetupCamera,
    /// Shows the loading screen.
    SpawnLoadingScreen,
    /// Takes the loading screen away.
    DespawnLoadingScreen,
    /// Asks for the menu once the assets are loaded.
    ContinueToMenu,
    /// Shows the start screen.
    SpawnStartMenu,
    /// Asks for a run on an activation.
    StartGameOnInput,
    /// Makes the surroundings of a run.
    SpawnGroundAndCeiling,
    /// Makes the score display.
    SpawnUi,
    /// Ends the run where the bird has hit something.
    DetectCollisions,
    /// Rewards the player for the obstacles passed.
    PlayerScored,
    /// Tells the score display the score.
    UpdateScore,
    /// Shows that the run has ended.
    SpawnGameOverUi,
    /// Asks for the menu on an activation.
    FinishGame,
    /// Quits on the escape key.
    EscapeToQuit,
    /// Lets the physics simulation advance.
    StartPhysics,
    /// Freezes the physics simulation.
    StopPhysics,
    /// Makes the bird.
    SpawnBird,
    /// Lets the activations reach the bird.
    FlapBird,
    /// Advances the bird's animation.
    AnimateBird,
    /// Announces the frame's activation.
    ListenForInput,
    /// Starts the obstacle timer over.
    ResetTimer,
    /// Asks for the run to start and wipes the score.
    ResetGameState,
    /// Sets the obstacle generator back to the seed.
    ResetEntropy,
    /// Makes an obstacle.
    SpawnObstacle,
    /// Destroys the obstacles that are out of sight.
    TrackObstacleMovement,
    /// Counts the obstacles that the bird has passed.
    ScoreObstacle,
    /// Makes an obstacle each time the obstacle timer runs out.
    SpawnObstacleTimed,
}

/// A moment at which passes run.
#[derive(Clone, Copy, PartialEq, Eq, Hash, Debug)]
pub enum Label {
    /// Once, before the first frame.
    Startup,
    /// When an outer phase begins.
    OnEnter(AppState),
    /// When an outer phase ends.
    OnExit(AppState),
    /// When an inner phase begins.
    OnEnterGame(GameState),
    /// In every frame.
    Update,
}

/// The phases in which a pass runs.
#[derive(Clone, Copy, PartialEq, Eq, Hash, Debug)]
pub enum RunIf {
    /// In all of them.
    Always,
    /// In one outer phase.
    InState(AppState),
    /// During a run, in one inner phase.
    InGame(GameState),
}

/// One entry of the list: a pass, the moment at which it runs, and the
/// phases in which it does.
#[derive(Clone, Copy, PartialEq, Eq, Hash, Debug)]
pub struct Registration {
    /// The moment at which the pass runs.
    pub label: Label,
    /// The pass.
    pub system: System,
    /// The phases in which the pass runs.
    pub run_if: RunIf,
}

impl Label {
    /// Whether the two moments are the same.
    pub fn same(&self, other: &Label) -> (equal: bool)
        ensures
            equal == (*self == *other),
    {
        match (*self, *other) {
            (Label::Startup, Label::Startup) => true,
            (Label::OnEnter(a), Label::OnEnter(b)) => a == b,
            (Label::OnExit(a), Label::OnExit(b)) => a == b,
            (Label::OnEnterGame(a), Label::OnEnterGame(b)) => a == b,
            (Label::Update, Label::Update) => true,
            _ => false,
        }
    }
}

impl RunIf {
    /// Whether the condition holds in these phases.
    pub open spec fn spec_holds(self, app_state: AppState, game_state: GameState) -> bool {
        match self {
            RunIf::Always => true,
            RunIf::InState(state) => app_state == state,
            RunIf::InGame(state) => app_state == AppState::InGame && game_state == state,
        }
    }

    /// Whether the condition holds in these phases.
    pub fn holds(&self, app_state: AppState, game_state: GameState) -> (held: bool)
        ensures
            held == self.spec_holds(app_state, game_state),
    {
        match self {
            RunIf::Always => true,
            RunIf::InState(state) => app_state == *state,
            RunIf::InGame(state) => app_state == AppState::InGame && game_state == *state,
        }
    }
}

impl Registration {
    /// Whether the entry's pass runs at `label` in the phases of `w`.
    pub open spec fn spec_enabled(self, label: Label, w: WorldView) -> bool {
        self.label == label && self.run_if.spec_holds(w.app_state, w.game_state)
    }
}

/// The world after one pass. A pass that would take the score or the
/// animation past what the machine can count is left out.
#[verifier::opaque]
pub open spec fn spec_run_system(w: WorldView, system: System, input: Input) -> WorldView {
    match system {
        System::SetupCamera => spec_setup_camera(w),
        System::SpawnLoadingScreen => spec_spawn_loading_screen(w),
        System::DespawnLoadingScreen => spec_despawn_loading_screen(w),
        System::ContinueToMenu => spec_continue_to_menu(w, input),
        System::SpawnStartMenu => spec_spawn_start_menu(w),
        System::StartGameOnInput => spec_start_game_on_input(w),
        System::SpawnGroundAndCeiling => spec_spawn_ground_and_ceiling(w, input.window),
        System::SpawnUi => spec_spawn_ui(w),
        System::DetectCollisions => spec_detect_collisions(w, input.collisions@),
        System::PlayerScored => if score_has_room(w) {
            spec_player_scored(w)
        } else {
            w
        },
        System::UpdateScore => spec_update_score(w),
        System::SpawnGameOverUi => spec_spawn_game_over_ui(w),
        System::FinishGame => spec_finish_game(w),
        System::EscapeToQuit => spec_escape_to_quit(w, input),
        System::StartPhysics => spec_start_physics(w),
        System::StopPhysics => spec_stop_physics(w),
        System::SpawnBird => spec_spawn_bird(w),
        System::FlapBird => spec_flap_bird(w),
        System::AnimateBird => if w.animation.indices.can_follow(w.animation.frame) {
            spec_animate_bird(w, input)
        } else {
            w
        },
        System::ListenForInput => spec_listen_for_input(w, input),
        System::ResetTimer => spec_reset_timer(w),
        System::ResetGameState => spec_reset_game_state(w),
        System::ResetEntropy => spec_reset_entropy(w),
        System::SpawnObstacle => spec_spawn_obstacle(w, input.window),
        System::TrackObstacleMovement => spec_track_obstacle_movement(w, input.window),
        System::ScoreObstacle => spec_score_obstacle(w),
        System::SpawnObstacleTimed => spec_spawn_obstacle_timed(w, input),
    }
}

/// The world after the passes that `registrations` holds from entry `from`
/// on, and that run at `label` in the world's phases, have run in the order
/// of the list.
pub open spec fn spec_run_from(
    w: WorldView,
    registrations: Seq<Registration>,
    label: Label,
    input: Input,
    from: int,
) -> WorldView
    decreases registrations.len() - from,
{
    if from < 0 || from >= registrations.len() {
        w
    } else if registrations[from].spec_enabled(label, w) {
        spec_run_from(
            spec_run_system(w, registrations[from].system, input),
            registrations,
            label,
            input,
            from + 1,
        )
    } else {
        spec_run_from(w, registrations, label, input, from + 1)
    }
}

/// The world after the passes of `registrations` that run at `label` in the
/// world's phases have run in the order of the list.
pub open spec fn spec_run_schedule(
    w: WorldView,
    registrations: Seq<Registration>,
    label: Label,
    input: Input,
) -> WorldView {
    spec_run_from(w, registrations, label, input, 0)
}

/// Runs one pass.
pub fn run_system(world: &mut World, system: System, input: &Input)
    ensures
        final(world)@ == spec_run_system(old(world)@, system, *input),
{
    reveal(spec_run_system);
    match system {
        System::SetupCamera => setup_camera(world),
        System::SpawnLoadingScreen => spawn_loading_screen(world),
        System::DespawnLoadingScreen => despawn_loading_screen(world),
        System::ContinueToMenu => continue_to_menu(world, input),
        System::SpawnStartMenu => spawn_start_menu(world),
        System::StartGameOnInput => start_game_on_input(world),
        System::SpawnGroundAndCeiling => spawn_ground_and_ceiling(world, input.window),
        System::SpawnUi => spawn_ui(world),
        System::DetectCollisions => detect_collisions(world, &input.collisions),
        System::PlayerScored => {
            if world.passed.len() <= (usize::MAX - world.score.value()) / OBSTACLE_REWARD {
                player_scored(world);
            }
        },
        System::UpdateScore => update_score(world),
        System::SpawnGameOverUi => spawn_game_over_ui(world),
        System::FinishGame => finish_game(world),
        System::EscapeToQuit => escape_to_quit(world, input),
        System::StartPhysics => start_physics(world),
        System::StopPhysics => stop_physics(world),
        System::SpawnBird => spawn_bird(world),
        System::FlapBird => flap_bird(world),
        System::AnimateBird => {
            if world.animation.frame == world.animation.indices.last || world.animation.frame
                < usize::MAX {
                animate_bird(world, input);
            }
        },
        System::ListenForInput => listen_for_input(world, input),
        System::ResetTimer => reset_timer(world),
        System::ResetGameState => reset_game_state(world),
        System::ResetEntropy => reset_entropy(world),
        System::SpawnObstacle => spawn_obstacle(world, input.window),
        System::TrackObstacleMovement => track_obstacle_movement(world, input.window),
        System::ScoreObstacle => score_obstacle(world),
        System::SpawnObstacleTimed => spawn_obstacle_timed(world, input),
    }
}

/// Runs the passes of `registrations` that run at `label` in the world's
/// phases, in the order of the list.
pub fn run_schedule(
    world: &mut World,
    registrations: &Vec<Registration>,
    label: Label,
    input: &Input,
)
    ensures
        final(world)@ == spec_run_schedule(old(world)@, registrations@, label, *input),
{
    let mut i: usize = 0;
    while i < registrations.len()
        invariant
            i <= registrations.len(),
            spec_run_from(world@, registrations@, label, *input, i as int) == spec_run_schedule(
                old(world)@,
                registrations@,
                label,
                *input,
            ),
        decreases registrations.len() - i,
    {
        let registration = registrations[i];
        if registration.label.same(&label) && registration.run_if.holds(
            world.app_state,
            world.game_state,
        ) {
            run_system(world, registration.system, input);
        }
        i = i + 1;
    }
}

} // verus!
