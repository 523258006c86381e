//! The score, and what starts and ends a run.

use crate::application::App;
use crate::consts::{BOUNDARY_THICKNESS, GROUND_TEXTURE_Y, OBSTACLE_REWARD};
use crate::input::Input;
use crate::physics::CollisionEvent;
use crate::schedule::{Label, Registration, RunIf, System};
use crate::state::{AppState, GameState};
use crate::world::{Collider, Command, Entity, Marker, Query, Sound, Window, World, WorldView};
use vstd::prelude::*;

verus! {

/// The points of the current run.
#[derive(Debug)]
pub struct Score {
    score: usize,
}

impl View for Score {
    type V = nat;

    closed spec fn view(&self) -> nat {
        self.score as nat
    }
}

impl Default for Score {
    fn default() -> (score: Self)
        ensures
            score@ == 0,
    {
        Score { score: 0 }
    }
}

impl Score {
    /// Adds the reward for one obstacle.
    pub fn passed_obstactle(&mut self)
        requires
            old(self)@ + OBSTACLE_REWARD <= usize::MAX,
        ensures
            final(self)@ == old(self)@ + OBSTACLE_REWARD,
    {
        self.score += OBSTACLE_REWARD;
    }

    /// Sets the points back to zero.
    pub fn reset(&mut self)
        ensures
            final(self)@ == 0,
    {
        self.score = 0;
    }

    /// The points.
    pub fn value(&self) -> (points: usize)
        ensures
            points == self@,
    {
        self.score
    }
}

/// An entity that is only shown: it has no body and does not move.
pub open spec fn picture(marker: Marker, scope: Option<AppState>, x: i64, y: i64) -> Entity {
    Entity { id: 0, marker, scope, x, y, vx: 0, vy: 0, collider: Collider::Nothing, scored: false }
}

/// The collider above the play area, where `side` is 1, or the one below it,
/// where `side` is -1: as wide as the window, and centred on its left edge.
pub open spec fn boundary(marker: Marker, window: Window, side: int) -> Entity {
    Entity {
        id: 0,
        marker,
        scope: Some(AppState::InGame),
        x: (-(window.width / 2)) as i64,
        y: (side * (window.height / 2)) as i64,
        vx: 0,
        vy: 0,
        collider: Collider::Cuboid {
            half_width: window.width as i64,
            half_height: BOUNDARY_THICKNESS,
        },
        scored: false,
    }
}

/// `count` orders to play the sound of a point.
pub open spec fn points(count: nat) -> Seq<Command> {
    Seq::new(count, |i: int| Command::Play(Sound::Point))
}

/// Whether `event` says that a bird has begun to touch something.
pub open spec fn is_hit(w: WorldView, event: CollisionEvent) -> bool {
    match event {
        CollisionEvent::Started(first, second) => w.is_marked(first, Marker::Bird) || w.is_marked(
            second,
            Marker::Bird,
        ),
        CollisionEvent::Stopped(_, _) => false,
    }
}

/// Whether any of `collisions` says that a bird has begun to touch something.
pub open spec fn bird_hit(w: WorldView, collisions: Seq<CollisionEvent>) -> bool {
    exists|k: int| 0 <= k < collisions.len() && is_hit(w, #[trigger] collisions[k])
}

/// The world with a camera.
pub open spec fn spec_setup_camera(w: WorldView) -> WorldView {
    w.spawn(picture(Marker::Camera, None, 0, 0))
}

/// The world with the loading screen.
pub open spec fn spec_spawn_loading_screen(w: WorldView) -> WorldView {
    w.spawn(picture(Marker::LoadingScreen, None, 0, 0))
}

/// The world without the loading screen. Where there is not exactly one,
/// nothing happens.
pub open spec fn spec_despawn_loading_screen(w: WorldView) -> WorldView {
    if w.select(Query::Marked(Marker::LoadingScreen)).len() == 1 {
        w.despawn(Query::Marked(Marker::LoadingScreen))
    } else {
        w
    }
}

/// The world after the loading phase has asked for the menu, which it does
/// once the assets are loaded.
pub open spec fn spec_continue_to_menu(w: WorldView, input: Input) -> WorldView {
    if input.loaded {
        WorldView { next_app_state: Some(AppState::Menu), ..w }
    } else {
        w
    }
}

/// The world with the start screen, which lasts as long as the menu.
pub open spec fn spec_spawn_start_menu(w: WorldView) -> WorldView {
    w.spawn(picture(Marker::StartBackground, Some(AppState::Menu), 0, 0)).spawn(
        picture(Marker::StartInstructions, Some(AppState::Menu), 0, 0),
    )
}

/// The world after the menu has asked for a run, which it does on an
/// activation.
pub open spec fn spec_start_game_on_input(w: WorldView) -> WorldView {
    if w.presses.len() > 0 {
        WorldView { next_app_state: Some(AppState::InGame), ..w }
    } else {
        w
    }
}

/// The world with the backdrop, the ground, and the colliders above and
/// below the play area. Without a window nothing happens.
pub open spec fn spec_spawn_ground_and_ceiling(w: WorldView, window: Option<Window>) -> WorldView {
    match window {
        Some(window) => w.spawn(picture(Marker::Background, Some(AppState::InGame), 0, 0)).spawn(
            picture(Marker::GroundTexture, Some(AppState::InGame), 0, GROUND_TEXTURE_Y),
        ).spawn(boundary(Marker::Roof, window, 1)).spawn(boundary(Marker::Floor, window, -1)),
        None => w,
    }
}

/// The world with the score display.
pub open spec fn spec_spawn_ui(w: WorldView) -> WorldView {
    w.spawn(picture(Marker::ScoreDisplay, Some(AppState::InGame), 0, 0))
}

/// The world after the score display has been told the score. Where there
/// is not exactly one display, nothing happens.
pub open spec fn spec_update_score(w: WorldView) -> WorldView {
    let displays = w.select(Query::Marked(Marker::ScoreDisplay));
    if displays.len() == 1 {
        WorldView {
            commands: w.commands.push(
                Command::ShowScore { id: displays[0].id, score: w.score as usize },
            ),
            ..w
        }
    } else {
        w
    }
}

/// Whether the score can take the reward for every obstacle passed in this
/// frame.
pub open spec fn score_has_room(w: WorldView) -> bool {
    w.score + OBSTACLE_REWARD * w.passed.len() <= usize::MAX
}

/// The world after the reward for every obstacle passed in this frame has
/// been added to the score, with the sound of a point for each.
pub open spec fn spec_player_scored(w: WorldView) -> WorldView {
    WorldView {
        score: w.score + OBSTACLE_REWARD as nat * w.passed.len(),
        commands: w.commands + points(w.passed.len()),
        passed: Seq::empty(),
        ..w
    }
}

/// The world after the frame's collisions have been looked at: where a bird
/// has begun to touch something, the end of the run is asked for and the
/// sound of the hit is played, once, however many collisions there were.
pub open spec fn spec_detect_collisions(
    w: WorldView,
    collisions: Seq<CollisionEvent>,
) -> WorldView {
    if bird_hit(w, collisions) {
        WorldView {
            next_game_state: Some(GameState::GameOver),
            commands: w.commands.push(Command::Play(Sound::Hit)),
            ..w
        }
    } else {
        w
    }
}

/// The world with the picture that says the run has ended.
pub open spec fn spec_spawn_game_over_ui(w: WorldView) -> WorldView {
    w.spawn(picture(Marker::GameOverScreen, Some(AppState::InGame), 0, 0))
}

/// The world after the ended run has asked for the menu, which it does on an
/// activation.
pub open spec fn spec_finish_game(w: WorldView) -> WorldView {
    if w.presses.len() > 0 {
        WorldView { next_app_state: Some(AppState::Menu), ..w }
    } else {
        w
    }
}

/// The world after the escape key has been looked at: where it went down,
/// the host is told to quit.
pub open spec fn spec_escape_to_quit(w: WorldView, input: Input) -> WorldView {
    if input.escape {
        WorldView { commands: w.commands.push(Command::Exit), ..w }
    } else {
        w
    }
}

/// An entity that is only shown.
pub fn new_picture(marker: Marker, scope: Option<AppState>, x: i64, y: i64) -> (entity: Entity)
    ensures
        entity == picture(marker, scope, x, y),
{
    Entity { id: 0, marker, scope, x, y, vx: 0, vy: 0, collider: Collider::Nothing, scored: false }
}

/// Makes the camera.
pub fn setup_camera(world: &mut World)
    ensures
        final(world)@ == spec_setup_camera(old(world)@),
{
    world.spawn(new_picture(Marker::Camera, None, 0, 0));
}

/// Shows the loading screen.
pub fn spawn_loading_screen(world: &mut World)
    ensures
        final(world)@ == spec_spawn_loading_screen(old(world)@),
{
    world.spawn(new_picture(Marker::LoadingScreen, None, 0, 0));
}

/// Takes the loading screen away.
pub fn despawn_loading_screen(world: &mut World)
    ensures
        final(world)@ == spec_despawn_loading_screen(old(world)@),
{
    if world.single(Query::Marked(Marker::LoadingScreen)).is_some() {
        world.despawn(Query::Marked(Marker::LoadingScreen));
    }
}

/// Asks for the menu once the assets are loaded.
pub fn continue_to_menu(world: &mut World, input: &Input)
    ensures
        final(world)@ == spec_continue_to_menu(old(world)@, *input),
{
    if input.loaded {
        world.next_app_state = Some(AppState::Menu);
    }
}

/// Shows the start screen.
pub fn spawn_start_menu(world: &mut World)
    ensures
        final(world)@ == spec_spawn_start_menu(old(world)@),
{
    world.spawn(new_picture(Marker::StartBackground, Some(AppState::Menu), 0, 0));
    world.spawn(new_picture(Marker::StartInstructions, Some(AppState::Menu), 0, 0));
}

/// Asks for a run on an activation.
pub fn start_game_on_input(world: &mut World)
    ensures
        final(world)@ == spec_start_game_on_input(old(world)@),
{
    if world.presses.len() > 0 {
        world.next_app_state = Some(AppState::InGame);
    }
}

/// Makes the backdrop, the ground, and the colliders above and below the
/// play area.
pub fn spawn_ground_and_ceiling(world: &mut World, window: Option<Window>)
    ensures
        final(world)@ == spec_spawn_ground_and_ceiling(old(world)@, window),
{
    if let Some(window) = window {
        let left: i64 = -((window.width / 2) as i64);
        let top: i64 = (window.height / 2) as i64;
        let collider = Collider::Cuboid {
            half_width: window.width as i64,
            half_height: BOUNDARY_THICKNESS,
        };
        world.spawn(new_picture(Marker::Background, Some(AppState::InGame), 0, 0));
        world.spawn(
            new_picture(Marker::GroundTexture, Some(AppState::InGame), 0, GROUND_TEXTURE_Y),
        );
        world.spawn(
            Entity {
                id: 0,
                marker: Marker::Roof,
                scope: Some(AppState::InGame),
                x: left,
                y: top,
                vx: 0,
                vy: 0,
                collider,
                scored: false,
            },
        );
        world.spawn(
            Entity {
                id: 0,
                marker: Marker::Floor,
                scope: Some(AppState::InGame),
                x: left,
                y: -top,
                vx: 0,
                vy: 0,
                collider,
                scored: false,
            },
        );
    }
}

/// Makes the score display.
pub fn spawn_ui(world: &mut World)
    ensures
        final(world)@ == spec_spawn_ui(old(world)@),
{
    world.spawn(new_picture(Marker::ScoreDisplay, Some(AppState::InGame), 0, 0));
}

/// Tells the score display the score.
pub fn update_score(world: &mut World)
    ensures
        final(world)@ == spec_update_score(old(world)@),
{
    if let Some(display) = world.single(Query::Marked(Marker::ScoreDisplay)) {
        world.commands.push(Command::ShowScore { id: display.id, score: world.score.value() });
    }
}

/// Adds the reward for every obstacle passed in this frame to the score, and
/// plays the sound of a point for each.
pub fn player_scored(world: &mut World)
    requires
        score_has_room(old(world)@),
    ensures
        final(world)@ == spec_player_scored(old(world)@),
{
    let ghost before = world@;
    let count = world.passed.len();
    let mut i: usize = 0;
    while i < count
        invariant
            i <= count,
            count == before.passed.len(),
            score_has_room(before),
            world@ == (WorldView { score: world.score@, commands: world.commands@, ..before }),
            world.score@ == before.score + OBSTACLE_REWARD * i,
            world.commands@ == before.commands + points(i as nat),
        decreases count - i,
    {
        assert(OBSTACLE_REWARD * (i + 1) <= OBSTACLE_REWARD * count) by (nonlinear_arith)
            requires
                i + 1 <= count,
        ;
        world.score.passed_obstactle();
        world.commands.push(Command::Play(Sound::Point));
        i = i + 1;
        assert(world.commands@ == before.commands + points(i as nat));
    }
    world.passed.clear();
}

/// Looks at the frame's collisions and ends the run where a bird has begun
/// to touch something.
pub fn detect_collisions(world: &mut World, collisions: &Vec<CollisionEvent>)
    ensures
        final(world)@ == spec_detect_collisions(old(world)@, collisions@),
{
    let mut hit = false;
    let mut i: usize = 0;
    while i < collisions.len()
        invariant
            i <= collisions.len(),
            world@ == old(world)@,
            hit == bird_hit(world@, collisions@.take(i as int)),
        decreases collisions.len() - i,
    {
        let struck = match collisions[i] {
            CollisionEvent::Started(first, second) => world.is_marked(first, Marker::Bird)
                || world.is_marked(second, Marker::Bird),
            CollisionEvent::Stopped(_, _) => false,
        };
        proof {
            let seen = collisions@.take(i as int);
            let more = collisions@.take(i + 1);
            assert(struck == is_hit(world@, more[i as int]));
            assert(forall|k: int| 0 <= k < i ==> seen[k] == more[k]);
            if bird_hit(world@, more) && !struck {
                let k = choose|k: int| 0 <= k < more.len() && is_hit(world@, #[trigger] more[k]);
                assert(is_hit(world@, seen[k]));
            }
            if hit {
                let k = choose|k: int| 0 <= k < seen.len() && is_hit(world@, #[trigger] seen[k]);
                assert(is_hit(world@, more[k]));
            }
        }
        if struck {
            hit = true;
        }
        i = i + 1;
    }
    assert(collisions@.take(i as int) == collisions@);
    if hit {
        world.next_game_state = Some(GameState::GameOver);
        world.commands.push(Command::Play(Sound::Hit));
    }
}

/// Shows that the run has ended.
pub fn spawn_game_over_ui(world: &mut World)
    ensures
        final(world)@ == spec_spawn_game_over_ui(old(world)@),
{
    world.spawn(new_picture(Marker::GameOverScreen, Some(AppState::InGame), 0, 0));
}

/// Asks for the menu on an activation.
pub fn finish_game(world: &mut World)
    ensures
        final(world)@ == spec_finish_game(old(world)@),
{
    if world.presses.len() > 0 {
        world.next_app_state = Some(AppState::Menu);
    }
}

/// Tells the host to quit where the escape key went down.
pub fn escape_to_quit(world: &mut World, input: &Input)
    ensures
        final(world)@ == spec_escape_to_quit(old(world)@, *input),
{
    if input.escape {
        world.commands.push(Command::Exit);
    }
}

/// Shows the screens, keeps the score, and starts and ends the runs.
#[derive(Clone, Copy, PartialEq, Eq, Debug, Default)]
pub struct GamePlugin;

impl GamePlugin {
    /// The passes of the plug-in.
    pub open spec fn registrations() -> Seq<Registration> {
        seq![
            Registration {
                label: Label::Startup,
                system: System::SetupCamera,
                run_if: RunIf::Always,
            },
            Registration {
                label: Label::OnEnter(AppState::Loading),
                system: System::SpawnLoadingScreen,
                run_if: RunIf::Always,
            },
            Registration {
                label: Label::OnExit(AppState::Loading),
                system: System::DespawnLoadingScreen,
                run_if: RunIf::Always,
            },
            Registration {
                label: Label::OnEnter(AppState::Menu),
                system: System::SpawnStartMenu,
                run_if: RunIf::Always,
            },
            Registration {
                label: Label::Update,
                system: System::StartGameOnInput,
                run_if: RunIf::InState(AppState::Menu),
            },
            Registration {
                label: Label::OnEnter(AppState::InGame),
                system: System::SpawnGroundAndCeiling,
                run_if: RunIf::Always,
            },
            Registration {
                label: Label::OnEnter(AppState::InGame),
                system: System::SpawnUi,
                run_if: RunIf::Always,
            },
            Registration {
                label: Label::Update,
                system: System::DetectCollisions,
                run_if: RunIf::InGame(GameState::Running),
            },
            Registration {
                label: Label::Update,
                system: System::PlayerScored,
                run_if: RunIf::InGame(GameState::Running),
            },
            Registration {
                label: Label::Update,
                system: System::UpdateScore,
                run_if: RunIf::InGame(GameState::Running),
            },
            Registration {
                label: Label::OnEnterGame(GameState::GameOver),
                system: System::SpawnGameOverUi,
                run_if: RunIf::Always,
            },
            Registration {
                label: Label::Update,
                system: System::FinishGame,
                run_if: RunIf::InGame(GameState::GameOver),
            },
        ]
    }

    /// Gives the application a score of zero and adds the plug-in's passes.
    pub fn build(&self, app: &mut App)
        ensures
            final(app).registrations@ == old(app).registrations@ + Self::registrations(),
            final(app).world@ == (WorldView { score: 0, ..old(app).world@ }),
    {
        app.world.score = Score::default();
        app.add_systems(Label::Startup, System::SetupCamera, RunIf::Always);
        app.add_systems(
            Label::OnEnter(AppState::Loading),
            System::SpawnLoadingScreen,
            RunIf::Always,
        );
        app.add_systems(
            Label::OnExit(AppState::Loading),
            System::DespawnLoadingScreen,
            RunIf::Always,
        );
        app.add_systems(Label::OnEnter(AppState::Menu), System::SpawnStartMenu, RunIf::Always);
        app.add_systems(Label::Update, System::StartGameOnInput, RunIf::InState(AppState::Menu));
        app.add_systems(
            Label::OnEnter(AppState::InGame),
            System::SpawnGroundAndCeiling,
            RunIf::Always,
        );
        app.add_systems(Label::OnEnter(AppState::InGame), System::SpawnUi, RunIf::Always);
        app.add_systems(Label::Update, System::DetectCollisions, RunIf::InGame(GameState::Running));
        app.add_systems(Label::Update, System::PlayerScored, RunIf::InGame(GameState::Running));
        app.add_systems(Label::Update, System::UpdateScore, RunIf::InGame(GameState::Running));
        app.add_systems(
            Label::OnEnterGame(GameState::GameOver),
            System::SpawnGameOverUi,
            RunIf::Always,
        );
        app.add_systems(Label::Update, System::FinishGame, RunIf::InGame(GameState::GameOver));
    }
}

} // verus!
