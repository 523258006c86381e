//! The obstacles: where they appear, when they count, and when they go.

use crate::application::App;
use crate::consts::{
    BIRB_X, BOTTOM_PIPE_OFFSET, OBSTACLE_HEIGHT, OBSTACLE_SPEED, OBSTACLE_WIDTH, SPAWN_HEIGHT_MAX,
    SPAWN_HEIGHT_MIN, TIME_BETWEEN_SPAWN, TOP_PIPE_OFFSET,
};
use crate::entropy::{Entropy, range_draw};
use crate::input::Input;
use crate::schedule::{Label, Registration, RunIf, System};
use crate::state::{AppState, GameState};
use crate::timer::RepeatingTimer;
use crate::world::{Change, Collider, Entity, Marker, Query, Window, World, WorldView};
use vstd::prelude::*;

verus! {

/// The bird has passed an obstacle.
#[derive(Clone, Copy, PartialEq, Eq, Debug, Default)]
pub struct PlayerPassedObstacle;

/// The position left of which an obstacle is out of sight.
pub open spec fn left_boundary(window: Window) -> int {
    -(window.width / 2) - OBSTACLE_WIDTH
}

/// The position at which a new obstacle appears, just out of sight.
pub open spec fn right_boundary(window: Window) -> int {
    window.width / 2 + OBSTACLE_WIDTH
}

/// A new obstacle at horizontal position `x` whose gap is centred on `height`.
pub open spec fn obstacle_at(x: int, height: i64) -> Entity {
    Entity {
        id: 0,
        marker: Marker::Obstacle,
        scope: Some(AppState::InGame),
        x: x as i64,
        y: height,
        vx: OBSTACLE_SPEED,
        vy: 0,
        collider: Collider::Barriers {
            half_width: OBSTACLE_WIDTH,
            half_height: OBSTACLE_HEIGHT,
            upper: TOP_PIPE_OFFSET,
            lower: BOTTOM_PIPE_OFFSET,
        },
        scored: false,
    }
}

/// `count` signals that an obstacle was passed.
pub open spec fn passes(count: nat) -> Seq<PlayerPassedObstacle> {
    Seq::new(count, |i: int| PlayerPassedObstacle)
}

/// The world after the obstacle timer has been started over.
pub open spec fn spec_reset_timer(w: WorldView) -> WorldView {
    WorldView { spawn_timer: w.spawn_timer.spec_reset(), ..w }
}

/// The world after a new run has been asked for and the score wiped.
pub open spec fn spec_reset_game_state(w: WorldView) -> WorldView {
    WorldView { next_game_state: Some(GameState::Running), score: 0, ..w }
}

/// The world after the obstacle generator has been set back to the seed.
pub open spec fn spec_reset_entropy(w: WorldView) -> WorldView {
    WorldView { word: w.seed, ..w }
}

/// The world after the obstacles that have scrolled out of sight on the left
/// are destroyed. Without a window nothing happens.
pub open spec fn spec_track_obstacle_movement(w: WorldView, window: Option<Window>) -> WorldView {
    match window {
        Some(window) => w.despawn(Query::ObstaclesLeftOf(left_boundary(window) as i64)),
        None => w,
    }
}

/// The world after every obstacle that has crossed the bird's position and
/// had not counted yet is marked as counted, with one signal for each.
pub open spec fn spec_score_obstacle(w: WorldView) -> WorldView {
    let query = Query::UnscoredLeftOf(BIRB_X);
    WorldView {
        passed: w.passed + passes(w.select(query).len()),
        ..w.modify(query, Change::Scored)
    }
}

/// The world after an obstacle has appeared at the right edge, at a height
/// drawn from the generator. Without a window nothing happens.
pub open spec fn spec_spawn_obstacle(w: WorldView, window: Option<Window>) -> WorldView {
    match window {
        Some(window) => {
            let draw = range_draw(w.word, SPAWN_HEIGHT_MIN, SPAWN_HEIGHT_MAX);
            (WorldView { word: draw.1, ..w }).spawn(obstacle_at(right_boundary(window), draw.0))
        },
        None => w,
    }
}

/// The world after the obstacle timer has advanced by the frame's time, and
/// an obstacle has appeared if the timer ran out.
pub open spec fn spec_spawn_obstacle_timed(w: WorldView, input: Input) -> WorldView {
    let ticked = WorldView { spawn_timer: w.spawn_timer.spec_tick(input.delta), ..w };
    if ticked.spawn_timer.spec_just_finished() {
        spec_spawn_obstacle(ticked, input.window)
    } else {
        ticked
    }
}

/// Starts the obstacle timer over, so that a new run does not inherit what
/// was left of the last period.
pub fn reset_timer(world: &mut World)
    ensures
        final(world)@ == spec_reset_timer(old(world)@),
{
    world.spawn_timer.reset();
}

/// Asks for the run to start and wipes the score.
pub fn reset_game_state(world: &mut World)
    ensures
        final(world)@ == spec_reset_game_state(old(world)@),
{
    world.next_game_state = Some(GameState::Running);
    world.score.reset();
}

/// Sets the obstacle generator back to the seed, so that each run meets the
/// same obstacles.
pub fn reset_entropy(world: &mut World)
    ensures
        final(world)@ == spec_reset_entropy(old(world)@),
{
    world.entropy = Entropy::with_seed(world.seed);
}

/// Destroys the obstacles that have scrolled out of sight on the left.
pub fn track_obstacle_movement(world: &mut World, window: Option<Window>)
    ensures
        final(world)@ == spec_track_obstacle_movement(old(world)@, window),
{
    if let Some(window) = window {
        let left: i64 = -((window.width / 2) as i64) - OBSTACLE_WIDTH;
        world.despawn(Query::ObstaclesLeftOf(left));
    }
}

/// Marks every obstacle that has crossed the bird's position and had not
/// counted yet, and signals each.
pub fn score_obstacle(world: &mut World)
    ensures
        final(world)@ == spec_score_obstacle(old(world)@),
{
    let ghost before = world@;
    let count = world.modify(Query::UnscoredLeftOf(BIRB_X), Change::Scored);
    let mut sent: usize = 0;
    while sent < count
        invariant
            sent <= count,
            world@ == (WorldView { passed: world.passed@, ..before.modify(
                Query::UnscoredLeftOf(BIRB_X),
                Change::Scored,
            ) }),
            world.passed@ == before.passed + passes(sent as nat),
        decreases count - sent,
    {
        world.passed.push(PlayerPassedObstacle);
        sent = sent + 1;
        assert(world.passed@ == before.passed + passes(sent as nat));
    }
}

/// Makes an obstacle appear at the right edge, at a height drawn from the
/// generator.
pub fn spawn_obstacle(world: &mut World, window: Option<Window>)
    ensures
        final(world)@ == spec_spawn_obstacle(old(world)@, window),
{
    if let Some(window) = window {
        let x: i64 = (window.width / 2) as i64 + OBSTACLE_WIDTH;
        let height = world.entropy.gen_range(SPAWN_HEIGHT_MIN, SPAWN_HEIGHT_MAX);
        world.spawn(
            Entity {
                id: 0,
                marker: Marker::Obstacle,
                scope: Some(AppState::InGame),
                x,
                y: height,
                vx: OBSTACLE_SPEED,
                vy: 0,
                collider: Collider::Barriers {
                    half_width: OBSTACLE_WIDTH,
                    half_height: OBSTACLE_HEIGHT,
                    upper: TOP_PIPE_OFFSET,
                    lower: BOTTOM_PIPE_OFFSET,
                },
                scored: false,
            },
        );
    }
}

/// Advances the obstacle timer by the frame's time and makes an obstacle
/// appear each time it runs out.
pub fn spawn_obstacle_timed(world: &mut World, input: &Input)
    ensures
        final(world)@ == spec_spawn_obstacle_timed(old(world)@, *input),
{
    world.spawn_timer.tick(input.delta);
    if world.spawn_timer.just_finished() {
        spawn_obstacle(world, input.window);
    }
}

/// Makes the obstacles appear, count and go.
#[derive(Clone, Copy, PartialEq, Eq, Debug, Default)]
pub struct ObstaclePlugin;

impl ObstaclePlugin {
    /// The passes of the plug-in. A run begins with the timer, the score
    /// and the generator set back, and only then with its first obstacle.
    pub open spec fn registrations() -> Seq<Registration> {
        seq![
            Registration {
                label: Label::OnEnter(AppState::InGame),
                system: System::ResetTimer,
                run_if: RunIf::Always,
            },
            Registration {
                label: Label::OnEnter(AppState::InGame),
                system: System::ResetGameState,
                run_if: RunIf::Always,
            },
            Registration {
                label: Label::OnEnter(AppState::InGame),
                system: System::ResetEntropy,
                run_if: RunIf::Always,
            },
            Registration {
                label: Label::OnEnter(AppState::InGame),
                system: System::SpawnObstacle,
                run_if: RunIf::Always,
            },
            Registration {
                label: Label::Update,
                system: System::TrackObstacleMovement,
                run_if: RunIf::InGame(GameState::Running),
            },
            Registration {
                label: Label::Update,
                system: System::ScoreObstacle,
                run_if: RunIf::InGame(GameState::Running),
            },
            Registration {
                label: Label::Update,
                system: System::SpawnObstacleTimed,
                run_if: RunIf::InGame(GameState::Running),
            },
        ]
    }

    /// Gives the application the obstacle timer and adds the plug-in's
    /// passes.
    pub fn build(&self, app: &mut App)
        ensures
            final(app).registrations@ == old(app).registrations@ + Self::registrations(),
            final(app).world@ == (WorldView {
                spawn_timer: RepeatingTimer::spec_new(TIME_BETWEEN_SPAWN),
                ..old(app).world@
            }),
    {
        app.world.spawn_timer = RepeatingTimer::new(TIME_BETWEEN_SPAWN);
        app.add_systems(Label::OnEnter(AppState::InGame), System::ResetTimer, RunIf::Always);
        app.add_systems(Label::OnEnter(AppState::InGame), System::ResetGameState, RunIf::Always);
        app.add_systems(Label::OnEnter(AppState::InGame), System::ResetEntropy, RunIf::Always);
        app.add_systems(Label::OnEnter(AppState::InGame), System::SpawnObstacle, RunIf::Always);
        app.add_systems(
            Label::Update,
            System::TrackObstacleMovement,
            RunIf::InGame(GameState::Running),
        );
        app.add_systems(Label::Update, System::ScoreObstacle, RunIf::InGame(GameState::Running));
        app.add_systems(
            Label::Update,
            System::SpawnObstacleTimed,
            RunIf::InGame(GameState::Running),
        );
    }
}

} // verus!
