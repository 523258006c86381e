//! The bird: where it starts, how it flaps, and how it beats its wings.

use crate::application::App;
use crate::consts::{BIRB_RADIUS, BIRB_X, BIRB_Y, JUMP_VELOCITY, TIME_BETWEEN_FRAMES};
use crate::input::Input;
use crate::schedule::{Label, Registration, RunIf, System};
use crate::state::{AppState, GameState};
use crate::timer::RepeatingTimer;
use crate::world::{Change, Collider, Command, Entity, Marker, Query, World, WorldView};
use vstd::prelude::*;

verus! {

/// The frames of an animation: a range of pictures in a sheet.
#[derive(Clone, Copy, PartialEq, Eq, Debug)]
pub struct AnimationIndices {
    /// The first frame.
    pub first: usize,
    /// The last frame.
    pub last: usize,
}

/// The state of the bird's animation.
#[derive(Clone, Copy, PartialEq, Eq, Debug)]
pub struct Animation {
    /// The frames to cycle through.
    pub indices: AnimationIndices,
    /// Counts down to the next frame.
    pub timer: RepeatingTimer,
    /// The frame that is shown.
    pub frame: usize,
}

impl AnimationIndices {
    /// Whether there is a frame to show after `frame`: it is the last one,
    /// which the first follows, or a number that can still grow.
    pub open spec fn can_follow(self, frame: usize) -> bool {
        frame == self.last || frame < usize::MAX
    }

    /// The frame shown after `frame`: the one after it, and the first one
    /// after the last.
    pub open spec fn spec_next(self, frame: usize) -> usize {
        if frame == self.last {
            self.first
        } else {
            (frame + 1) as usize
        }
    }

    /// The frame shown after `frame`.
    pub fn next(&self, frame: usize) -> (following: usize)
        requires
            self.can_follow(frame),
        ensures
            following == self.spec_next(frame),
    {
        if frame == self.last {
            self.first
        } else {
            frame + 1
        }
    }
}

/// The animation of a bird that has just appeared.
pub open spec fn fresh_animation() -> Animation {
    Animation {
        indices: AnimationIndices { first: 0, last: 3 },
        timer: RepeatingTimer::spec_new(TIME_BETWEEN_FRAMES),
        frame: 0,
    }
}

/// A bird at the start of a run: at rest at its starting place.
pub open spec fn new_bird() -> Entity {
    Entity {
        id: 0,
        marker: Marker::Bird,
        scope: Some(AppState::InGame),
        x: BIRB_X,
        y: BIRB_Y,
        vx: 0,
        vy: 0,
        collider: Collider::Ball { radius: BIRB_RADIUS },
        scored: false,
    }
}

/// The world after a bird has appeared at its starting place, with its
/// animation at the first frame.
pub open spec fn spec_spawn_bird(w: WorldView) -> WorldView {
    (WorldView { animation: fresh_animation(), ..w }).spawn(new_bird())
}

/// Whether a flap lifts the bird: there is an activation, exactly one bird,
/// and the bird does not rise faster than half the jump speed.
pub open spec fn flap_lifts(w: WorldView) -> bool {
    &&& w.presses.len() > 0
    &&& w.select(Query::Marked(Marker::Bird)).len() == 1
    &&& w.select(Query::Marked(Marker::Bird))[0].vy <= JUMP_VELOCITY / 2
}

/// The world after the frame's activations have reached the bird: where the
/// flap lifts it, it rises at the jump speed, and the host is told.
pub open spec fn spec_flap_bird(w: WorldView) -> WorldView {
    if flap_lifts(w) {
        let bird = w.select(Query::Marked(Marker::Bird))[0];
        WorldView {
            commands: w.commands.push(
                Command::SetVelocity { id: bird.id, vx: bird.vx, vy: JUMP_VELOCITY },
            ),
            ..w.modify(Query::Marked(Marker::Bird), Change::Lifted(JUMP_VELOCITY))
        }
    } else {
        w
    }
}

/// The world after the bird's animation has advanced by the frame's time:
/// each time the animation timer runs out the next picture is shown.
pub open spec fn spec_animate_bird(w: WorldView, input: Input) -> WorldView {
    let timer = w.animation.timer.spec_tick(input.delta);
    if timer.spec_just_finished() {
        let frame = w.animation.indices.spec_next(w.animation.frame);
        WorldView {
            animation: Animation { timer, frame, ..w.animation },
            commands: w.commands.push(Command::ShowFrame(frame)),
            ..w
        }
    } else {
        WorldView { animation: Animation { timer, ..w.animation }, ..w }
    }
}

/// Makes a bird appear at its starting place, at rest.
pub fn spawn_bird(world: &mut World)
    ensures
        final(world)@ == spec_spawn_bird(old(world)@),
{
    world.animation = Animation {
        indices: AnimationIndices { first: 0, last: 3 },
        timer: RepeatingTimer::new(TIME_BETWEEN_FRAMES),
        frame: 0,
    };
    world.spawn(
        Entity {
            id: 0,
            marker: Marker::Bird,
            scope: Some(AppState::InGame),
            x: BIRB_X,
            y: BIRB_Y,
            vx: 0,
            vy: 0,
            collider: Collider::Ball { radius: BIRB_RADIUS },
            scored: false,
        },
    );
}

/// Lets the frame's activations reach the bird. A bird that already rises
/// faster than half the jump speed is left alone, and so is the world where
/// there is not exactly one bird.
pub fn flap_bird(world: &mut World)
    ensures
        final(world)@ == spec_flap_bird(old(world)@),
{
    if world.presses.len() > 0 {
        if let Some(bird) = world.single(Query::Marked(Marker::Bird)) {
            if bird.vy <= JUMP_VELOCITY / 2 {
                world.modify(Query::Marked(Marker::Bird), Change::Lifted(JUMP_VELOCITY));
                world.commands.push(
                    Command::SetVelocity { id: bird.id, vx: bird.vx, vy: JUMP_VELOCITY },
                );
            }
        }
    }
}

/// Advances the bird's animation by the frame's time.
pub fn animate_bird(world: &mut World, input: &Input)
    requires
        old(world)@.animation.indices.can_follow(old(world)@.animation.frame),
    ensures
        final(world)@ == spec_animate_bird(old(world)@, *input),
{
    world.animation.timer.tick(input.delta);
    if world.animation.timer.just_finished() {
        let frame = world.animation.indices.next(world.animation.frame);
        world.animation.frame = frame;
        world.commands.push(Command::ShowFrame(frame));
    }
}

/// Brings the bird into each run and lets it flap.
#[derive(Clone, Copy, PartialEq, Eq, Debug, Default)]
pub struct BirdPlugin;

impl BirdPlugin {
    /// The passes of the plug-in.
    pub open spec fn registrations() -> Seq<Registration> {
        seq![
            Registration {
                label: Label::OnEnter(AppState::InGame),
                system: System::SpawnBird,
                run_if: RunIf::Always,
            },
            Registration {
                label: Label::Update,
                system: System::FlapBird,
                run_if: RunIf::InGame(GameState::Running),
            },
            Registration {
                label: Label::Update,
                system: System::AnimateBird,
                run_if: RunIf::InGame(GameState::Running),
            },
        ]
    }

    /// Adds the plug-in's passes to the application.
    pub fn build(&self, app: &mut App)
        ensures
            final(app).registrations@ == old(app).registrations@ + Self::registrations(),
            final(app).world@ == old(app).world@,
    {
        app.add_systems(Label::OnEnter(AppState::InGame), System::SpawnBird, RunIf::Always);
        app.add_systems(Label::Update, System::FlapBird, RunIf::InGame(GameState::Running));
        app.add_systems(Label::Update, System::AnimateBird, RunIf::InGame(GameState::Running));
    }
}

} // verus!
