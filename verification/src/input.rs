//! What the host hands over each frame, and the activation signal.

use crate::application::App;
use crate::physics::{CollisionEvent, Reading};
use crate::schedule::{Label, Registration, RunIf, System};
use crate::world::{Window, World, WorldView};
use vstd::prelude::*;

verus! {

/// The player has pressed the key, the mouse button or the screen.
#[derive(Clone, Copy, PartialEq, Eq, Debug, Default)]
pub struct ButtonPressed;

/// What the host has read in one frame.
pub struct Input {
    /// Time since the frame before, in nanoseconds.
    pub delta: u64,
    /// Whether the space bar went down in this frame.
    pub keyboard: bool,
    /// Whether a finger touched the screen in this frame.
    pub touch: bool,
    /// Whether the left mouse button went down in this frame.
    pub mouse: bool,
    /// Whether the escape key went down in this frame.
    pub escape: bool,
    /// Whether all the assets are loaded.
    pub loaded: bool,
    /// The size of the play area, where there is a window.
    pub window: Option<Window>,
    /// What the physics simulation has seen collide, oldest first.
    pub collisions: Vec<CollisionEvent>,
    /// Where the physics simulation has moved the bodies to.
    pub readings: Vec<Reading>,
}

/// Whether any of the three devices was activated.
pub open spec fn activated(input: Input) -> bool {
    input.keyboard || input.touch || input.mouse
}

/// The world after the frame's activation, if there was one, has been
/// announced: however many devices were activated, there is one signal.
pub open spec fn spec_listen_for_input(w: WorldView, input: Input) -> WorldView {
    if activated(input) {
        WorldView { presses: w.presses.push(ButtonPressed), ..w }
    } else {
        w
    }
}

/// Announces the frame's activation, if there was one.
pub fn listen_for_input(world: &mut World, input: &Input)
    ensures
        final(world)@ == spec_listen_for_input(old(world)@, *input),
{
    if input.keyboard || input.touch || input.mouse {
        world.presses.push(ButtonPressed);
    }
}

/// Hears the player.
#[derive(Clone, Copy, PartialEq, Eq, Debug, Default)]
pub struct InputPlugin;

impl InputPlugin {
    /// The passes of the plug-in.
    pub open spec fn registrations() -> Seq<Registration> {
        seq![
            Registration {
                label: Label::Update,
                system: System::ListenForInput,
                run_if: RunIf::Always,
            },
        ]
    }

    /// Adds the plug-in's passes to the application.
    pub fn build(&self, app: &mut App)
        ensures
            final(app).registrations@ == old(app).registrations@ + Self::registrations(),
            final(app).world@ == old(app).world@,
    {
        app.add_systems(Label::Update, System::ListenForInput, RunIf::Always);
    }
}

} // verus!
