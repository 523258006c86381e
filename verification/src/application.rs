//! The application: the list of passes, the world, and the frame loop's body.

use crate::bird::{Animation, AnimationIndices, BirdPlugin, fresh_animation};
use crate::consts::{TIME_BETWEEN_FRAMES, TIME_BETWEEN_SPAWN};
use crate::entropy::Entropy;
use crate::game::{GamePlugin, Score};
use crate::input::{Input, InputPlugin};
use crate::invariants::{
    lemma_leads_to_transitive, lemma_same_entities, lemma_startup_leads, lemma_update_leads,
};
use crate::obstacles::ObstaclePlugin;
use crate::physics::{PhysicsPlugin, read_back, spec_read_back};
use crate::schedule::{Label, Registration, run_schedule, RunIf, spec_run_schedule, System};
use crate::state::{AppState, GameState};
use crate::timer::RepeatingTimer;
use crate::world::{Command, Query, World, WorldView};
use vstd::prelude::*;

verus! {

/// The application.
pub struct App {
    /// Which pass runs when, in the order in which the passes run.
    pub registrations: Vec<Registration>,
    /// The entities and the shared resources.
    pub world: World,
}

/// The world before anything has happened: the assets are loading, nothing
/// exists yet, and the obstacle generator stands at `seed`.
pub open spec fn new_world(seed: u64) -> WorldView {
    WorldView {
        entities: Seq::empty(),
        next_id: 0,
        commands: Seq::empty(),
        app_state: AppState::Loading,
        game_state: GameState::Running,
        next_app_state: None,
        next_game_state: None,
        score: 0,
        animation: fresh_animation(),
        spawn_timer: RepeatingTimer::spec_new(TIME_BETWEEN_SPAWN),
        seed,
        word: seed,
        physics_active: true,
        presses: Seq::empty(),
        passed: Seq::empty(),
    }
}

/// The passes that the application itself adds to those of the plug-ins.
pub open spec fn own_registrations() -> Seq<Registration> {
    seq![
        Registration {
            label: Label::Update,
            system: System::ContinueToMenu,
            run_if: RunIf::InState(AppState::Loading),
        },
        Registration { label: Label::Update, system: System::EscapeToQuit, run_if: RunIf::Always },
    ]
}

/// The list of the whole game. The activation is heard first; then the
/// obstacles move, count and appear; then the bird flaps; then the collisions
/// and the score are dealt with.
pub open spec fn game_registrations() -> Seq<Registration> {
    InputPlugin::registrations() + ObstaclePlugin::registrations() + BirdPlugin::registrations()
        + PhysicsPlugin::registrations() + GamePlugin::registrations() + own_registrations()
}

/// The world after its outer phase has ended: the passes for the end of the
/// phase have run, and every entity bound to the phase is destroyed.
pub open spec fn spec_leave(
    w: WorldView,
    registrations: Seq<Registration>,
    input: Input,
) -> WorldView {
    spec_run_schedule(w, registrations, Label::OnExit(w.app_state), input).despawn(
        Query::Scoped(w.app_state),
    )
}

/// The world after it has left its outer phase for `next`: the old phase
/// ends, with all its cleanup, and only then the passes for the start of
/// the new phase run.
pub open spec fn spec_enter(
    w: WorldView,
    registrations: Seq<Registration>,
    next: AppState,
    input: Input,
) -> WorldView {
    spec_run_schedule(
        WorldView { app_state: next, ..spec_leave(w, registrations, input) },
        registrations,
        Label::OnEnter(next),
        input,
    )
}

/// The world after the outer phase that was asked for, if any, has been
/// entered. Asking for the phase that is active changes nothing.
pub open spec fn spec_apply_app_transition(
    w: WorldView,
    registrations: Seq<Registration>,
    input: Input,
) -> WorldView {
    match w.next_app_state {
        Some(next) => {
            let cleared = WorldView { next_app_state: None, ..w };
            if next == w.app_state {
                cleared
            } else {
                spec_enter(cleared, registrations, next, input)
            }
        },
        None => w,
    }
}

/// The world after the inner phase that was asked for, if any, has been
/// entered. The inner phase changes only during a run: outside of one the
/// request is dropped.
pub open spec fn spec_apply_game_transition(
    w: WorldView,
    registrations: Seq<Registration>,
    input: Input,
) -> WorldView {
    match w.next_game_state {
        Some(next) => {
            let cleared = WorldView { next_game_state: None, ..w };
            if w.app_state != AppState::InGame || next == w.game_state {
                cleared
            } else {
                spec_run_schedule(
                    WorldView { game_state: next, ..cleared },
                    registrations,
                    Label::OnEnterGame(next),
                    input,
                )
            }
        },
        None => w,
    }
}

/// The world after the phases that were asked for have been entered: the
/// outer one first, so that a run that begins is set running at once.
pub open spec fn spec_apply_transitions(
    w: WorldView,
    registrations: Seq<Registration>,
    input: Input,
) -> WorldView {
    spec_apply_game_transition(
        spec_apply_app_transition(w, registrations, input),
        registrations,
        input,
    )
}

/// The world after the passes that run once, before the first frame.
pub open spec fn spec_startup(
    w: WorldView,
    registrations: Seq<Registration>,
    input: Input,
) -> WorldView {
    let entered = spec_run_schedule(w, registrations, Label::OnEnter(w.app_state), input);
    let running = spec_run_schedule(
        entered,
        registrations,
        Label::OnEnterGame(entered.game_state),
        input,
    );
    spec_run_schedule(running, registrations, Label::Startup, input)
}

/// The world after one frame: the signals of the frame before are dropped,
/// the physics simulation's report is taken over, the phases that were asked
/// for are entered, and the passes of the frame run.
pub open spec fn spec_update(
    w: WorldView,
    registrations: Seq<Registration>,
    input: Input,
) -> WorldView {
    let fresh = WorldView { presses: Seq::empty(), passed: Seq::empty(), ..w };
    let read = spec_read_back(fresh, input.readings@);
    let entered = spec_apply_transitions(read, registrations, input);
    spec_run_schedule(entered, registrations, Label::Update, input)
}

/// The world after the frames whose inputs are `inputs`, in their order.
pub open spec fn spec_play(
    w: WorldView,
    registrations: Seq<Registration>,
    inputs: Seq<Input>,
) -> WorldView
    decreases inputs.len(),
{
    if inputs.len() == 0 {
        w
    } else {
        spec_update(spec_play(w, registrations, inputs.drop_last()), registrations, inputs.last())
    }
}

impl App {
    /// An application without passes, whose obstacle generator starts at
    /// `seed`.
    pub fn new(seed: u64) -> (app: Self)
        ensures
            app.registrations@ == Seq::<Registration>::empty(),
            app.world@ == new_world(seed),
            app.world@.wf(),
    {
        App {
            registrations: Vec::new(),
            world: World {
                entities: Vec::new(),
                next_id: 0,
                commands: Vec::new(),
                app_state: AppState::Loading,
                game_state: GameState::Running,
                next_app_state: None,
                next_game_state: None,
                score: Score::default(),
                animation: Animation {
                    indices: AnimationIndices { first: 0, last: 3 },
                    timer: RepeatingTimer::new(TIME_BETWEEN_FRAMES),
                    frame: 0,
                },
                spawn_timer: RepeatingTimer::new(TIME_BETWEEN_SPAWN),
                seed,
                entropy: Entropy::with_seed(seed),
                physics_active: true,
                presses: Vec::new(),
                passed: Vec::new(),
            },
        }
    }

    /// The whole game: an application with all five plug-ins.
    pub fn game(seed: u64) -> (app: Self)
        ensures
            app.registrations@ == game_registrations(),
            app.world@ == new_world(seed),
            app.world@.wf(),
    {
        let mut app = App::new(seed);
        InputPlugin.build(&mut app);
        ObstaclePlugin.build(&mut app);
        BirdPlugin.build(&mut app);
        PhysicsPlugin.build(&mut app);
        GamePlugin.build(&mut app);
        app.add_systems(Label::Update, System::ContinueToMenu, RunIf::InState(AppState::Loading));
        app.add_systems(Label::Update, System::EscapeToQuit, RunIf::Always);
        app
    }

    /// Adds a pass to the end of the list.
    pub fn add_systems(&mut self, label: Label, system: System, run_if: RunIf)
        ensures
            final(self).registrations@ == old(self).registrations@.push(
                Registration { label, system, run_if },
            ),
            final(self).world@ == old(self).world@,
    {
        self.registrations.push(Registration { label, system, run_if });
    }

    /// Enters the outer phase that was asked for, if any.
    pub fn apply_app_transition(&mut self, input: &Input)
        ensures
            final(self).registrations@ == old(self).registrations@,
            final(self).world@ == spec_apply_app_transition(
                old(self).world@,
                old(self).registrations@,
                *input,
            ),
    {
        if let Some(next) = self.world.next_app_state {
            self.world.next_app_state = None;
            if next != self.world.app_state {
                let previous = self.world.app_state;
                run_schedule(&mut self.world, &self.registrations, Label::OnExit(previous), input);
                self.world.despawn(Query::Scoped(previous));
                self.world.app_state = next;
                run_schedule(&mut self.world, &self.registrations, Label::OnEnter(next), input);
            }
        }
    }

    /// Enters the inner phase that was asked for, if any.
    pub fn apply_game_transition(&mut self, input: &Input)
        ensures
            final(self).registrations@ == old(self).registrations@,
            final(self).world@ == spec_apply_game_transition(
                old(self).world@,
                old(self).registrations@,
                *input,
            ),
    {
        if let Some(next) = self.world.next_game_state {
            self.world.next_game_state = None;
            if self.world.app_state == AppState::InGame && next != self.world.game_state {
                self.world.game_state = next;
                run_schedule(
                    &mut self.world,
                    &self.registrations,
                    Label::OnEnterGame(next),
                    input,
                );
            }
        }
    }

    /// Hands over the commands that have gathered.
    pub fn take_commands(&mut self) -> (commands: Vec<Command>)
        ensures
            commands@ == old(self).world@.commands,
            final(self).registrations@ == old(self).registrations@,
            final(self).world@ == (WorldView { commands: Seq::empty(), ..old(self).world@ }),
    {
        let mut commands: Vec<Command> = Vec::new();
        std::mem::swap(&mut commands, &mut self.world.commands);
        commands
    }

    /// Runs the passes that run once, before the first frame, and hands over
    /// the commands.
    pub fn startup(&mut self, input: &Input) -> (commands: Vec<Command>)
        ensures
            final(self).registrations@ == old(self).registrations@,
            old(self).world@.leads_to(final(self).world@),
            commands@ == spec_startup(old(self).world@, old(self).registrations@, *input).commands,
            final(self).world@ == (WorldView {
                commands: Seq::empty(),
                ..spec_startup(old(self).world@, old(self).registrations@, *input)
            }),
    {
        let app_state = self.world.app_state;
        run_schedule(&mut self.world, &self.registrations, Label::OnEnter(app_state), input);
        let game_state = self.world.game_state;
        run_schedule(&mut self.world, &self.registrations, Label::OnEnterGame(game_state), input);
        run_schedule(&mut self.world, &self.registrations, Label::Startup, input);
        proof {
            lemma_startup_leads(old(self).world@, self.registrations@, *input);
            lemma_same_entities(
                self.world@,
                WorldView { commands: Seq::empty(), ..self.world@ },
            );
            lemma_leads_to_transitive(
                old(self).world@,
                self.world@,
                WorldView { commands: Seq::empty(), ..self.world@ },
            );
        }
        self.take_commands()
    }

    /// Plays one frame and hands over the commands. A world in order stays
    /// in order: identities stay unique, and what exists keeps what it is.
    pub fn update(&mut self, input: &Input) -> (commands: Vec<Command>)
        ensures
            final(self).registrations@ == old(self).registrations@,
            old(self).world@.leads_to(final(self).world@),
            commands@ == spec_update(old(self).world@, old(self).registrations@, *input).commands,
            final(self).world@ == (WorldView {
                commands: Seq::empty(),
                ..spec_update(old(self).world@, old(self).registrations@, *input)
            }),
    {
        self.world.presses.clear();
        self.world.passed.clear();
        read_back(&mut self.world, &input.readings);
        self.apply_app_transition(input);
        self.apply_game_transition(input);
        run_schedule(&mut self.world, &self.registrations, Label::Update, input);
        proof {
            lemma_update_leads(old(self).world@, self.registrations@, *input);
            lemma_same_entities(
                self.world@,
                WorldView { commands: Seq::empty(), ..self.world@ },
            );
            lemma_leads_to_transitive(
                old(self).world@,
                self.world@,
                WorldView { commands: Seq::empty(), ..self.world@ },
            );
        }
        self.take_commands()
    }
}

} // verus!
