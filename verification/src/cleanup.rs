//! What is bound to a run does not outlive it, and every run of the whole
//! game begins afresh.

use crate::application::{
    game_registrations, new_world, own_registrations, spec_apply_app_transition,
    spec_apply_game_transition, spec_apply_transitions, spec_enter, spec_leave, spec_play,
    spec_startup, spec_update,
};
use crate::bird::{BirdPlugin, fresh_animation, new_bird, spec_spawn_bird};
use crate::consts::{GROUND_TEXTURE_Y, SPAWN_HEIGHT_MAX, SPAWN_HEIGHT_MIN};
use crate::entropy::range_draw;
use crate::game::{boundary, GamePlugin, picture, spec_spawn_ground_and_ceiling, spec_spawn_ui};
use crate::input::{Input, InputPlugin};
use crate::invariants::{
    keeps_to_the_run, lemma_descendants_stay_unscoped, lemma_despawn_leads,
    lemma_filter_keeps_order, lemma_leads_to_transitive, lemma_run_from_keeps_phases,
    lemma_run_from_leads, lemma_run_from_stays_outside_the_run, lemma_startup_leads,
    lemma_system_leads, none_scoped, scope_of,
};
use crate::laws::{height_at, on_track, word_after};
use crate::obstacles::{
    obstacle_at, ObstaclePlugin, right_boundary, spec_reset_entropy, spec_reset_game_state,
    spec_reset_timer, spec_spawn_obstacle,
};
use crate::physics::{PhysicsPlugin, spec_read_back};
use crate::schedule::{
    Label, Registration, RunIf, spec_run_from, spec_run_schedule, spec_run_system, System,
};
use crate::state::{AppState, GameState};
use crate::world::{Command, Entity, Marker, Query, Window, WorldView};
use vstd::prelude::*;

verus! {

/// What the whole game does when a run begins: the timer, the score and the
/// generator are set back, and then the first obstacle, the bird, the
/// surroundings and the score display appear.
pub open spec fn spec_begin_run(w: WorldView, input: Input) -> WorldView {
    spec_spawn_ui(
        spec_spawn_ground_and_ceiling(
            spec_spawn_bird(
                spec_spawn_obstacle(
                    spec_reset_entropy(spec_reset_game_state(spec_reset_timer(w))),
                    input.window,
                ),
            ),
            input.window,
        ),
    )
}

/// An entry of a list.
pub open spec fn entry(label: Label, system: System, run_if: RunIf) -> Registration {
    Registration { label, system, run_if }
}

/// Entry number `k` of the list of the whole game.
pub open spec fn game_registration(k: int) -> Registration {
    let start = Label::OnEnter(AppState::InGame);
    let running = RunIf::InGame(GameState::Running);
    if k == 0 {
        entry(Label::Update, System::ListenForInput, RunIf::Always)
    } else if k == 1 {
        entry(start, System::ResetTimer, RunIf::Always)
    } else if k == 2 {
        entry(start, System::ResetGameState, RunIf::Always)
    } else if k == 3 {
        entry(start, System::ResetEntropy, RunIf::Always)
    } else if k == 4 {
        entry(start, System::SpawnObstacle, RunIf::Always)
    } else if k == 5 {
        entry(Label::Update, System::TrackObstacleMovement, running)
    } else if k == 6 {
        entry(Label::Update, System::ScoreObstacle, running)
    } else if k == 7 {
        entry(Label::Update, System::SpawnObstacleTimed, running)
    } else if k == 8 {
        entry(start, System::SpawnBird, RunIf::Always)
    } else if k == 9 {
        entry(Label::Update, System::FlapBird, running)
    } else if k == 10 {
        entry(Label::Update, System::AnimateBird, running)
    } else if k == 11 {
        entry(Label::OnEnterGame(GameState::Running), System::StartPhysics, RunIf::Always)
    } else if k == 12 {
        entry(Label::OnEnterGame(GameState::GameOver), System::StopPhysics, RunIf::Always)
    } else if k == 13 {
        entry(Label::Startup, System::SetupCamera, RunIf::Always)
    } else if k == 14 {
        entry(Label::OnEnter(AppState::Loading), System::SpawnLoadingScreen, RunIf::Always)
    } else if k == 15 {
        entry(Label::OnExit(AppState::Loading), System::DespawnLoadingScreen, RunIf::Always)
    } else if k == 16 {
        entry(Label::OnEnter(AppState::Menu), System::SpawnStartMenu, RunIf::Always)
    } else if k == 17 {
        entry(Label::Update, System::StartGameOnInput, RunIf::InState(AppState::Menu))
    } else if k == 18 {
        entry(start, System::SpawnGroundAndCeiling, RunIf::Always)
    } else if k == 19 {
        entry(start, System::SpawnUi, RunIf::Always)
    } else if k == 20 {
        entry(Label::Update, System::DetectCollisions, running)
    } else if k == 21 {
        entry(Label::Update, System::PlayerScored, running)
    } else if k == 22 {
        entry(Label::Update, System::UpdateScore, running)
    } else if k == 23 {
        entry(Label::OnEnterGame(GameState::GameOver), System::SpawnGameOverUi, RunIf::Always)
    } else if k == 24 {
        entry(Label::Update, System::FinishGame, RunIf::InGame(GameState::GameOver))
    } else if k == 25 {
        entry(Label::Update, System::ContinueToMenu, RunIf::InState(AppState::Loading))
    } else {
        entry(Label::Update, System::EscapeToQuit, RunIf::Always)
    }
}

/// The list of the whole game, entry by entry.
pub proof fn lemma_game_registrations()
    ensures
        game_registrations().len() == 27,
        forall|k: int| 0 <= k < 27 ==> #[trigger] game_registrations()[k] == game_registration(k),
{
    let list = game_registrations();
    let flat = Seq::new(27, |k: int| game_registration(k));
    assert(InputPlugin::registrations() == flat.subrange(0, 1));
    assert(ObstaclePlugin::registrations() == flat.subrange(1, 8));
    assert(BirdPlugin::registrations() == flat.subrange(8, 11));
    assert(PhysicsPlugin::registrations() == flat.subrange(11, 13));
    assert(GamePlugin::registrations() == flat.subrange(13, 25));
    assert(own_registrations() == flat.subrange(25, 27));
    assert(list == flat);
}

/// A pass of the list that does not run at `label` is passed over.
pub proof fn lemma_skip(
    w: WorldView,
    registrations: Seq<Registration>,
    label: Label,
    input: Input,
    from: int,
    to: int,
)
    requires
        0 <= from <= to <= registrations.len(),
        forall|k: int| from <= k < to ==> !(#[trigger] registrations[k]).spec_enabled(label, w),
    ensures
        spec_run_from(w, registrations, label, input, from) == spec_run_from(
            w,
            registrations,
            label,
            input,
            to,
        ),
    decreases to - from,
{
    if from < to {
        lemma_skip(w, registrations, label, input, from + 1, to);
    }
}

/// A pass of the list that runs at `label` is run, and the list goes on
/// from what the pass has made of the world.
pub proof fn lemma_step(
    w: WorldView,
    registrations: Seq<Registration>,
    label: Label,
    input: Input,
    from: int,
)
    requires
        0 <= from < registrations.len(),
        registrations[from].spec_enabled(label, w),
    ensures
        spec_run_from(w, registrations, label, input, from) == spec_run_from(
            spec_run_system(w, registrations[from].system, input),
            registrations,
            label,
            input,
            from + 1,
        ),
{
}

/// Which entries of the list of the whole game run at the start of a run.
proof fn lemma_entries_at_the_start_of_a_run()
    ensures
        forall|k: int, w: WorldView|
            0 <= k < 27 ==> #[trigger] game_registrations()[k].spec_enabled(
                Label::OnEnter(AppState::InGame),
                w,
            ) == (k == 1 || k == 2 || k == 3 || k == 4 || k == 8 || k == 18 || k == 19),
        game_registrations()[1].system == System::ResetTimer,
        game_registrations()[2].system == System::ResetGameState,
        game_registrations()[3].system == System::ResetEntropy,
        game_registrations()[4].system == System::SpawnObstacle,
        game_registrations()[8].system == System::SpawnBird,
        game_registrations()[18].system == System::SpawnGroundAndCeiling,
        game_registrations()[19].system == System::SpawnUi,
{
    lemma_game_registrations();
    assert forall|k: int, w: WorldView| 0 <= k < 27 implies #[trigger] game_registrations()[k].spec_enabled(
        Label::OnEnter(AppState::InGame),
        w,
    ) == (k == 1 || k == 2 || k == 3 || k == 4 || k == 8 || k == 18 || k == 19) by {
        assert(game_registrations()[k] == game_registration(k));
    }
    assert(game_registrations()[1] == game_registration(1));
    assert(game_registrations()[2] == game_registration(2));
    assert(game_registrations()[3] == game_registration(3));
    assert(game_registrations()[4] == game_registration(4));
    assert(game_registrations()[8] == game_registration(8));
    assert(game_registrations()[18] == game_registration(18));
    assert(game_registrations()[19] == game_registration(19));
}

/// The start of a run, pass by pass.
pub open spec fn spec_begin_run_by_passes(w: WorldView, input: Input) -> WorldView {
    let w1 = spec_run_system(w, System::ResetTimer, input);
    let w2 = spec_run_system(w1, System::ResetGameState, input);
    let w3 = spec_run_system(w2, System::ResetEntropy, input);
    let w4 = spec_run_system(w3, System::SpawnObstacle, input);
    let w5 = spec_run_system(w4, System::SpawnBird, input);
    let w6 = spec_run_system(w5, System::SpawnGroundAndCeiling, input);
    spec_run_system(w6, System::SpawnUi, input)
}

/// The start of a run is what its passes make of the world one after the
/// other.
proof fn lemma_begin_run_by_passes(w: WorldView, input: Input)
    ensures
        spec_begin_run_by_passes(w, input) == spec_begin_run(w, input),
{
    reveal(spec_run_system);
}

/// The passes that the whole game runs at the start of a run.
pub proof fn lemma_passes_at_the_start_of_a_run(w: WorldView, input: Input)
    ensures
        spec_run_schedule(w, game_registrations(), Label::OnEnter(AppState::InGame), input)
            == spec_begin_run(w, input),
{
    let list = game_registrations();
    let label = Label::OnEnter(AppState::InGame);
    let w1 = spec_run_system(w, System::ResetTimer, input);
    let w2 = spec_run_system(w1, System::ResetGameState, input);
    let w3 = spec_run_system(w2, System::ResetEntropy, input);
    let w4 = spec_run_system(w3, System::SpawnObstacle, input);
    let w5 = spec_run_system(w4, System::SpawnBird, input);
    let w6 = spec_run_system(w5, System::SpawnGroundAndCeiling, input);
    let w7 = spec_run_system(w6, System::SpawnUi, input);
    lemma_begin_run_by_passes(w, input);
    lemma_game_registrations();
    lemma_entries_at_the_start_of_a_run();
    lemma_skip(w, list, label, input, 0, 1);
    lemma_step(w, list, label, input, 1);
    lemma_step(w1, list, label, input, 2);
    lemma_step(w2, list, label, input, 3);
    lemma_step(w3, list, label, input, 4);
    lemma_skip(w4, list, label, input, 5, 8);
    lemma_step(w4, list, label, input, 8);
    lemma_skip(w5, list, label, input, 9, 18);
    lemma_step(w5, list, label, input, 18);
    lemma_step(w6, list, label, input, 19);
    lemma_skip(w7, list, label, input, 20, 27);
}

/// The list of the whole game keeps the entities of a run inside the run.
pub proof fn lemma_game_keeps_to_the_run()
    ensures
        forall|k: int|
            0 <= k < game_registrations().len() ==> keeps_to_the_run(
                #[trigger] game_registrations()[k],
            ),
{
    lemma_game_registrations();
    assert forall|k: int| 0 <= k < game_registrations().len() implies keeps_to_the_run(
        #[trigger] game_registrations()[k],
    ) by {
        assert(game_registrations()[k] == game_registration(k));
    }
}

/// Whether the world is clean: outside of a run nothing exists that is bound
/// to a run.
pub open spec fn clean(w: WorldView) -> bool {
    w.app_state != AppState::InGame ==> none_scoped(w.entities, AppState::InGame)
}

/// Leaving an outer phase of the whole game leaves a clean world behind,
/// whatever phase it is left for.
pub proof fn lemma_enter_is_clean(w: WorldView, next: AppState, input: Input)
    requires
        clean(w),
    ensures
        clean(spec_enter(w, game_registrations(), next, input)),
        spec_enter(w, game_registrations(), next, input).app_state == next,
{
    let list = game_registrations();
    let exit = Label::OnExit(w.app_state);
    let exited = spec_run_schedule(w, list, exit, input);
    let swept = exited.despawn(Query::Scoped(w.app_state));
    let moved = WorldView { app_state: next, ..swept };
    lemma_game_keeps_to_the_run();
    lemma_run_from_keeps_phases(w, list, exit, input, 0);
    lemma_run_from_keeps_phases(moved, list, Label::OnEnter(next), input, 0);
    lemma_filter_keeps_order(exited.entities, Query::Scoped(w.app_state).others());
    if w.app_state != AppState::InGame {
        lemma_run_from_stays_outside_the_run(w, list, exit, input, 0);
        lemma_descendants_stay_unscoped(swept.entities, exited.entities, AppState::InGame);
    }
    if next != AppState::InGame {
        lemma_run_from_stays_outside_the_run(moved, list, Label::OnEnter(next), input, 0);
    }
}

/// Every frame of the whole game leaves a clean world clean. An
/// entity of a run does not outlive the run.
pub proof fn law_frames_keep_the_world_clean(w: WorldView, input: Input)
    requires
        clean(w),
    ensures
        clean(spec_update(w, game_registrations(), input)),
{
    let list = game_registrations();
    let fresh = WorldView { presses: Seq::empty(), passed: Seq::empty(), ..w };
    let read = spec_read_back(fresh, input.readings@);
    assert(clean(read)) by {
        if w.app_state != AppState::InGame {
            assert forall|j: int| 0 <= j < read.entities.len() implies (
            #[trigger] read.entities[j]).scope != Some(AppState::InGame) by {
                assert(read.entities[j].scope == w.entities[j].scope);
            }
        }
    }
    let outer = spec_apply_app_transition(read, list, input);
    assert(clean(outer)) by {
        if read.next_app_state is Some && read.next_app_state->0 != read.app_state {
            lemma_enter_is_clean(
                WorldView { next_app_state: None, ..read },
                read.next_app_state->0,
                input,
            );
        }
    }
    let entered = spec_apply_game_transition(outer, list, input);
    assert(clean(entered)) by {
        if outer.next_game_state is Some && outer.app_state == AppState::InGame {
            let next = outer.next_game_state->0;
            lemma_run_from_keeps_phases(
                WorldView { game_state: next, next_game_state: None, ..outer },
                list,
                Label::OnEnterGame(next),
                input,
                0,
            );
        }
    }
    lemma_game_keeps_to_the_run();
    lemma_run_from_keeps_phases(entered, list, Label::Update, input, 0);
    if entered.app_state != AppState::InGame {
        lemma_run_from_stays_outside_the_run(entered, list, Label::Update, input, 0);
    }
}

/// Any number of frames of the whole game leave a clean world clean.
pub proof fn law_play_keeps_the_world_clean(w: WorldView, inputs: Seq<Input>)
    requires
        clean(w),
    ensures
        clean(spec_play(w, game_registrations(), inputs)),
    decreases inputs.len(),
{
    if inputs.len() > 0 {
        law_play_keeps_the_world_clean(w, inputs.drop_last());
        law_frames_keep_the_world_clean(
            spec_play(w, game_registrations(), inputs.drop_last()),
            inputs.last(),
        );
    }
}

/// A query that chooses none of the entities chooses nothing.
pub proof fn lemma_select_nothing(w: WorldView, query: Query)
    requires
        forall|i: int| 0 <= i < w.entities.len() ==> !query.spec_matches(#[trigger] w.entities[i]),
    ensures
        w.select(query).len() == 0,
{
    let found = w.select(query);
    if found.len() > 0 {
        w.entities.lemma_filter_pred(query.chosen(), 0);
        w.entities.lemma_filter_contains_rev(query.chosen(), found[0]);
        let i = choose|i: int| 0 <= i < w.entities.len() && w.entities[i] == found[0];
        assert(query.spec_matches(w.entities[i]));
    }
}

/// Whether `w` is a run in the making on top of `base`: it has `birds`
/// birds, every obstacle in it is new and has the first height that the seed
/// fixes, whatever is not bound to the run was in `base`, and at most `made`
/// identities have been given out since.
pub open spec fn in_the_making(base: WorldView, w: WorldView, birds: nat, made: nat) -> bool {
    &&& w.select(Query::Marked(Marker::Bird)).len() == birds
    &&& base.next_id <= w.next_id <= base.next_id + made
    &&& w.seed == base.seed
    &&& forall|j: int|
        0 <= j < w.entities.len() && (#[trigger] w.entities[j]).marker == Marker::Obstacle
            ==> w.entities[j].id >= base.next_id && w.entities[j].y == height_at(base.seed, 0)
    &&& forall|j: int|
        0 <= j < w.entities.len() ==> (#[trigger] w.entities[j]).scope == Some(AppState::InGame)
            || (j < base.entities.len() && w.entities[j] == base.entities[j])
}

/// A run in the making stays one when an entity of the run appears, and has
/// one more bird if the entity is a bird.
pub proof fn lemma_spawn_in_the_making(
    base: WorldView,
    w: WorldView,
    birds: nat,
    made: nat,
    entity: Entity,
)
    requires
        in_the_making(base, w, birds, made),
        entity.scope == Some(AppState::InGame),
        entity.marker == Marker::Obstacle ==> entity.y == height_at(base.seed, 0),
        w.next_id < u64::MAX,
    ensures
        in_the_making(
            base,
            w.spawn(entity),
            if entity.marker == Marker::Bird {
                birds + 1
            } else {
                birds
            },
            made + 1,
        ),
{
    w.entities.lemma_filter_push(
        Entity { id: w.next_id, ..entity },
        Query::Marked(Marker::Bird).chosen(),
    );
}

/// The surroundings of a run leave a run in the making one.
proof fn lemma_ground_and_ceiling_in_the_making(
    base: WorldView,
    w: WorldView,
    birds: nat,
    made: nat,
    window: Option<Window>,
)
    requires
        in_the_making(base, w, birds, made),
        w.next_id <= u64::MAX - 4,
    ensures
        in_the_making(base, spec_spawn_ground_and_ceiling(w, window), birds, made + 4),
{
    if let Some(window) = window {
        let a = picture(Marker::Background, Some(AppState::InGame), 0, 0);
        let b = picture(Marker::GroundTexture, Some(AppState::InGame), 0, GROUND_TEXTURE_Y);
        let c = boundary(Marker::Roof, window, 1);
        let d = boundary(Marker::Floor, window, -1);
        lemma_spawn_in_the_making(base, w, birds, made, a);
        lemma_spawn_in_the_making(base, w.spawn(a), birds, made + 1, b);
        lemma_spawn_in_the_making(base, w.spawn(a).spawn(b), birds, made + 2, c);
        lemma_spawn_in_the_making(base, w.spawn(a).spawn(b).spawn(c), birds, made + 3, d);
    }
}

/// The first obstacle of a run leaves a run in the making one, if the
/// generator stands at the seed.
proof fn lemma_first_obstacle_in_the_making(
    base: WorldView,
    w: WorldView,
    birds: nat,
    made: nat,
    window: Option<Window>,
)
    requires
        in_the_making(base, w, birds, made),
        w.word == w.seed,
        w.next_id < u64::MAX,
    ensures
        in_the_making(base, spec_spawn_obstacle(w, window), birds, made + 1),
{
    if let Some(window) = window {
        let draw = range_draw(w.word, SPAWN_HEIGHT_MIN, SPAWN_HEIGHT_MAX);
        let drawn = WorldView { word: draw.1, ..w };
        assert(height_at(base.seed, 0) == draw.0);
        assert(drawn.select(Query::Marked(Marker::Bird)) == w.select(Query::Marked(Marker::Bird)));
        lemma_spawn_in_the_making(
            base,
            drawn,
            birds,
            made,
            obstacle_at(right_boundary(window), draw.0),
        );
    }
}

/// What the start of a run makes of a world in order that holds nothing of
/// a run: there is one bird, the score is zero, the timer starts over, the
/// run is asked to start, every obstacle is new and has the first height
/// that the seed fixes, and whatever is not bound to the run was there
/// before.
pub proof fn lemma_begin_run(w: WorldView, input: Input)
    requires
        w.wf(),
        none_scoped(w.entities, AppState::InGame),
        w.next_id <= u64::MAX - 7,
    ensures
        spec_begin_run(w, input).wf(),
        in_the_making(w, spec_begin_run(w, input), 1, 7),
        spec_begin_run(w, input) == (WorldView {
            entities: spec_begin_run(w, input).entities,
            next_id: spec_begin_run(w, input).next_id,
            commands: spec_begin_run(w, input).commands,
            next_game_state: Some(GameState::Running),
            score: 0,
            animation: fresh_animation(),
            spawn_timer: w.spawn_timer.spec_reset(),
            word: spec_begin_run(w, input).word,
            ..w
        }),
{
    let birds = Query::Marked(Marker::Bird);
    let w1 = spec_reset_timer(w);
    let w2 = spec_reset_game_state(w1);
    let w3 = spec_reset_entropy(w2);
    let w4 = spec_spawn_obstacle(w3, input.window);
    let w5 = spec_spawn_bird(w4);
    let w6 = spec_spawn_ground_and_ceiling(w5, input.window);
    let w7 = spec_spawn_ui(w6);
    assert forall|i: int| 0 <= i < w.entities.len() implies !birds.spec_matches(
        #[trigger] w.entities[i],
    ) && w.entities[i].marker != Marker::Obstacle by {
        assert(w.entities[i].scope == scope_of(w.entities[i].marker));
    }
    lemma_select_nothing(w3, birds);
    assert(in_the_making(w, w3, 0, 0));
    lemma_first_obstacle_in_the_making(w, w3, 0, 0, input.window);
    let prepared = WorldView { animation: fresh_animation(), ..w4 };
    assert(prepared.select(birds) == w4.select(birds));
    lemma_spawn_in_the_making(w, prepared, 0, 1, new_bird());
    lemma_ground_and_ceiling_in_the_making(w, w5, 1, 2, input.window);
    lemma_spawn_in_the_making(
        w,
        w6,
        1,
        6,
        picture(Marker::ScoreDisplay, Some(AppState::InGame), 0, 0),
    );
    assert(w7.wf()) by {
        lemma_begin_run_leads(w, input);
    }
}

/// A world leads to what the start of a run makes of it.
proof fn lemma_begin_run_leads(w: WorldView, input: Input)
    ensures
        w.leads_to(spec_begin_run(w, input)),
{
    let w1 = spec_run_system(w, System::ResetTimer, input);
    let w2 = spec_run_system(w1, System::ResetGameState, input);
    let w3 = spec_run_system(w2, System::ResetEntropy, input);
    let w4 = spec_run_system(w3, System::SpawnObstacle, input);
    let w5 = spec_run_system(w4, System::SpawnBird, input);
    let w6 = spec_run_system(w5, System::SpawnGroundAndCeiling, input);
    let w7 = spec_run_system(w6, System::SpawnUi, input);
    lemma_begin_run_by_passes(w, input);
    lemma_system_leads(w, System::ResetTimer, input);
    lemma_system_leads(w1, System::ResetGameState, input);
    lemma_system_leads(w2, System::ResetEntropy, input);
    lemma_system_leads(w3, System::SpawnObstacle, input);
    lemma_system_leads(w4, System::SpawnBird, input);
    lemma_system_leads(w5, System::SpawnGroundAndCeiling, input);
    lemma_system_leads(w6, System::SpawnUi, input);
    lemma_leads_to_transitive(w, w1, w2);
    lemma_leads_to_transitive(w, w2, w3);
    lemma_leads_to_transitive(w, w3, w4);
    lemma_leads_to_transitive(w, w4, w5);
    lemma_leads_to_transitive(w, w5, w6);
    lemma_leads_to_transitive(w, w6, w7);
}

/// The passes that the whole game runs at the end of an outer phase: the
/// loading screen goes at the end of the loading, and nothing else happens.
pub proof fn lemma_passes_at_the_end_of_a_phase(w: WorldView, state: AppState, input: Input)
    ensures
        spec_run_schedule(w, game_registrations(), Label::OnExit(state), input) == if state
            == AppState::Loading {
            spec_run_system(w, System::DespawnLoadingScreen, input)
        } else {
            w
        },
{
    let list = game_registrations();
    let label = Label::OnExit(state);
    lemma_game_registrations();
    assert forall|k: int| 0 <= k < 27 implies (#[trigger] list[k]).spec_enabled(label, w) == (k
        == 15 && state == AppState::Loading) by {
        assert(list[k] == game_registration(k));
    }
    assert(list[15] == game_registration(15));
    if state == AppState::Loading {
        let gone = spec_run_system(w, System::DespawnLoadingScreen, input);
        assert forall|k: int| 16 <= k < 27 implies !(#[trigger] list[k]).spec_enabled(
            label,
            gone,
        ) by {
            assert(list[k] == game_registration(k));
        }
        lemma_skip(w, list, label, input, 0, 15);
        lemma_step(w, list, label, input, 15);
        lemma_skip(gone, list, label, input, 16, 27);
    } else {
        lemma_skip(w, list, label, input, 0, 27);
    }
}

/// The passes that the whole game runs when the bird starts to fly: the
/// physics simulation is started.
pub proof fn lemma_passes_at_the_start_of_running(w: WorldView, input: Input)
    ensures
        spec_run_schedule(w, game_registrations(), Label::OnEnterGame(GameState::Running), input)
            == spec_run_system(w, System::StartPhysics, input),
{
    let list = game_registrations();
    let label = Label::OnEnterGame(GameState::Running);
    let started = spec_run_system(w, System::StartPhysics, input);
    lemma_game_registrations();
    assert forall|k: int| 0 <= k < 27 implies (#[trigger] list[k]).spec_enabled(label, w) == (k
        == 11) && list[k].spec_enabled(label, started) == (k == 11) by {
        assert(list[k] == game_registration(k));
    }
    assert(list[11] == game_registration(11));
    lemma_skip(w, list, label, input, 0, 11);
    lemma_step(w, list, label, input, 11);
    lemma_skip(started, list, label, input, 12, 27);
}

/// The world after the frame boundary at which the whole game enters a run.
pub open spec fn spec_enter_run(w: WorldView, input: Input) -> WorldView {
    spec_apply_transitions(
        WorldView { next_app_state: Some(AppState::InGame), ..w },
        game_registrations(),
        input,
    )
}

/// What the end of a phase other than a run leaves of a clean world in
/// order: nothing that is bound to the phase or to a run, and otherwise the
/// world as it was, with no identity given out.
pub proof fn lemma_leave_is_clean(w: WorldView, input: Input)
    requires
        w.wf(),
        clean(w),
        w.app_state != AppState::InGame,
    ensures
        spec_leave(w, game_registrations(), input).wf(),
        none_scoped(spec_leave(w, game_registrations(), input).entities, AppState::InGame),
        none_scoped(spec_leave(w, game_registrations(), input).entities, w.app_state),
        spec_leave(w, game_registrations(), input) == (WorldView {
            entities: spec_leave(w, game_registrations(), input).entities,
            commands: spec_leave(w, game_registrations(), input).commands,
            ..w
        }),
{
    let list = game_registrations();
    let exit = Label::OnExit(w.app_state);
    let exited = spec_run_schedule(w, list, exit, input);
    let left = spec_leave(w, list, input);
    lemma_game_keeps_to_the_run();
    lemma_passes_at_the_end_of_a_phase(w, w.app_state, input);
    assert(exited == (WorldView { entities: exited.entities, commands: exited.commands, ..w })) by {
        reveal(spec_run_system);
    }
    lemma_run_from_leads(w, list, exit, input, 0);
    lemma_run_from_stays_outside_the_run(w, list, exit, input, 0);
    lemma_despawn_leads(exited, Query::Scoped(w.app_state));
    lemma_filter_keeps_order(exited.entities, Query::Scoped(w.app_state).others());
    lemma_descendants_stay_unscoped(left.entities, exited.entities, AppState::InGame);
    assert forall|j: int| 0 <= j < left.entities.len() implies (#[trigger] left.entities[j]).scope
        != Some(w.app_state) by {
        exited.entities.lemma_filter_pred(Query::Scoped(w.app_state).others(), j);
    }
}

/// When the whole game enters a run from a clean world
/// in order, then, before any pass of the run's first frame, the run is
/// running, the score is zero, the obstacle timer starts over, there is
/// exactly one bird, and every obstacle is new and has the first height that
/// the seed fixes. What came before the run leaves no trace in it.
pub proof fn law_a_run_begins_afresh(w: WorldView, input: Input)
    requires
        w.wf(),
        clean(w),
        w.app_state != AppState::InGame,
        w.next_id <= u64::MAX - 7,
    ensures
        spec_enter_run(w, input).wf(),
        spec_enter_run(w, input).app_state == AppState::InGame,
        spec_enter_run(w, input).game_state == GameState::Running,
        spec_enter_run(w, input).next_app_state is None,
        spec_enter_run(w, input).next_game_state is None,
        spec_enter_run(w, input).score == 0,
        spec_enter_run(w, input).spawn_timer == w.spawn_timer.spec_reset(),
        spec_enter_run(w, input).select(Query::Marked(Marker::Bird)).len() == 1,
        forall|j: int|
            0 <= j < spec_enter_run(w, input).entities.len() && (#[trigger] spec_enter_run(
                w,
                input,
            ).entities[j]).marker == Marker::Obstacle ==> spec_enter_run(w, input).entities[j].id
                >= w.next_id && spec_enter_run(w, input).entities[j].y == height_at(w.seed, 0),
        none_scoped(spec_enter_run(w, input).entities, w.app_state),
{
    let list = game_registrations();
    let cleared = WorldView { next_app_state: None, ..w };
    let moved = WorldView { app_state: AppState::InGame, ..spec_leave(cleared, list, input) };
    let begun = spec_begin_run(moved, input);
    lemma_leave_is_clean(cleared, input);
    lemma_passes_at_the_start_of_a_run(moved, input);
    lemma_begin_run(moved, input);
    assert(spec_apply_app_transition(
        WorldView { next_app_state: Some(AppState::InGame), ..w },
        list,
        input,
    ) == begun);
    let turned = WorldView { game_state: GameState::Running, next_game_state: None, ..begun };
    let started = spec_run_system(turned, System::StartPhysics, input);
    lemma_passes_at_the_start_of_running(turned, input);
    assert(started == (WorldView {
        physics_active: true,
        commands: turned.commands.push(Command::SetPhysicsActive(true)),
        ..turned
    })) by {
        reveal(spec_run_system);
    }
    assert(spec_enter_run(w, input) == if begun.game_state == GameState::Running {
        WorldView { next_game_state: None, ..begun }
    } else {
        started
    });
    assert(spec_enter_run(w, input).entities == begun.entities);
}

/// The whole game starts out clean and in order: its first world is, and so
/// is the world after the passes that run before the first frame.
pub proof fn law_the_game_starts_clean(seed: u64, input: Input)
    ensures
        new_world(seed).wf(),
        clean(new_world(seed)),
        on_track(new_world(seed)),
        spec_startup(new_world(seed), game_registrations(), input).wf(),
        clean(spec_startup(new_world(seed), game_registrations(), input)),
{
    let list = game_registrations();
    let w = new_world(seed);
    let entered = spec_run_schedule(w, list, Label::OnEnter(AppState::Loading), input);
    assert(w.word == word_after(w.seed, 0));
    lemma_game_keeps_to_the_run();
    lemma_startup_leads(w, list, input);
    lemma_run_from_stays_outside_the_run(w, list, Label::OnEnter(AppState::Loading), input, 0);
    lemma_passes_at_the_start_of_running(entered, input);
    let running = spec_run_system(entered, System::StartPhysics, input);
    assert(running.entities == entered.entities && running.app_state == entered.app_state) by {
        reveal(spec_run_system);
    }
    lemma_run_from_stays_outside_the_run(running, list, Label::Startup, input, 0);
}

} // verus!
