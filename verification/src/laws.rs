//! What the game promises its player, proved of every world and every frame.

use crate::application::{spec_apply_app_transition, spec_apply_game_transition, spec_play, spec_update};
use crate::bird::{flap_lifts, spec_flap_bird};
use crate::consts::{BIRB_X, GROUND_TEXTURE_Y, JUMP_VELOCITY, SPAWN_HEIGHT_MAX, SPAWN_HEIGHT_MIN};
use crate::entropy::range_draw;
use crate::game::{boundary, picture, spec_despawn_loading_screen, spec_update_score};
use crate::input::Input;
use crate::invariants::{
    has_ancestor, holds_id, lemma_despawn_leads, lemma_filter_keeps_order,
    lemma_leads_to_transitive, lemma_same_entities, lemma_update_leads, survives,
};
use crate::obstacles::{
    left_boundary, passes, spec_score_obstacle, spec_spawn_obstacle, spec_track_obstacle_movement,
};
use crate::physics::spec_read_back;
use crate::schedule::{
    Label, Registration, spec_run_from, spec_run_schedule, spec_run_system, System,
};
use crate::state::AppState;
use crate::world::{Change, changed_where, Entity, Marker, Query, Window, WorldView};
use vstd::prelude::*;

verus! {

/// A world leads to what any number of frames make of it: through all of
/// them no identity is given out twice, every entity keeps its marker and
/// its scope, and points once given stay.
pub proof fn law_frames_keep_the_world_in_order(
    w: WorldView,
    registrations: Seq<Registration>,
    inputs: Seq<Input>,
)
    ensures
        w.leads_to(spec_play(w, registrations, inputs)),
    decreases inputs.len(),
{
    if inputs.len() == 0 {
        lemma_same_entities(w, w);
    } else {
        let before = spec_play(w, registrations, inputs.drop_last());
        law_frames_keep_the_world_in_order(w, registrations, inputs.drop_last());
        lemma_update_leads(before, registrations, inputs.last());
        lemma_leads_to_transitive(w, before, spec_update(before, registrations, inputs.last()));
    }
}

/// A flap changes no entity that rises faster than half the jump speed.
pub proof fn law_flap_spares_the_fast_rising(w: WorldView, i: int)
    requires
        0 <= i < w.entities.len(),
        w.entities[i].vy > JUMP_VELOCITY / 2,
    ensures
        spec_flap_bird(w).entities.len() == w.entities.len(),
        spec_flap_bird(w).entities[i] == w.entities[i],
{
    let birds = Query::Marked(Marker::Bird);
    if flap_lifts(w) && w.entities[i].marker == Marker::Bird {
        w.entities.lemma_filter_contains(birds.chosen(), i);
        let found = w.select(birds);
        let j = choose|j: int| 0 <= j < found.len() && found[j] == w.entities[i];
        assert(found[0] == w.entities[i]);
    }
}

/// Where the one bird rises faster than half the jump speed, a flap changes
/// nothing at all and tells the host nothing.
pub proof fn law_flap_of_a_fast_rising_bird_is_idle(w: WorldView)
    requires
        w.select(Query::Marked(Marker::Bird)).len() == 1,
        w.select(Query::Marked(Marker::Bird))[0].vy > JUMP_VELOCITY / 2,
    ensures
        spec_flap_bird(w) == w,
{
}

/// A flap that lifts gives the bird the jump speed, and no entity but a bird
/// is changed.
pub proof fn law_flap_sets_the_jump_speed(w: WorldView, i: int)
    requires
        0 <= i < w.entities.len(),
        flap_lifts(w),
    ensures
        spec_flap_bird(w).entities.len() == w.entities.len(),
        w.entities[i].marker == Marker::Bird ==> spec_flap_bird(w).entities[i] == (Entity {
            vy: JUMP_VELOCITY,
            ..w.entities[i]
        }),
        w.entities[i].marker != Marker::Bird ==> spec_flap_bird(w).entities[i] == w.entities[i],
{
}

/// After the culling pass no obstacle is left that lies out of sight.
pub proof fn law_cull_leaves_nothing_out_of_sight(w: WorldView, window: Window, j: int)
    requires
        0 <= j < spec_track_obstacle_movement(w, Some(window)).entities.len(),
    ensures
        !(spec_track_obstacle_movement(w, Some(window)).entities[j].marker == Marker::Obstacle
            && spec_track_obstacle_movement(w, Some(window)).entities[j].x < left_boundary(
            window,
        )),
{
    let query = Query::ObstaclesLeftOf(left_boundary(window) as i64);
    w.entities.lemma_filter_pred(query.others(), j);
}

/// The culling pass destroys nothing else: whatever is not an obstacle out
/// of sight is still there afterwards.
pub proof fn law_cull_spares_the_rest(w: WorldView, window: Window, i: int)
    requires
        0 <= i < w.entities.len(),
        !(w.entities[i].marker == Marker::Obstacle && w.entities[i].x < left_boundary(window)),
    ensures
        spec_track_obstacle_movement(w, Some(window)).entities.contains(w.entities[i]),
{
    let query = Query::ObstaclesLeftOf(left_boundary(window) as i64);
    w.entities.lemma_filter_contains(query.others(), i);
}

/// An obstacle that lies out of sight is gone after the culling pass, and
/// no later frame brings its identity back.
pub proof fn law_culled_obstacle_never_returns(
    w: WorldView,
    window: Window,
    i: int,
    registrations: Seq<Registration>,
    inputs: Seq<Input>,
)
    requires
        w.wf(),
        0 <= i < w.entities.len(),
        w.entities[i].marker == Marker::Obstacle,
        w.entities[i].x < left_boundary(window),
    ensures
        !holds_id(spec_track_obstacle_movement(w, Some(window)).entities, w.entities[i].id),
        !holds_id(
            spec_play(spec_track_obstacle_movement(w, Some(window)), registrations, inputs).entities,
            w.entities[i].id,
        ),
{
    let query = Query::ObstaclesLeftOf(left_boundary(window) as i64);
    let culled = spec_track_obstacle_movement(w, Some(window));
    let later = spec_play(culled, registrations, inputs);
    let id = w.entities[i].id;
    lemma_filter_keeps_order(w.entities, query.others());
    lemma_despawn_leads(w, query);
    law_frames_keep_the_world_in_order(culled, registrations, inputs);
    if holds_id(later.entities, id) {
        let j = choose|j: int|
            0 <= j < later.entities.len() && (#[trigger] later.entities[j]).id == id;
        assert(has_ancestor(culled.entities, later.entities[j]));
        let k = choose|k: int|
            0 <= k < culled.entities.len() && survives(
                #[trigger] culled.entities[k],
                later.entities[j],
            );
        assert(culled.entities[k].id == id);
    }
}

/// The scoring pass gives the points to exactly the obstacles that lie left
/// of the bird and had none, changes nothing else, and sends one signal for
/// each of them.
pub proof fn law_score_counts_each_crossing(w: WorldView, i: int)
    requires
        0 <= i < w.entities.len(),
    ensures
        spec_score_obstacle(w).entities.len() == w.entities.len(),
        spec_score_obstacle(w).entities[i] == (Entity {
            scored: w.entities[i].scored || (w.entities[i].marker == Marker::Obstacle
                && w.entities[i].x < BIRB_X),
            ..w.entities[i]
        }),
        spec_score_obstacle(w).passed.len() == w.passed.len() + w.select(
            Query::UnscoredLeftOf(BIRB_X),
        ).len(),
{
}

/// While no obstacle without points lies left of the bird, the scoring pass
/// sends no signal and changes nothing.
pub proof fn law_no_signal_before_the_crossing(w: WorldView)
    requires
        forall|i: int|
            0 <= i < w.entities.len() ==> !((#[trigger] w.entities[i]).marker == Marker::Obstacle
                && !w.entities[i].scored && w.entities[i].x < BIRB_X),
    ensures
        spec_score_obstacle(w) == w,
{
    let query = Query::UnscoredLeftOf(BIRB_X);
    let found = w.select(query);
    if found.len() > 0 {
        w.entities.lemma_filter_pred(query.chosen(), 0);
        w.entities.lemma_filter_contains_rev(query.chosen(), found[0]);
        let i = choose|i: int| 0 <= i < w.entities.len() && w.entities[i] == found[0];
        assert(query.spec_matches(w.entities[i]));
    }
    assert(w.passed + passes(0) == w.passed);
    assert(w.entities.map(changed_where(query, Change::Scored)) == w.entities);
}

/// Right after the scoring pass a second one sends no signal. Each
/// obstacle is counted once.
pub proof fn law_score_counts_once(w: WorldView)
    ensures
        spec_score_obstacle(spec_score_obstacle(w)) == spec_score_obstacle(w),
{
    law_no_signal_before_the_crossing(spec_score_obstacle(w));
}

/// The points of an obstacle are never taken back. Through all
/// later frames whatever has its identity has the points, so that no pass
/// counts it again.
pub proof fn law_scored_stays_scored(
    w: WorldView,
    i: int,
    registrations: Seq<Registration>,
    inputs: Seq<Input>,
    j: int,
)
    requires
        w.wf(),
        0 <= i < w.entities.len(),
        w.entities[i].scored,
        0 <= j < spec_play(w, registrations, inputs).entities.len(),
        spec_play(w, registrations, inputs).entities[j].id == w.entities[i].id,
    ensures
        spec_play(w, registrations, inputs).entities[j].scored,
        !Query::UnscoredLeftOf(BIRB_X).spec_matches(spec_play(w, registrations, inputs).entities[j]),
{
    let later = spec_play(w, registrations, inputs);
    law_frames_keep_the_world_in_order(w, registrations, inputs);
    assert(has_ancestor(w.entities, later.entities[j]));
    let k = choose|k: int|
        0 <= k < w.entities.len() && survives(#[trigger] w.entities[k], later.entities[j]);
    if k < i {
        assert(w.entities[k].id != w.entities[i].id);
    } else if i < k {
        assert(w.entities[i].id != w.entities[k].id);
    }
}

/// The word that the obstacle generator stands at after `draws` heights have
/// been drawn in a run that started from `seed`.
pub open spec fn word_after(seed: u64, draws: nat) -> u64
    decreases draws,
{
    if draws == 0 {
        seed
    } else {
        range_draw(
            word_after(seed, (draws - 1) as nat),
            SPAWN_HEIGHT_MIN,
            SPAWN_HEIGHT_MAX,
        ).1
    }
}

/// The height of obstacle number `index`, counted from zero, of a run that
/// started from `seed`.
pub open spec fn height_at(seed: u64, index: nat) -> i64 {
    range_draw(word_after(seed, index), SPAWN_HEIGHT_MIN, SPAWN_HEIGHT_MAX).0
}

/// Whether the obstacle generator stands where some number of draws from the
/// seed have left it.
pub open spec fn on_track(w: WorldView) -> bool {
    exists|draws: nat| w.word == #[trigger] word_after(w.seed, draws)
}

/// The obstacle that appears after `draws` earlier ones of the
/// run has the height that the seed fixes for it, whatever else has happened
/// in the world.
pub proof fn law_heights_follow_the_seed(w: WorldView, window: Window, draws: nat)
    requires
        w.next_id < u64::MAX,
    ensures
        spec_spawn_obstacle(w, Some(window)).entities == w.entities.push(
            spec_spawn_obstacle(w, Some(window)).entities.last(),
        ),
        spec_spawn_obstacle(w, Some(window)).entities.last().marker == Marker::Obstacle,
        spec_spawn_obstacle(w, Some(window)).seed == w.seed,
        w.word == word_after(w.seed, draws) ==> spec_spawn_obstacle(
            w,
            Some(window),
        ).entities.last().y == height_at(w.seed, draws) && spec_spawn_obstacle(
            w,
            Some(window),
        ).word == word_after(w.seed, draws + 1),
{
    assert(word_after(w.seed, draws + 1) == range_draw(
        word_after(w.seed, draws),
        SPAWN_HEIGHT_MIN,
            SPAWN_HEIGHT_MAX,
    ).1);
}

/// No pass changes the seed, and none moves the generator but
/// the two that draw a height and the one that sets it back to the seed. So
/// the generator always stands where some number of draws from the seed have
/// left it.
pub proof fn law_passes_keep_the_generator_on_track(w: WorldView, system: System, input: Input)
    ensures
        spec_run_system(w, system, input).seed == w.seed,
        system != System::SpawnObstacle && system != System::SpawnObstacleTimed && system
            != System::ResetEntropy ==> spec_run_system(w, system, input).word == w.word,
        system == System::ResetEntropy ==> spec_run_system(w, system, input).word == w.seed,
        on_track(w) ==> on_track(spec_run_system(w, system, input)),
{
    reveal(spec_run_system);
    let later = spec_run_system(w, system, input);
    if on_track(w) {
        lemma_pass_keeps_on_track(w, later);
    }
}

/// A world whose generator has stayed, has drawn once or has been set back
/// is on track if the world before it was.
proof fn lemma_pass_keeps_on_track(w: WorldView, later: WorldView)
    requires
        on_track(w),
        later.seed == w.seed,
        later.word == w.word || later.word == w.seed || later.word == range_draw(
            w.word,
            SPAWN_HEIGHT_MIN,
            SPAWN_HEIGHT_MAX,
        ).1,
    ensures
        on_track(later),
{
    let draws = choose|draws: nat| w.word == #[trigger] word_after(w.seed, draws);
    assert(word_after(w.seed, draws + 1) == range_draw(
        word_after(w.seed, draws),
        SPAWN_HEIGHT_MIN,
            SPAWN_HEIGHT_MAX,
    ).1);
    assert(w.seed == word_after(w.seed, 0));
    if later.word == w.word {
        assert(later.word == word_after(later.seed, draws));
    } else if later.word == w.seed {
        assert(later.word == word_after(later.seed, 0));
    } else {
        assert(later.word == word_after(later.seed, draws + 1));
    }
}

/// The passes of a list, from one entry on, keep the seed and keep the
/// generator on track.
proof fn lemma_run_from_on_track(
    w: WorldView,
    registrations: Seq<Registration>,
    label: Label,
    input: Input,
    from: int,
)
    ensures
        spec_run_from(w, registrations, label, input, from).seed == w.seed,
        on_track(w) ==> on_track(spec_run_from(w, registrations, label, input, from)),
    decreases registrations.len() - from,
{
    if from < 0 || from >= registrations.len() {
    } else if registrations[from].spec_enabled(label, w) {
        let next = spec_run_system(w, registrations[from].system, input);
        law_passes_keep_the_generator_on_track(w, registrations[from].system, input);
        lemma_run_from_on_track(next, registrations, label, input, from + 1);
    } else {
        lemma_run_from_on_track(w, registrations, label, input, from + 1);
    }
}

/// Whatever the list of passes and whatever the frame brings,
/// a frame keeps the seed and keeps the generator on track.
pub proof fn law_frames_keep_the_generator_on_track(
    w: WorldView,
    registrations: Seq<Registration>,
    input: Input,
)
    ensures
        spec_update(w, registrations, input).seed == w.seed,
        on_track(w) ==> on_track(spec_update(w, registrations, input)),
{
    let fresh = WorldView { presses: Seq::empty(), passed: Seq::empty(), ..w };
    let read = spec_read_back(fresh, input.readings@);
    assert(on_track(w) ==> on_track(read)) by {
        if on_track(w) {
            lemma_pass_keeps_on_track(w, read);
        }
    }
    let outer = spec_apply_app_transition(read, registrations, input);
    assert(outer.seed == w.seed && (on_track(read) ==> on_track(outer))) by {
        if read.next_app_state is Some {
            let next = read.next_app_state->0;
            let cleared = WorldView { next_app_state: None, ..read };
            let exit = Label::OnExit(read.app_state);
            let exited = spec_run_schedule(cleared, registrations, exit, input);
            let moved = WorldView {
                app_state: next,
                ..exited.despawn(Query::Scoped(read.app_state))
            };
            lemma_run_from_on_track(cleared, registrations, exit, input, 0);
            lemma_run_from_on_track(moved, registrations, Label::OnEnter(next), input, 0);
            if on_track(read) {
                lemma_pass_keeps_on_track(read, cleared);
                lemma_pass_keeps_on_track(exited, moved);
            }
        }
    }
    let entered = spec_apply_game_transition(outer, registrations, input);
    assert(entered.seed == w.seed && (on_track(outer) ==> on_track(entered))) by {
        if outer.next_game_state is Some {
            let next = outer.next_game_state->0;
            let cleared = WorldView { next_game_state: None, ..outer };
            let turned = WorldView { game_state: next, ..cleared };
            lemma_run_from_on_track(turned, registrations, Label::OnEnterGame(next), input, 0);
            if on_track(outer) {
                lemma_pass_keeps_on_track(outer, cleared);
                lemma_pass_keeps_on_track(outer, turned);
            }
        }
    }
    lemma_run_from_on_track(entered, registrations, Label::Update, input, 0);
}

/// Any number of frames keep the seed and keep the generator
/// on track. Every height of the game is one that the seed fixes.
pub proof fn law_play_keeps_the_generator_on_track(
    w: WorldView,
    registrations: Seq<Registration>,
    inputs: Seq<Input>,
)
    ensures
        spec_play(w, registrations, inputs).seed == w.seed,
        on_track(w) ==> on_track(spec_play(w, registrations, inputs)),
    decreases inputs.len(),
{
    if inputs.len() > 0 {
        law_play_keeps_the_generator_on_track(w, registrations, inputs.drop_last());
        law_frames_keep_the_generator_on_track(
            spec_play(w, registrations, inputs.drop_last()),
            registrations,
            inputs.last(),
        );
    }
}

/// The shared resources each have one owner: only the pass that rewards the
/// player and the one that starts a run change the score, and only the two
/// passes of the obstacle timer change the timer.
pub proof fn law_resources_have_one_owner(w: WorldView, system: System, input: Input)
    ensures
        system != System::PlayerScored && system != System::ResetGameState ==> spec_run_system(
            w,
            system,
            input,
        ).score == w.score,
        system != System::SpawnObstacleTimed && system != System::ResetTimer ==> spec_run_system(
            w,
            system,
            input,
        ).spawn_timer == w.spawn_timer,
{
    reveal(spec_run_system);
    if system == System::SpawnGroundAndCeiling {
        if let Some(window) = input.window {
            let a = w.spawn(picture(Marker::Background, Some(AppState::InGame), 0, 0));
            let b = a.spawn(
                picture(Marker::GroundTexture, Some(AppState::InGame), 0, GROUND_TEXTURE_Y),
            );
            let c = b.spawn(boundary(Marker::Roof, window, 1));
            assert(a.score == w.score && a.spawn_timer == w.spawn_timer);
            assert(b.score == w.score && b.spawn_timer == w.spawn_timer);
            assert(c.score == w.score && c.spawn_timer == w.spawn_timer);
        }
    }
}

/// A pass that needs exactly one of an entity does nothing where there is
/// none or more than one: the flap without exactly one bird, the score where
/// there is not exactly one display, and the end of the loading without
/// exactly one loading screen.
pub proof fn law_passes_wait_for_their_one_entity(w: WorldView)
    ensures
        w.select(Query::Marked(Marker::Bird)).len() != 1 ==> spec_flap_bird(w) == w,
        w.select(Query::Marked(Marker::ScoreDisplay)).len() != 1 ==> spec_update_score(w) == w,
        w.select(Query::Marked(Marker::LoadingScreen)).len() != 1 ==> spec_despawn_loading_screen(
            w,
        ) == w,
{
}

} // verus!
