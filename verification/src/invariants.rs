//! What stays true of a world whatever happens to it: identities are never
//! given out twice, an entity keeps what it is, and points once given are
//! not taken back.

use crate::application::{
    spec_apply_app_transition, spec_apply_game_transition, spec_apply_transitions, spec_enter,
    spec_startup, spec_update,
};
use crate::bird::{flap_lifts, fresh_animation, new_bird};
use crate::consts::{BIRB_X, GROUND_TEXTURE_Y, JUMP_VELOCITY, SPAWN_HEIGHT_MAX, SPAWN_HEIGHT_MIN};
use crate::entropy::range_draw;
use crate::game::{boundary, picture, spec_spawn_ground_and_ceiling};
use crate::input::Input;
use crate::obstacles::{left_boundary, obstacle_at, right_boundary, spec_spawn_obstacle};
use crate::physics::{moved_by, Reading, spec_read_back};
use crate::schedule::{
    Label, Registration, spec_run_from, spec_run_schedule, spec_run_system, System,
};
use crate::state::AppState;
use crate::world::{Change, changed_where, Entity, Marker, Query, Window, WorldView};
use vstd::prelude::*;

verus! {

/// The phase that an entity with this marker is bound to, if any.
pub open spec fn scope_of(marker: Marker) -> Option<AppState> {
    match marker {
        Marker::Camera | Marker::LoadingScreen => None,
        Marker::StartBackground | Marker::StartInstructions => Some(AppState::Menu),
        _ => Some(AppState::InGame),
    }
}

/// Every identity is below `bound`.
pub open spec fn ids_below(entities: Seq<Entity>, bound: u64) -> bool {
    forall|i: int| 0 <= i < entities.len() ==> (#[trigger] entities[i]).id < bound
}

/// No two entities have one identity.
pub open spec fn unique_ids(entities: Seq<Entity>) -> bool {
    forall|i: int, j: int|
        0 <= i < j < entities.len() ==> (#[trigger] entities[i]).id != (#[trigger] entities[j]).id
}

/// Every entity is bound to the phase that goes with its marker.
pub open spec fn well_scoped(entities: Seq<Entity>) -> bool {
    forall|i: int|
        0 <= i < entities.len() ==> (#[trigger] entities[i]).scope == scope_of(entities[i].marker)
}

/// Whether `later` can be what has become of `earlier`: it has the same
/// identity, marker and scope, and it has not lost its points.
pub open spec fn survives(earlier: Entity, later: Entity) -> bool {
    &&& earlier.id == later.id
    &&& earlier.marker == later.marker
    &&& earlier.scope == later.scope
    &&& earlier.scored ==> later.scored
}

/// Whether `entity` is what has become of one of `earlier`.
pub open spec fn has_ancestor(earlier: Seq<Entity>, entity: Entity) -> bool {
    exists|i: int| 0 <= i < earlier.len() && survives(#[trigger] earlier[i], entity)
}

/// Whether an entity with this identity is among `entities`.
pub open spec fn holds_id(entities: Seq<Entity>, id: u64) -> bool {
    exists|i: int| 0 <= i < entities.len() && (#[trigger] entities[i]).id == id
}

impl WorldView {
    /// The world is in order: every identity in use is below the next one to
    /// be given out, none is in use twice, and every entity is bound to the
    /// phase that goes with its marker.
    pub open spec fn wf(self) -> bool {
        &&& ids_below(self.entities, self.next_id)
        &&& unique_ids(self.entities)
        &&& well_scoped(self.entities)
    }

    /// Whether `later` can come after this world: no identity was taken
    /// back, every entity of `later` is new or is what has become of one of
    /// this world, and `later` is in order if this world is.
    pub open spec fn leads_to(self, later: WorldView) -> bool {
        &&& self.next_id <= later.next_id
        &&& self.wf() ==> later.wf()
        &&& forall|j: int|
            0 <= j < later.entities.len() ==> (#[trigger] later.entities[j]).id >= self.next_id
                || has_ancestor(self.entities, later.entities[j])
    }
}

/// A world leads to itself, and to any world with the same entities and the
/// same next identity.
pub proof fn lemma_same_entities(w: WorldView, later: WorldView)
    requires
        later.entities == w.entities,
        later.next_id == w.next_id,
    ensures
        w.leads_to(later),
{
    assert forall|j: int| 0 <= j < later.entities.len() implies has_ancestor(
        w.entities,
        #[trigger] later.entities[j],
    ) by {
        assert(survives(w.entities[j], later.entities[j]));
    }
}

/// What comes after what comes after a world comes after the world.
pub proof fn lemma_leads_to_transitive(a: WorldView, b: WorldView, c: WorldView)
    requires
        a.leads_to(b),
        b.leads_to(c),
    ensures
        a.leads_to(c),
{
    assert forall|j: int| 0 <= j < c.entities.len() implies (#[trigger] c.entities[j]).id
        >= a.next_id || has_ancestor(a.entities, c.entities[j]) by {
        let e = c.entities[j];
        if e.id < a.next_id {
            assert(has_ancestor(b.entities, e));
            let k = choose|k: int|
                0 <= k < b.entities.len() && survives(#[trigger] b.entities[k], e);
            assert(b.entities[k].id < a.next_id);
            assert(has_ancestor(a.entities, b.entities[k]));
            let i = choose|i: int|
                0 <= i < a.entities.len() && survives(#[trigger] a.entities[i], b.entities[k]);
            assert(survives(a.entities[i], e));
        }
    }
}

/// A world leads to itself with one more entity, if the entity is bound to
/// the phase that goes with its marker.
pub proof fn lemma_spawn_leads(w: WorldView, entity: Entity)
    requires
        entity.scope == scope_of(entity.marker),
    ensures
        w.leads_to(w.spawn(entity)),
{
    let later = w.spawn(entity);
    if w.next_id == u64::MAX {
        lemma_same_entities(w, later);
    } else {
        assert forall|j: int| 0 <= j < later.entities.len() implies (#[trigger] later.entities[j]).id
            >= w.next_id || has_ancestor(w.entities, later.entities[j]) by {
            if j < w.entities.len() {
                assert(survives(w.entities[j], later.entities[j]));
            }
        }
    }
}

/// What a filter keeps was there before, in the same order: so identities
/// stay unique, and an entity that the filter drops is gone.
pub proof fn lemma_filter_keeps_order(entities: Seq<Entity>, keep: spec_fn(Entity) -> bool)
    ensures
        forall|j: int|
            0 <= j < entities.filter(keep).len() ==> keep(#[trigger] entities.filter(keep)[j])
                && has_ancestor(entities, entities.filter(keep)[j]),
        unique_ids(entities) ==> unique_ids(entities.filter(keep)),
        unique_ids(entities) ==> forall|i: int|
            0 <= i < entities.len() && !keep(#[trigger] entities[i]) ==> !holds_id(
                entities.filter(keep),
                entities[i].id,
            ),
    decreases entities.len(),
{
    reveal(Seq::filter);
    let kept = entities.filter(keep);
    if entities.len() > 0 {
        let front = entities.drop_last();
        let last = entities.last();
        lemma_filter_keeps_order(front, keep);
        let before = front.filter(keep);
        assert forall|j: int| 0 <= j < kept.len() implies keep(#[trigger] kept[j]) && has_ancestor(
            entities,
            kept[j],
        ) by {
            if j < before.len() {
                assert(kept[j] == before[j]);
                let i = choose|i: int|
                    0 <= i < front.len() && survives(#[trigger] front[i], before[j]);
                assert(survives(entities[i], kept[j]));
            } else {
                assert(survives(entities[entities.len() - 1], kept[j]));
            }
        }
        if unique_ids(entities) {
            assert(unique_ids(front)) by {
                assert forall|i: int, j: int| 0 <= i < j < front.len() implies (#[trigger] front[i]).id
                    != (#[trigger] front[j]).id by {
                    assert(front[i] == entities[i] && front[j] == entities[j]);
                }
            }
            assert forall|j: int| 0 <= j < before.len() implies (#[trigger] before[j]).id
                != last.id by {
                let i = choose|i: int|
                    0 <= i < front.len() && survives(#[trigger] front[i], before[j]);
                assert(front[i] == entities[i]);
                assert(entities[i].id != entities[entities.len() - 1].id);
            }
            assert forall|i: int, j: int| 0 <= i < j < kept.len() implies (#[trigger] kept[i]).id
                != (#[trigger] kept[j]).id by {
                if j < before.len() {
                    assert(kept[i] == before[i] && kept[j] == before[j]);
                } else {
                    assert(kept[i] == before[i]);
                }
            }
            assert forall|i: int| 0 <= i < entities.len() && !keep(#[trigger] entities[i]) implies !holds_id(
                kept,
                entities[i].id,
            ) by {
                if holds_id(kept, entities[i].id) {
                    let j = choose|j: int|
                        0 <= j < kept.len() && (#[trigger] kept[j]).id == entities[i].id;
                    if i < front.len() {
                        assert(front[i] == entities[i]);
                        assert(!holds_id(before, front[i].id));
                        if j < before.len() {
                            assert(kept[j] == before[j]);
                        } else {
                            assert(entities[i].id != entities[entities.len() - 1].id);
                        }
                    } else {
                        assert(kept[j] == before[j]);
                    }
                }
            }
        }
    }
}

/// A world leads to itself without the entities that a query chooses.
pub proof fn lemma_despawn_leads(w: WorldView, query: Query)
    ensures
        w.leads_to(w.despawn(query)),
{
    let later = w.despawn(query);
    lemma_filter_keeps_order(w.entities, query.others());
    if w.wf() {
        assert forall|j: int| 0 <= j < later.entities.len() implies (#[trigger] later.entities[j]).id
            < later.next_id && later.entities[j].scope == scope_of(later.entities[j].marker) by {
            let i = choose|i: int|
                0 <= i < w.entities.len() && survives(#[trigger] w.entities[i], later.entities[j]);
        }
    }
}

/// A world leads to itself with entities changed one by one, if every
/// entity survives its change.
pub proof fn lemma_map_leads(w: WorldView, change: spec_fn(int, Entity) -> Entity)
    requires
        forall|i: int, entity: Entity| survives(entity, #[trigger] change(i, entity)),
    ensures
        w.leads_to(WorldView { entities: w.entities.map(change), ..w }),
{
    let later = WorldView { entities: w.entities.map(change), ..w };
    assert forall|j: int| 0 <= j < later.entities.len() implies has_ancestor(
        w.entities,
        #[trigger] later.entities[j],
    ) by {
        assert(survives(w.entities[j], change(j, w.entities[j])));
    }
    if w.wf() {
        assert forall|j: int| 0 <= j < later.entities.len() implies (#[trigger] later.entities[j]).id
            < later.next_id && later.entities[j].scope == scope_of(later.entities[j].marker) by {
            assert(survives(w.entities[j], change(j, w.entities[j])));
        }
        assert forall|i: int, j: int| 0 <= i < j < later.entities.len() implies (
        #[trigger] later.entities[i]).id != (#[trigger] later.entities[j]).id by {
            assert(survives(w.entities[i], change(i, w.entities[i])));
            assert(survives(w.entities[j], change(j, w.entities[j])));
        }
    }
}

/// A world leads to itself with a change made to the entities that a query
/// chooses.
pub proof fn lemma_modify_leads(w: WorldView, query: Query, change: Change)
    ensures
        w.leads_to(w.modify(query, change)),
{
    lemma_map_leads(w, changed_where(query, change));
}

/// A world leads to itself with the physics simulation's report taken over.
pub proof fn lemma_read_back_leads(w: WorldView, readings: Seq<Reading>)
    ensures
        w.leads_to(spec_read_back(w, readings)),
{
    lemma_map_leads(w, moved_by(readings));
}

/// Whether a pass makes entities.
pub open spec fn spawns(system: System) -> bool {
    system == System::SetupCamera || system == System::SpawnLoadingScreen || system
        == System::SpawnStartMenu || spawns_for_the_run(system)
}

/// Whether a pass destroys or changes entities.
pub open spec fn touches(system: System) -> bool {
    system == System::DespawnLoadingScreen || system == System::FlapBird || system
        == System::TrackObstacleMovement || system == System::ScoreObstacle
}

/// A pass that neither makes nor touches entities leaves them, the next
/// identity and the phases as they are.
proof fn lemma_idle_system_keeps(w: WorldView, system: System, input: Input)
    requires
        !spawns(system),
        !touches(system),
    ensures
        spec_run_system(w, system, input).entities == w.entities,
        spec_run_system(w, system, input).next_id == w.next_id,
        spec_run_system(w, system, input).app_state == w.app_state,
        spec_run_system(w, system, input).game_state == w.game_state,
{
    reveal(spec_run_system);
    match system {
        System::ContinueToMenu => {},
        System::StartGameOnInput => {},
        System::DetectCollisions => {},
        System::PlayerScored => {},
        System::UpdateScore => {},
        System::FinishGame => {},
        System::EscapeToQuit => {},
        System::StartPhysics => {},
        System::StopPhysics => {},
        System::AnimateBird => {},
        System::ListenForInput => {},
        System::ResetTimer => {},
        System::ResetGameState => {},
        _ => {},
    }
}

/// A world leads to what a pass that neither makes nor touches entities
/// makes of it.
proof fn lemma_idle_system_leads(w: WorldView, system: System, input: Input)
    requires
        !spawns(system),
        !touches(system),
    ensures
        w.leads_to(spec_run_system(w, system, input)),
        spec_run_system(w, system, input).entities == w.entities,
        spec_run_system(w, system, input).app_state == w.app_state,
        spec_run_system(w, system, input).game_state == w.game_state,
{
    lemma_idle_system_keeps(w, system, input);
    lemma_same_entities(w, spec_run_system(w, system, input));
}

/// A world leads to what a pass that makes entities for the screens makes
/// of it.
proof fn lemma_screen_system_leads(w: WorldView, system: System, input: Input)
    requires
        spawns(system),
        !spawns_for_the_run(system) || system == System::SpawnUi || system
            == System::SpawnGameOverUi,
    ensures
        w.leads_to(spec_run_system(w, system, input)),
        spec_run_system(w, system, input).app_state == w.app_state,
        spec_run_system(w, system, input).game_state == w.game_state,
{
    reveal(spec_run_system);
    let later = spec_run_system(w, system, input);
    if system == System::SetupCamera {
        lemma_spawn_leads(w, picture(Marker::Camera, None, 0, 0));
    } else if system == System::SpawnLoadingScreen {
        lemma_spawn_leads(w, picture(Marker::LoadingScreen, None, 0, 0));
    } else if system == System::SpawnStartMenu {
        let first = picture(Marker::StartBackground, Some(AppState::Menu), 0, 0);
        let second = picture(Marker::StartInstructions, Some(AppState::Menu), 0, 0);
        lemma_spawn_leads(w, first);
        lemma_spawn_leads(w.spawn(first), second);
        lemma_leads_to_transitive(w, w.spawn(first), later);
    } else if system == System::SpawnUi {
        lemma_spawn_leads(w, picture(Marker::ScoreDisplay, Some(AppState::InGame), 0, 0));
    } else {
        lemma_spawn_leads(w, picture(Marker::GameOverScreen, Some(AppState::InGame), 0, 0));
    }
}

/// A world leads to itself with the surroundings of a run.
proof fn lemma_ground_and_ceiling_lead(w: WorldView, window: Option<Window>)
    ensures
        w.leads_to(spec_spawn_ground_and_ceiling(w, window)),
        spec_spawn_ground_and_ceiling(w, window).app_state == w.app_state,
        spec_spawn_ground_and_ceiling(w, window).game_state == w.game_state,
{
    match window {
        Some(window) => {
            let a = picture(Marker::Background, Some(AppState::InGame), 0, 0);
            let b = picture(Marker::GroundTexture, Some(AppState::InGame), 0, GROUND_TEXTURE_Y);
            let c = boundary(Marker::Roof, window, 1);
            let d = boundary(Marker::Floor, window, -1);
            let w1 = w.spawn(a);
            let w2 = w1.spawn(b);
            let w3 = w2.spawn(c);
            lemma_spawn_leads(w, a);
            lemma_spawn_leads(w1, b);
            lemma_spawn_leads(w2, c);
            lemma_spawn_leads(w3, d);
            lemma_leads_to_transitive(w, w1, w2);
            lemma_leads_to_transitive(w, w2, w3);
            lemma_leads_to_transitive(w, w3, w3.spawn(d));
        },
        None => {
            lemma_same_entities(w, w);
        },
    }
}

/// A world leads to what a pass that makes the bodies of a run makes of it.
proof fn lemma_body_system_leads(w: WorldView, system: System, input: Input)
    requires
        system == System::SpawnGroundAndCeiling || system == System::SpawnBird || system
            == System::SpawnObstacle || system == System::SpawnObstacleTimed,
    ensures
        w.leads_to(spec_run_system(w, system, input)),
        spec_run_system(w, system, input).app_state == w.app_state,
        spec_run_system(w, system, input).game_state == w.game_state,
{
    reveal(spec_run_system);
    let later = spec_run_system(w, system, input);
    if system == System::SpawnGroundAndCeiling {
        lemma_ground_and_ceiling_lead(w, input.window);
    } else if system == System::SpawnBird {
        let prepared = WorldView { animation: fresh_animation(), ..w };
        lemma_same_entities(w, prepared);
        lemma_spawn_leads(prepared, new_bird());
        lemma_leads_to_transitive(w, prepared, later);
    } else if system == System::SpawnObstacle {
        lemma_spawn_obstacle_leads(w, input.window);
    } else {
        let ticked = WorldView { spawn_timer: w.spawn_timer.spec_tick(input.delta), ..w };
        lemma_same_entities(w, ticked);
        lemma_spawn_obstacle_leads(ticked, input.window);
        if ticked.spawn_timer.spec_just_finished() {
            lemma_leads_to_transitive(w, ticked, later);
        }
    }
}

/// A world leads to what a pass that destroys or changes entities makes of
/// it.
proof fn lemma_touching_system_leads(w: WorldView, system: System, input: Input)
    requires
        touches(system),
    ensures
        w.leads_to(spec_run_system(w, system, input)),
        spec_run_system(w, system, input).app_state == w.app_state,
        spec_run_system(w, system, input).game_state == w.game_state,
{
    reveal(spec_run_system);
    let later = spec_run_system(w, system, input);
    lemma_same_entities(w, w);
    if system == System::DespawnLoadingScreen {
        lemma_despawn_leads(w, Query::Marked(Marker::LoadingScreen));
    } else if system == System::FlapBird {
        if flap_lifts(w) {
            let lifted = w.modify(Query::Marked(Marker::Bird), Change::Lifted(JUMP_VELOCITY));
            lemma_modify_leads(w, Query::Marked(Marker::Bird), Change::Lifted(JUMP_VELOCITY));
            lemma_same_entities(lifted, later);
            lemma_leads_to_transitive(w, lifted, later);
        }
    } else if system == System::TrackObstacleMovement {
        if let Some(window) = input.window {
            lemma_despawn_leads(w, Query::ObstaclesLeftOf(left_boundary(window) as i64));
        }
    } else {
        let query = Query::UnscoredLeftOf(BIRB_X);
        lemma_modify_leads(w, query, Change::Scored);
        lemma_same_entities(w.modify(query, Change::Scored), later);
        lemma_leads_to_transitive(w, w.modify(query, Change::Scored), later);
    }
}

/// A world leads to what any one pass makes of it, and the pass changes
/// neither phase.
pub proof fn lemma_system_leads(w: WorldView, system: System, input: Input)
    ensures
        w.leads_to(spec_run_system(w, system, input)),
        spec_run_system(w, system, input).app_state == w.app_state,
        spec_run_system(w, system, input).game_state == w.game_state,
{
    if touches(system) {
        lemma_touching_system_leads(w, system, input);
    } else if !spawns(system) {
        lemma_idle_system_leads(w, system, input);
    } else if system == System::SpawnGroundAndCeiling || system == System::SpawnBird || system
        == System::SpawnObstacle || system == System::SpawnObstacleTimed {
        lemma_body_system_leads(w, system, input);
    } else {
        lemma_screen_system_leads(w, system, input);
    }
}

/// A world leads to itself with one more obstacle.
pub proof fn lemma_spawn_obstacle_leads(w: WorldView, window: Option<Window>)
    ensures
        w.leads_to(spec_spawn_obstacle(w, window)),
{
    match window {
        Some(window) => {
            let draw = range_draw(w.word, SPAWN_HEIGHT_MIN, SPAWN_HEIGHT_MAX);
            let drawn = WorldView { word: draw.1, ..w };
            lemma_same_entities(w, drawn);
            lemma_spawn_leads(drawn, obstacle_at(right_boundary(window), draw.0));
            lemma_leads_to_transitive(
                w,
                drawn,
                drawn.spawn(obstacle_at(right_boundary(window), draw.0)),
            );
        },
        None => {
            lemma_same_entities(w, w);
        },
    }
}

/// A world leads to what the passes of a list, from one entry on, make of
/// it.
pub proof fn lemma_run_from_leads(
    w: WorldView,
    registrations: Seq<Registration>,
    label: Label,
    input: Input,
    from: int,
)
    ensures
        w.leads_to(spec_run_from(w, registrations, label, input, from)),
    decreases registrations.len() - from,
{
    if from < 0 || from >= registrations.len() {
        lemma_same_entities(w, w);
    } else if registrations[from].spec_enabled(label, w) {
        let next = spec_run_system(w, registrations[from].system, input);
        lemma_system_leads(w, registrations[from].system, input);
        lemma_run_from_leads(next, registrations, label, input, from + 1);
        lemma_leads_to_transitive(
            w,
            next,
            spec_run_from(next, registrations, label, input, from + 1),
        );
    } else {
        lemma_run_from_leads(w, registrations, label, input, from + 1);
    }
}

/// A world leads to what entering an outer phase makes of it.
pub proof fn lemma_enter_leads(
    w: WorldView,
    registrations: Seq<Registration>,
    next: AppState,
    input: Input,
)
    ensures
        w.leads_to(spec_enter(w, registrations, next, input)),
{
    let exited = spec_run_schedule(w, registrations, Label::OnExit(w.app_state), input);
    let swept = exited.despawn(Query::Scoped(w.app_state));
    let moved = WorldView { app_state: next, ..swept };
    lemma_run_from_leads(w, registrations, Label::OnExit(w.app_state), input, 0);
    lemma_despawn_leads(exited, Query::Scoped(w.app_state));
    lemma_same_entities(swept, moved);
    lemma_run_from_leads(moved, registrations, Label::OnEnter(next), input, 0);
    lemma_leads_to_transitive(w, exited, swept);
    lemma_leads_to_transitive(w, swept, moved);
    lemma_leads_to_transitive(w, moved, spec_enter(w, registrations, next, input));
}

/// A world leads to what the frame boundary makes of it.
pub proof fn lemma_transitions_lead(w: WorldView, registrations: Seq<Registration>, input: Input)
    ensures
        w.leads_to(spec_apply_transitions(w, registrations, input)),
{
    let outer = spec_apply_app_transition(w, registrations, input);
    match w.next_app_state {
        Some(next) => {
            let cleared = WorldView { next_app_state: None, ..w };
            lemma_same_entities(w, cleared);
            if next != w.app_state {
                lemma_enter_leads(cleared, registrations, next, input);
                lemma_leads_to_transitive(w, cleared, outer);
            }
        },
        None => {
            lemma_same_entities(w, w);
        },
    }
    let inner = spec_apply_game_transition(outer, registrations, input);
    match outer.next_game_state {
        Some(next) => {
            let cleared = WorldView { next_game_state: None, ..outer };
            lemma_same_entities(outer, cleared);
            if !(outer.app_state != AppState::InGame || next == outer.game_state) {
                let turned = WorldView { game_state: next, ..cleared };
                lemma_same_entities(outer, turned);
                lemma_run_from_leads(turned, registrations, Label::OnEnterGame(next), input, 0);
                lemma_leads_to_transitive(outer, turned, inner);
            }
        },
        None => {
            lemma_same_entities(outer, outer);
        },
    }
    lemma_leads_to_transitive(w, outer, inner);
}

/// A world leads to what the passes before the first frame make of it.
pub proof fn lemma_startup_leads(w: WorldView, registrations: Seq<Registration>, input: Input)
    ensures
        w.leads_to(spec_startup(w, registrations, input)),
{
    let entered = spec_run_schedule(w, registrations, Label::OnEnter(w.app_state), input);
    let running = spec_run_schedule(
        entered,
        registrations,
        Label::OnEnterGame(entered.game_state),
        input,
    );
    lemma_run_from_leads(w, registrations, Label::OnEnter(w.app_state), input, 0);
    lemma_run_from_leads(entered, registrations, Label::OnEnterGame(entered.game_state), input, 0);
    lemma_run_from_leads(running, registrations, Label::Startup, input, 0);
    lemma_leads_to_transitive(w, entered, running);
    lemma_leads_to_transitive(w, running, spec_startup(w, registrations, input));
}

/// A world leads to what a frame makes of it.
pub proof fn lemma_update_leads(w: WorldView, registrations: Seq<Registration>, input: Input)
    ensures
        w.leads_to(spec_update(w, registrations, input)),
{
    let fresh = WorldView { presses: Seq::empty(), passed: Seq::empty(), ..w };
    let read = spec_read_back(fresh, input.readings@);
    let entered = spec_apply_transitions(read, registrations, input);
    lemma_same_entities(w, fresh);
    lemma_read_back_leads(fresh, input.readings@);
    lemma_transitions_lead(read, registrations, input);
    lemma_run_from_leads(entered, registrations, Label::Update, input, 0);
    lemma_leads_to_transitive(w, fresh, read);
    lemma_leads_to_transitive(w, read, entered);
    lemma_leads_to_transitive(w, entered, spec_update(w, registrations, input));
}

/// No entity is bound to `state`.
pub open spec fn none_scoped(entities: Seq<Entity>, state: AppState) -> bool {
    forall|i: int| 0 <= i < entities.len() ==> (#[trigger] entities[i]).scope != Some(state)
}

/// Every entity of `later` is what has become of one of `earlier`.
pub open spec fn descends(later: Seq<Entity>, earlier: Seq<Entity>) -> bool {
    forall|j: int| 0 <= j < later.len() ==> has_ancestor(earlier, #[trigger] later[j])
}

/// Whether a pass makes entities that are bound to a run.
pub open spec fn spawns_for_the_run(system: System) -> bool {
    system == System::SpawnGroundAndCeiling || system == System::SpawnUi || system
        == System::SpawnGameOverUi || system == System::SpawnBird || system
        == System::SpawnObstacle || system == System::SpawnObstacleTimed
}

/// Whether an entry of the list keeps entities that are bound to a run
/// inside the run: a pass that makes such entities runs only at the start of
/// a run, at the start of an inner phase, or in the frames of a run.
pub open spec fn keeps_to_the_run(registration: Registration) -> bool {
    spawns_for_the_run(registration.system) ==> registration.label == Label::OnEnter(
        AppState::InGame,
    ) || registration.label is OnEnterGame || (registration.label == Label::Update
        && registration.run_if is InGame)
}

/// Whether the passes at `label` run outside of a run, in the phases of `w`.
pub open spec fn outside_the_run(label: Label, w: WorldView) -> bool {
    &&& label != Label::OnEnter(AppState::InGame)
    &&& !(label is OnEnterGame)
    &&& label == Label::Update ==> w.app_state != AppState::InGame
}

/// Where nothing was bound to a phase, nothing that descends from it is.
pub proof fn lemma_descendants_stay_unscoped(
    later: Seq<Entity>,
    earlier: Seq<Entity>,
    state: AppState,
)
    requires
        descends(later, earlier),
        none_scoped(earlier, state),
    ensures
        none_scoped(later, state),
{
    assert forall|j: int| 0 <= j < later.len() implies (#[trigger] later[j]).scope != Some(
        state,
    ) by {
        assert(has_ancestor(earlier, later[j]));
    }
}

/// A pass that makes no entities for the run leaves a world without such
/// entities without them.
pub proof fn lemma_system_stays_outside_the_run(w: WorldView, system: System, input: Input)
    requires
        !spawns_for_the_run(system),
        none_scoped(w.entities, AppState::InGame),
    ensures
        none_scoped(spec_run_system(w, system, input).entities, AppState::InGame),
{
    let later = spec_run_system(w, system, input);
    if touches(system) {
        lemma_touching_system_descends(w, system, input);
        lemma_descendants_stay_unscoped(later.entities, w.entities, AppState::InGame);
    } else if !spawns(system) {
        lemma_idle_system_leads(w, system, input);
    } else {
        reveal(spec_run_system);
    }
}

/// What a pass that destroys or changes entities leaves descends from what
/// was there.
proof fn lemma_touching_system_descends(w: WorldView, system: System, input: Input)
    requires
        touches(system),
    ensures
        descends(spec_run_system(w, system, input).entities, w.entities),
{
    reveal(spec_run_system);
    let later = spec_run_system(w, system, input);
    assert forall|j: int| 0 <= j < w.entities.len() implies has_ancestor(
        w.entities,
        #[trigger] w.entities[j],
    ) by {
        assert(survives(w.entities[j], w.entities[j]));
    }
    if system == System::DespawnLoadingScreen {
        lemma_filter_keeps_order(w.entities, Query::Marked(Marker::LoadingScreen).others());
    } else if system == System::FlapBird {
        lemma_map_descends(
            w.entities,
            changed_where(Query::Marked(Marker::Bird), Change::Lifted(JUMP_VELOCITY)),
        );
    } else if system == System::TrackObstacleMovement {
        if let Some(window) = input.window {
            lemma_filter_keeps_order(
                w.entities,
                Query::ObstaclesLeftOf(left_boundary(window) as i64).others(),
            );
        }
    } else {
        lemma_map_descends(
            w.entities,
            changed_where(Query::UnscoredLeftOf(BIRB_X), Change::Scored),
        );
    }
}

/// Entities changed one by one descend from what they were, if every entity
/// survives its change.
proof fn lemma_map_descends(entities: Seq<Entity>, change: spec_fn(int, Entity) -> Entity)
    requires
        forall|i: int, entity: Entity| survives(entity, #[trigger] change(i, entity)),
    ensures
        descends(entities.map(change), entities),
{
    assert forall|j: int| 0 <= j < entities.len() implies has_ancestor(
        entities,
        #[trigger] entities.map(change)[j],
    ) by {
        assert(survives(entities[j], change(j, entities[j])));
    }
}

/// Outside of a run, the passes of a list that keeps to the run leave a
/// world without entities for the run without them.
pub proof fn lemma_run_from_stays_outside_the_run(
    w: WorldView,
    registrations: Seq<Registration>,
    label: Label,
    input: Input,
    from: int,
)
    requires
        forall|k: int|
            0 <= k < registrations.len() ==> keeps_to_the_run(#[trigger] registrations[k]),
        outside_the_run(label, w),
        none_scoped(w.entities, AppState::InGame),
    ensures
        none_scoped(
            spec_run_from(w, registrations, label, input, from).entities,
            AppState::InGame,
        ),
        spec_run_from(w, registrations, label, input, from).app_state == w.app_state,
        spec_run_from(w, registrations, label, input, from).game_state == w.game_state,
    decreases registrations.len() - from,
{
    if from < 0 || from >= registrations.len() {
    } else if registrations[from].spec_enabled(label, w) {
        let next = spec_run_system(w, registrations[from].system, input);
        lemma_system_leads(w, registrations[from].system, input);
        lemma_system_stays_outside_the_run(w, registrations[from].system, input);
        lemma_run_from_stays_outside_the_run(next, registrations, label, input, from + 1);
    } else {
        lemma_run_from_stays_outside_the_run(w, registrations, label, input, from + 1);
    }
}

/// The passes of a list change neither phase.
pub proof fn lemma_run_from_keeps_phases(
    w: WorldView,
    registrations: Seq<Registration>,
    label: Label,
    input: Input,
    from: int,
)
    ensures
        spec_run_from(w, registrations, label, input, from).app_state == w.app_state,
        spec_run_from(w, registrations, label, input, from).game_state == w.game_state,
    decreases registrations.len() - from,
{
    if from < 0 || from >= registrations.len() {
    } else if registrations[from].spec_enabled(label, w) {
        let next = spec_run_system(w, registrations[from].system, input);
        lemma_system_leads(w, registrations[from].system, input);
        lemma_run_from_keeps_phases(next, registrations, label, input, from + 1);
    } else {
        lemma_run_from_keeps_phases(w, registrations, label, input, from + 1);
    }
}

} // verus!
