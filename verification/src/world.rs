//! The entities of the game, the shared resources, and the commands that
//! tell the host what to show, move and play.

use crate::bird::Animation;
use crate::entropy::Entropy;
use crate::game::Score;
use crate::input::ButtonPressed;
use crate::obstacles::PlayerPassedObstacle;
use crate::state::{AppState, GameState};
use crate::timer::RepeatingTimer;
use vstd::prelude::*;

verus! {

/// What an entity is.
#[derive(Clone, Copy, PartialEq, Eq, Hash, Debug, Structural)]
pub enum Marker {
    /// The camera.
    Camera,
    /// The text shown while the assets load.
    LoadingScreen,
    /// The backdrop of the start screen.
    StartBackground,
    /// The instructions on the start screen.
    StartInstructions,
    /// The backdrop of a run.
    Background,
    /// The picture of the ground.
    GroundTexture,
    /// The collider above the play area.
    Roof,
    /// The collider below the play area.
    Floor,
    /// The text that shows the score.
    ScoreDisplay,
    /// The picture shown when a run has ended.
    GameOverScreen,
    /// The bird that the player steers.
    Bird,
    /// A pair of barriers with a gap between them.
    Obstacle,
}

/// The solid shape of an entity.
#[derive(Clone, Copy, PartialEq, Eq, Debug)]
pub enum Collider {
    /// Nothing can touch the entity.
    Nothing,
    /// A disc around the entity's position.
    Ball { radius: i64 },
    /// A box around the entity's position, given by half its width and half
    /// its height.
    Cuboid { half_width: i64, half_height: i64 },
    /// Two boxes of one size that report what overlaps them and push nothing
    /// back. Their centres lie `upper` and `lower` above the entity's
    /// position; a negative number is a centre below it.
    Barriers { half_width: i64, half_height: i64, upper: i64, lower: i64 },
}

/// One entity of the game.
#[derive(Clone, Copy, PartialEq, Eq, Debug)]
pub struct Entity {
    /// The identity, which no other entity ever has.
    pub id: u64,
    /// What the entity is.
    pub marker: Marker,
    /// The phase at whose end the entity is destroyed, if any.
    pub scope: Option<AppState>,
    /// Horizontal position.
    pub x: i64,
    /// Vertical position.
    pub y: i64,
    /// Horizontal velocity.
    pub vx: i64,
    /// Vertical velocity.
    pub vy: i64,
    /// The solid shape.
    pub collider: Collider,
    /// Whether the player has been given the points for this obstacle.
    pub scored: bool,
}

/// A sound effect.
#[derive(Clone, Copy, PartialEq, Eq, Hash, Debug, Structural)]
pub enum Sound {
    /// The bird has hit something.
    Hit,
    /// The bird has passed an obstacle.
    Point,
}

/// Something for the host to carry out.
#[derive(Clone, Copy, PartialEq, Eq, Debug)]
pub enum Command {
    /// Create what the entity looks like and, if it is solid, its body.
    Spawn(Entity),
    /// Destroy the entity with this identity and all that hangs on it.
    Despawn(u64),
    /// Give the entity's body a new velocity.
    SetVelocity { id: u64, vx: i64, vy: i64 },
    /// Let the physics simulation advance, or freeze it.
    SetPhysicsActive(bool),
    /// Play a sound once.
    Play(Sound),
    /// Show the score on the entity that displays it.
    ShowScore { id: u64, score: usize },
    /// Show this frame of the bird's animation.
    ShowFrame(usize),
    /// Quit the program.
    Exit,
}

/// The size of the play area.
#[derive(Clone, Copy, PartialEq, Eq, Debug)]
pub struct Window {
    /// Width.
    pub width: u32,
    /// Height.
    pub height: u32,
}

/// A choice among the entities.
#[derive(Clone, Copy, PartialEq, Eq, Debug)]
pub enum Query {
    /// Those bound to a phase.
    Scoped(AppState),
    /// Those with a marker.
    Marked(Marker),
    /// The obstacles that lie to the left of a position.
    ObstaclesLeftOf(i64),
    /// The obstacles that lie to the left of a position and that the player
    /// has not been given the points for.
    UnscoredLeftOf(i64),
}

impl Query {
    /// Whether the query chooses `entity`.
    pub open spec fn spec_matches(self, entity: Entity) -> bool {
        match self {
            Query::Scoped(state) => entity.scope == Some(state),
            Query::Marked(marker) => entity.marker == marker,
            Query::ObstaclesLeftOf(x) => entity.marker == Marker::Obstacle && entity.x < x,
            Query::UnscoredLeftOf(x) => entity.marker == Marker::Obstacle && !entity.scored
                && entity.x < x,
        }
    }

    /// The entities that the query chooses.
    pub open spec fn chosen(self) -> spec_fn(Entity) -> bool {
        |entity: Entity| self.spec_matches(entity)
    }

    /// The entities that the query leaves out.
    pub open spec fn others(self) -> spec_fn(Entity) -> bool {
        |entity: Entity| !self.spec_matches(entity)
    }

    /// Whether the query chooses `entity`.
    pub fn matches(&self, entity: &Entity) -> (chosen: bool)
        ensures
            chosen == self.spec_matches(*entity),
    {
        match self {
            Query::Scoped(state) => match entity.scope {
                Some(scope) => scope == *state,
                None => false,
            },
            Query::Marked(marker) => entity.marker == *marker,
            Query::ObstaclesLeftOf(x) => entity.marker == Marker::Obstacle && entity.x < *x,
            Query::UnscoredLeftOf(x) => entity.marker == Marker::Obstacle && !entity.scored
                && entity.x < *x,
        }
    }
}

/// One order to destroy for each of `entities`, in their order.
pub open spec fn despawns(entities: Seq<Entity>) -> Seq<Command> {
    Seq::new(entities.len(), |i: int| Command::Despawn(entities[i].id))
}

/// A change to an entity.
#[derive(Clone, Copy, PartialEq, Eq, Debug)]
pub enum Change {
    /// The player has been given the points for it.
    Scored,
    /// Its vertical velocity is set.
    Lifted(i64),
}

impl Change {
    /// `entity` after the change.
    pub open spec fn spec_apply(self, entity: Entity) -> Entity {
        match self {
            Change::Scored => Entity { scored: true, ..entity },
            Change::Lifted(vy) => Entity { vy, ..entity },
        }
    }

    /// `entity` after the change.
    pub fn apply(&self, entity: Entity) -> (changed: Entity)
        ensures
            changed == self.spec_apply(entity),
    {
        match self {
            Change::Scored => Entity { scored: true, ..entity },
            Change::Lifted(vy) => Entity { vy: *vy, ..entity },
        }
    }
}

/// Each entity after `change`, where `query` chooses it, and as it is, where
/// not.
pub open spec fn changed_where(query: Query, change: Change) -> spec_fn(int, Entity) -> Entity {
    |i: int, entity: Entity|
        if query.spec_matches(entity) {
            change.spec_apply(entity)
        } else {
            entity
        }
}

/// The entities and the shared resources.
pub struct World {
    /// The entities that exist, oldest first.
    pub entities: Vec<Entity>,
    /// The identity that the next entity gets.
    pub next_id: u64,
    /// The commands that the host has not taken yet, oldest first.
    pub commands: Vec<Command>,
    /// The outer phase.
    pub app_state: AppState,
    /// The inner phase.
    pub game_state: GameState,
    /// The outer phase asked for, which the next frame boundary enters.
    pub next_app_state: Option<AppState>,
    /// The inner phase asked for, which the next frame boundary enters.
    pub next_game_state: Option<GameState>,
    /// The points of the current run.
    pub score: Score,
    /// The bird's animation.
    pub animation: Animation,
    /// Counts down to the next obstacle.
    pub spawn_timer: RepeatingTimer,
    /// The word that the obstacle generator restarts from at each run.
    pub seed: u64,
    /// The obstacle generator.
    pub entropy: Entropy,
    /// Whether the physics simulation advances.
    pub physics_active: bool,
    /// The activations of this frame.
    pub presses: Vec<ButtonPressed>,
    /// One event for each obstacle that the bird has passed in this frame.
    pub passed: Vec<PlayerPassedObstacle>,
}

/// A world as a mathematical value. Each field stands for the field of the
/// same name of [`World`]; `word` is the word that the obstacle generator
/// stands at.
pub struct WorldView {
    pub entities: Seq<Entity>,
    pub next_id: u64,
    pub commands: Seq<Command>,
    pub app_state: AppState,
    pub game_state: GameState,
    pub next_app_state: Option<AppState>,
    pub next_game_state: Option<GameState>,
    pub score: nat,
    pub animation: Animation,
    pub spawn_timer: RepeatingTimer,
    pub seed: u64,
    pub word: u64,
    pub physics_active: bool,
    pub presses: Seq<ButtonPressed>,
    pub passed: Seq<PlayerPassedObstacle>,
}

impl View for World {
    type V = WorldView;

    open spec fn view(&self) -> WorldView {
        WorldView {
            entities: self.entities@,
            next_id: self.next_id,
            commands: self.commands@,
            app_state: self.app_state,
            game_state: self.game_state,
            next_app_state: self.next_app_state,
            next_game_state: self.next_game_state,
            score: self.score@,
            animation: self.animation,
            spawn_timer: self.spawn_timer,
            seed: self.seed,
            word: self.entropy@,
            physics_active: self.physics_active,
            presses: self.presses@,
            passed: self.passed@,
        }
    }
}

impl WorldView {
    /// The entities that `query` chooses, oldest first.
    pub open spec fn select(self, query: Query) -> Seq<Entity> {
        self.entities.filter(query.chosen())
    }

    /// The world after every entity that `query` chooses has been destroyed,
    /// and the host has been told of each.
    pub open spec fn despawn(self, query: Query) -> WorldView {
        WorldView {
            entities: self.entities.filter(query.others()),
            commands: self.commands + despawns(self.select(query)),
            ..self
        }
    }

    /// The world after `change` has been made to every entity that `query`
    /// chooses.
    pub open spec fn modify(self, query: Query, change: Change) -> WorldView {
        WorldView { entities: self.entities.map(changed_where(query, change)), ..self }
    }

    /// Whether an entity with this identity and this marker exists.
    pub open spec fn is_marked(self, id: u64, marker: Marker) -> bool {
        exists|i: int|
            0 <= i < self.entities.len() && (#[trigger] self.entities[i]).id == id
                && self.entities[i].marker == marker
    }

    /// The world after `entity` has been given the next identity and added,
    /// and the host has been told. Nothing happens once the identities have
    /// run out.
    pub open spec fn spawn(self, entity: Entity) -> WorldView {
        if self.next_id == u64::MAX {
            self
        } else {
            let created = Entity { id: self.next_id, ..entity };
            WorldView {
                entities: self.entities.push(created),
                next_id: (self.next_id + 1) as u64,
                commands: self.commands.push(Command::Spawn(created)),
                ..self
            }
        }
    }
}

impl World {
    /// The entity that `query` chooses, where it chooses exactly one.
    pub fn single(&self, query: Query) -> (found: Option<Entity>)
        ensures
            match found {
                Some(entity) => self@.select(query) == seq![entity],
                None => self@.select(query).len() != 1,
            },
    {
        let mut found: Option<Entity> = None;
        let mut matches: usize = 0;
        let mut i: usize = 0;
        while i < self.entities.len()
            invariant
                i <= self.entities.len(),
                matches <= i,
                matches == self.entities@.take(i as int).filter(query.chosen()).len(),
                matches == 1 ==> found.is_some() && self.entities@.take(i as int).filter(
                    query.chosen(),
                ) == seq![found.unwrap()],
            decreases self.entities.len() - i,
        {
            let entity = self.entities[i];
            proof {
                let seen = self.entities@.take(i as int);
                assert(self.entities@.take(i + 1) == seen.push(entity));
                seen.lemma_filter_push(entity, query.chosen());
                if query.spec_matches(entity) && seen.filter(query.chosen()).len() == 0 {
                    assert(seen.filter(query.chosen()).push(entity) == seq![entity]);
                }
            }
            if query.matches(&entity) {
                matches = matches + 1;
                found = Some(entity);
            }
            i = i + 1;
        }
        assert(self.entities@.take(i as int) == self.entities@);
        if matches == 1 {
            found
        } else {
            None
        }
    }

    /// Destroys every entity that `query` chooses, and tells the host of each.
    pub fn despawn(&mut self, query: Query)
        ensures
            final(self)@ == old(self)@.despawn(query),
    {
        let ghost before = self@;
        let mut kept: Vec<Entity> = Vec::new();
        let mut i: usize = 0;
        while i < self.entities.len()
            invariant
                i <= self.entities.len(),
                self@ == (WorldView { commands: self.commands@, ..before }),
                kept@ == before.entities.take(i as int).filter(query.others()),
                self.commands@ == before.commands + despawns(
                    before.entities.take(i as int).filter(query.chosen()),
                ),
            decreases self.entities.len() - i,
        {
            let entity = self.entities[i];
            proof {
                let seen = before.entities.take(i as int);
                assert(before.entities.take(i + 1) == seen.push(entity));
                seen.lemma_filter_push(entity, query.chosen());
                seen.lemma_filter_push(entity, query.others());
                if query.spec_matches(entity) {
                    assert(before.commands + despawns(seen.filter(query.chosen()).push(entity))
                        == (before.commands + despawns(seen.filter(query.chosen()))).push(
                        Command::Despawn(entity.id),
                    ));
                }
            }
            if query.matches(&entity) {
                self.commands.push(Command::Despawn(entity.id));
            } else {
                kept.push(entity);
            }
            i = i + 1;
        }
        assert(before.entities.take(i as int) == before.entities);
        self.entities = kept;
    }

    /// Makes `change` to every entity that `query` chooses, and says how many
    /// those were.
    pub fn modify(&mut self, query: Query, change: Change) -> (count: usize)
        ensures
            final(self)@ == old(self)@.modify(query, change),
            count == old(self)@.select(query).len(),
    {
        let ghost before = self@;
        let mut count: usize = 0;
        let mut i: usize = 0;
        while i < self.entities.len()
            invariant
                i <= self.entities.len(),
                count <= i,
                self.entities.len() == before.entities.len(),
                self@ == (WorldView { entities: self.entities@, ..before }),
                self.entities@ == before.entities.take(i as int).map(changed_where(query, change))
                    + before.entities.skip(i as int),
                count == before.entities.take(i as int).filter(query.chosen()).len(),
            decreases self.entities.len() - i,
        {
            let entity = self.entities[i];
            proof {
                let seen = before.entities.take(i as int);
                assert(entity == before.entities[i as int]);
                assert(before.entities.take(i + 1) == seen.push(entity));
                seen.lemma_filter_push(entity, query.chosen());
            }
            if query.matches(&entity) {
                self.entities.set(i, change.apply(entity));
                count = count + 1;
            }
            assert(self.entities@ == before.entities.take(i + 1).map(
                changed_where(query, change),
            ) + before.entities.skip(i + 1));
            i = i + 1;
        }
        proof {
            assert(before.entities.take(i as int) == before.entities);
            assert(self.entities@ == before.entities.map(changed_where(query, change)));
        }
        count
    }

    /// Whether an entity with this identity and this marker exists.
    pub fn is_marked(&self, id: u64, marker: Marker) -> (found: bool)
        ensures
            found == self@.is_marked(id, marker),
    {
        let mut i: usize = 0;
        while i < self.entities.len()
            invariant
                i <= self.entities.len(),
                forall|k: int|
                    0 <= k < i ==> !((#[trigger] self.entities@[k]).id == id
                        && self.entities@[k].marker == marker),
            decreases self.entities.len() - i,
        {
            if self.entities[i].id == id && self.entities[i].marker == marker {
                return true;
            }
            i = i + 1;
        }
        false
    }

    /// Gives `entity` the next identity, adds it, and tells the host.
    pub fn spawn(&mut self, entity: Entity)
        ensures
            final(self)@ == old(self)@.spawn(entity),
    {
        if self.next_id < u64::MAX {
            let created = Entity { id: self.next_id, ..entity };
            self.entities.push(created);
            self.commands.push(Command::Spawn(created));
            self.next_id = self.next_id + 1;
        }
    }
}

} // verus!
