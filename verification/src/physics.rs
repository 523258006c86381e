//! What the core asks of the physics simulation, and what it hears back.

use crate::application::App;
use crate::consts::BIRB_GRAVITY;
use crate::schedule::{Label, Registration, RunIf, System};
use crate::state::GameState;
use crate::world::{Command, Entity, Marker, World, WorldView};
use vstd::prelude::*;

verus! {

/// How the simulation moves a body.
#[derive(Clone, Copy, PartialEq, Eq, Hash, Debug, Structural)]
pub enum RigidBody {
    /// Forces and gravity move it.
    Dynamic,
    /// It moves at the velocity it was given, whatever it meets.
    KinematicVelocityBased,
    /// It never moves.
    Fixed,
}

/// The body that the simulation is to hold for an entity.
#[derive(Clone, Copy, PartialEq, Eq, Debug)]
pub struct Body {
    /// How the body moves.
    pub kind: RigidBody,
    /// Gravity on the body, in thousandths of the neutral pull.
    pub gravity: i64,
    /// Whether the body is kept from turning.
    pub rotation_locked: bool,
    /// Whether the simulation reports what the body collides with.
    pub reports_collisions: bool,
}

/// Two bodies have begun or ceased to touch.
#[derive(Clone, Copy, PartialEq, Eq, Debug)]
pub enum CollisionEvent {
    /// The two entities have begun to touch.
    Started(u64, u64),
    /// The two entities have ceased to touch.
    Stopped(u64, u64),
}

/// Where the simulation has moved a body to, and how fast it is.
#[derive(Clone, Copy, PartialEq, Eq, Debug)]
pub struct Reading {
    /// The entity that the body belongs to.
    pub id: u64,
    /// Horizontal position.
    pub x: i64,
    /// Vertical position.
    pub y: i64,
    /// Horizontal velocity.
    pub vx: i64,
    /// Vertical velocity.
    pub vy: i64,
}

/// The body of an entity with this marker, if it has one.
pub open spec fn spec_body_of(marker: Marker) -> Option<Body> {
    match marker {
        Marker::Bird => Some(
            Body {
                kind: RigidBody::Dynamic,
                gravity: BIRB_GRAVITY,
                rotation_locked: true,
                reports_collisions: true,
            },
        ),
        Marker::Obstacle => Some(
            Body {
                kind: RigidBody::KinematicVelocityBased,
                gravity: 0,
                rotation_locked: false,
                reports_collisions: false,
            },
        ),
        Marker::Roof | Marker::Floor => Some(
            Body {
                kind: RigidBody::Fixed,
                gravity: 0,
                rotation_locked: false,
                reports_collisions: false,
            },
        ),
        _ => None,
    }
}

/// The latest of `readings` that is about the entity `id`.
pub open spec fn reading_for(readings: Seq<Reading>, id: u64) -> Option<Reading>
    decreases readings.len(),
{
    if readings.len() == 0 {
        None
    } else if readings.last().id == id {
        Some(readings.last())
    } else {
        reading_for(readings.drop_last(), id)
    }
}

/// Each entity where the simulation has moved it to.
pub open spec fn moved_by(readings: Seq<Reading>) -> spec_fn(int, Entity) -> Entity {
    |i: int, entity: Entity|
        match reading_for(readings, entity.id) {
            Some(reading) => Entity {
                x: reading.x,
                y: reading.y,
                vx: reading.vx,
                vy: reading.vy,
                ..entity
            },
            None => entity,
        }
}

/// The world after every entity that the simulation reports on has taken its
/// position and velocity from the report.
pub open spec fn spec_read_back(w: WorldView, readings: Seq<Reading>) -> WorldView {
    WorldView { entities: w.entities.map(moved_by(readings)), ..w }
}

/// The world with the simulation running.
pub open spec fn spec_start_physics(w: WorldView) -> WorldView {
    WorldView {
        physics_active: true,
        commands: w.commands.push(Command::SetPhysicsActive(true)),
        ..w
    }
}

/// The world with the simulation frozen.
pub open spec fn spec_stop_physics(w: WorldView) -> WorldView {
    WorldView {
        physics_active: false,
        commands: w.commands.push(Command::SetPhysicsActive(false)),
        ..w
    }
}

/// The body of an entity with this marker, if it has one.
pub fn body_of(marker: Marker) -> (body: Option<Body>)
    ensures
        body == spec_body_of(marker),
{
    match marker {
        Marker::Bird => Some(
            Body {
                kind: RigidBody::Dynamic,
                gravity: BIRB_GRAVITY,
                rotation_locked: true,
                reports_collisions: true,
            },
        ),
        Marker::Obstacle => Some(
            Body {
                kind: RigidBody::KinematicVelocityBased,
                gravity: 0,
                rotation_locked: false,
                reports_collisions: false,
            },
        ),
        Marker::Roof | Marker::Floor => Some(
            Body {
                kind: RigidBody::Fixed,
                gravity: 0,
                rotation_locked: false,
                reports_collisions: false,
            },
        ),
        _ => None,
    }
}

/// The latest of `readings` that is about the entity `id`.
pub fn find_reading(readings: &Vec<Reading>, id: u64) -> (found: Option<Reading>)
    ensures
        found == reading_for(readings@, id),
{
    let mut found: Option<Reading> = None;
    let mut i: usize = 0;
    while i < readings.len()
        invariant
            i <= readings.len(),
            found == reading_for(readings@.take(i as int), id),
        decreases readings.len() - i,
    {
        assert(readings@.take(i + 1).drop_last() == readings@.take(i as int));
        if readings[i].id == id {
            found = Some(readings[i]);
        }
        i = i + 1;
    }
    assert(readings@.take(i as int) == readings@);
    found
}

/// Takes over the positions and velocities that the simulation reports.
pub fn read_back(world: &mut World, readings: &Vec<Reading>)
    ensures
        final(world)@ == spec_read_back(old(world)@, readings@),
{
    let ghost before = world@;
    let mut i: usize = 0;
    while i < world.entities.len()
        invariant
            i <= world.entities.len(),
            world.entities.len() == before.entities.len(),
            world@ == (WorldView { entities: world.entities@, ..before }),
            world.entities@ == before.entities.take(i as int).map(moved_by(readings@))
                + before.entities.skip(i as int),
        decreases world.entities.len() - i,
    {
        let entity = world.entities[i];
        assert(entity == before.entities[i as int]);
        if let Some(reading) = find_reading(readings, entity.id) {
            world.entities.set(
                i,
                Entity { x: reading.x, y: reading.y, vx: reading.vx, vy: reading.vy, ..entity },
            );
        }
        assert(world.entities@ == before.entities.take(i + 1).map(moved_by(readings@))
            + before.entities.skip(i + 1));
        i = i + 1;
    }
    assert(world.entities@ == before.entities.map(moved_by(readings@)));
}

/// Lets the simulation advance.
pub fn start_physics(world: &mut World)
    ensures
        final(world)@ == spec_start_physics(old(world)@),
{
    world.physics_active = true;
    world.commands.push(Command::SetPhysicsActive(true));
}

/// Freezes the simulation.
pub fn stop_physics(world: &mut World)
    ensures
        final(world)@ == spec_stop_physics(old(world)@),
{
    world.physics_active = false;
    world.commands.push(Command::SetPhysicsActive(false));
}

/// Runs the physics simulation during a run and freezes it at the end.
#[derive(Clone, Copy, PartialEq, Eq, Debug, Default)]
pub struct PhysicsPlugin;

impl PhysicsPlugin {
    /// The passes of the plug-in.
    pub open spec fn registrations() -> Seq<Registration> {
        seq![
            Registration {
                label: Label::OnEnterGame(GameState::Running),
                system: System::StartPhysics,
                run_if: RunIf::Always,
            },
            Registration {
                label: Label::OnEnterGame(GameState::GameOver),
                system: System::StopPhysics,
                run_if: RunIf::Always,
            },
        ]
    }

    /// Adds the plug-in's passes to the application.
    pub fn build(&self, app: &mut App)
        ensures
            final(app).registrations@ == old(app).registrations@ + Self::registrations(),
            final(app).world@ == old(app).world@,
    {
        app.add_systems(
            Label::OnEnterGame(GameState::Running),
            System::StartPhysics,
            RunIf::Always,
        );
        app.add_systems(
            Label::OnEnterGame(GameState::GameOver),
            System::StopPhysics,
            RunIf::Always,
        );
    }
}

} // verus!
