//! The engine's command queue as the proofs see it.

use bevy::core_pipeline::core_2d::Camera2dBundle;
use bevy::ecs::system::Commands;
use vstd::prelude::*;

verus! {

/// `bevy::ecs::system::Commands`, carried through verified code as an opaque
/// value. Nothing is known of it but what [`queued`] and [`free_ids`] name.
#[verifier::external_type_specification]
#[verifier::external_body]
pub struct ExCommands<'w, 's>(Commands<'w, 's>);

/// One command waiting in a queue, as far as this library tells commands apart.
pub enum Pending {
    /// Create one entity that carries the engine's default 2D camera bundle:
    /// transform at the origin with no rotation and unit scale, and the
    /// engine's default orthographic projection for 2D.
    SpawnCamera2d,
    /// Any other change to the world.
    Other,
}

/// The commands that wait in the queue behind `commands`, oldest first.
pub uninterp spec fn queued(commands: Commands) -> Seq<Pending>;

/// How many entity ids the world behind `commands` can still hand out.
pub uninterp spec fn free_ids(commands: Commands) -> nat;

/// How many of the commands in `queue` create a 2D camera.
pub open spec fn camera_spawns(queue: Seq<Pending>) -> nat
    decreases queue.len(),
{
    if queue.len() == 0 {
        0
    } else if queue.last() is SpawnCamera2d {
        camera_spawns(queue.drop_last()) + 1
    } else {
        camera_spawns(queue.drop_last())
    }
}

/// Calls `Commands::spawn` with `Camera2dBundle::default()`.
///
/// Trusted: the engine reserves an id for a new entity and pushes one command
/// onto the queue, which inserts the bundle into that entity when the queue is
/// applied. The commands that were waiting stay as they were, in their order.
///
/// The engine panics when the world has no id left to reserve, so the call
/// asks for one. The id it takes is gone from the supply afterwards. Other
/// systems may reserve from the same world at the same time, hence the supply
/// is said to shrink, not by how much.
///
/// The engine marks the bundle as deprecated in favour of the bare `Camera2d`
/// component. The bundle is kept because it holds the transform and the
/// projection as fields, set to their defaults where the call is made.
#[verifier::external_body]
#[allow(deprecated)]
pub(crate) fn spawn_camera_2d(commands: &mut Commands)
    requires
        free_ids(*old(commands)) > 0,
    ensures
        queued(*final(commands)) == queued(*old(commands)).push(Pending::SpawnCamera2d),
        free_ids(*final(commands)) < free_ids(*old(commands)),
{
    commands.spawn(Camera2dBundle::default());
}

} // verus!
