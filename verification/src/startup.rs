//! The startup routine, and what follows from its contract.

use crate::queue::{camera_spawns, free_ids, queued, spawn_camera_2d, Pending};
use bevy::ecs::system::Commands;
use vstd::prelude::*;

verus! {

/// The queue that [`setup`] leaves behind when it found `before`.
pub open spec fn after_setup(before: Seq<Pending>) -> Seq<Pending> {
    before.push(Pending::SpawnCamera2d)
}

/// One-time world setup: asks the engine for a single 2D camera with default
/// transform and projection, and for nothing else.
///
/// Meant to run once, as the body of a startup system. It keeps no record of
/// having run: each call asks for one more camera.
///
/// The handle must be able to create an entity: the world behind it has an id
/// left, which the camera then takes.
pub fn setup(commands: &mut Commands)
    requires
        free_ids(*old(commands)) > 0,
    ensures
        queued(*final(commands)) == after_setup(queued(*old(commands))),
        free_ids(*final(commands)) < free_ids(*old(commands)),
{
    spawn_camera_2d(commands);
}

/// Setup asks for exactly one camera more than was already asked for.
pub proof fn lemma_setup_adds_one_camera(before: Seq<Pending>)
    ensures
        camera_spawns(after_setup(before)) == camera_spawns(before) + 1,
{
    assert(after_setup(before).drop_last() == before);
}

/// Setup asks for nothing besides the camera, whatever waited in the queue:
/// its command is the newest, the commands before it are untouched, and there
/// are as many commands of other kinds as there were.
pub proof fn lemma_setup_adds_nothing_else(before: Seq<Pending>)
    ensures
        after_setup(before).len() == before.len() + 1,
        after_setup(before).last() is SpawnCamera2d,
        after_setup(before).drop_last() == before,
        after_setup(before).len() - camera_spawns(after_setup(before)) == before.len()
            - camera_spawns(before),
{
    lemma_setup_adds_one_camera(before);
}

/// What setup leaves in a queue is decided by what it found there and by
/// nothing else: runs that find equal queues leave equal queues, with equally
/// many cameras, however often setup has run elsewhere.
pub proof fn lemma_setup_depends_on_queue_alone(first: Seq<Pending>, second: Seq<Pending>)
    requires
        first == second,
    ensures
        after_setup(first) == after_setup(second),
        camera_spawns(after_setup(first)) == camera_spawns(after_setup(second)),
{
}

/// On a queue that nothing has used yet, as the engine hands it to a startup
/// system, setup leaves one command, and that command creates the camera.
pub proof fn lemma_first_setup()
    ensures
        after_setup(Seq::empty()) == seq![Pending::SpawnCamera2d],
        after_setup(Seq::empty()).len() == 1,
        camera_spawns(after_setup(Seq::empty())) == 1,
{
    lemma_setup_adds_one_camera(Seq::empty());
}

/// Setup is not idempotent: run twice, it asks for two cameras.
pub proof fn lemma_setup_twice_adds_two_cameras(before: Seq<Pending>)
    ensures
        camera_spawns(after_setup(after_setup(before))) == camera_spawns(before) + 2,
        after_setup(after_setup(before)).len() == before.len() + 2,
{
    lemma_setup_adds_one_camera(before);
    lemma_setup_adds_one_camera(after_setup(before));
}

} // verus!
