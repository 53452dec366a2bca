//! Startup routine of a 2D application on the Bevy engine, with its effect on
//! the engine's command queue stated and proved.
//!
//! The engine hands a startup system a [`bevy::ecs::system::Commands`]: a queue
//! of structural changes that it applies to the world once the system has
//! returned. [`startup::setup`] is the body of that system. Its contract says
//! which commands it leaves in the queue, over the model in [`queue`].

pub mod queue;
pub mod startup;
