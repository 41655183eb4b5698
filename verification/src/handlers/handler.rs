//! The handler traits an entity implementation provides.

use vstd::prelude::*;

verus! {

/// Context handed to a command handler together with the entity.
pub struct CommandContext;

/// Handles the commands addressed to an entity of type `T`.
pub trait CommandHandler<T> {
    /// The entity in its initial state.
    fn get() -> T;

    /// Applies one command to `entity` and gives back the entity that results.
    fn handle_command(entity: T, ctx: CommandContext) -> T;
}

/// Replays one persisted event onto an entity of type `T`.
pub trait EventHandler<T> {
    fn handle_event(entity: T);
}

/// Produces and restores snapshots of an entity of type `T`.
pub trait SnapshotHandler<T> {
    /// The entity as it is to be persisted.
    fn snapshot() -> T;

    /// Restores the state held in `entity`.
    fn handle_snapshot(entity: T);
}

} // verus!
