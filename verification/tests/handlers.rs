use cloudstate::handlers::handler::{CommandContext, CommandHandler, EventHandler, SnapshotHandler};

struct Counter;

impl CommandHandler<u32> for Counter {
    fn get() -> u32 {
        0
    }

    fn handle_command(entity: u32, _ctx: CommandContext) -> u32 {
        entity + 1
    }
}

impl EventHandler<u32> for Counter {
    fn handle_event(entity: u32) {
        assert!(entity < 10);
    }
}

impl SnapshotHandler<u32> for Counter {
    fn snapshot() -> u32 {
        7
    }

    fn handle_snapshot(entity: u32) {
        assert_eq!(entity, 7);
    }
}

#[test]
fn an_entity_implements_the_handlers() {
    let fresh = <Counter as CommandHandler<u32>>::get();
    assert_eq!(fresh, 0);
    let next = <Counter as CommandHandler<u32>>::handle_command(fresh, CommandContext);
    assert_eq!(next, 1);
    <Counter as EventHandler<u32>>::handle_event(next);
    let snapshot = <Counter as SnapshotHandler<u32>>::snapshot();
    <Counter as SnapshotHandler<u32>>::handle_snapshot(snapshot);
}
