use greptimedb_ffi::inserter::{next_action, WorkerAction, WorkerEvent};
use greptimedb_ffi::row::Batch;

fn batch(name: &str) -> Batch {
    Batch { table_name: name.to_string(), columns: vec![], row_count: 0 }
}

#[test]
fn the_sender_starts_by_waiting_for_a_batch() {
    assert_eq!(next_action(WorkerEvent::Started), WorkerAction::Receive);
}

#[test]
fn a_batch_that_arrives_is_inserted_as_it_is() {
    assert_eq!(next_action(WorkerEvent::Received(batch("a"))), WorkerAction::Insert(batch("a")));
}

#[test]
fn after_a_success_the_sender_waits_for_the_next_batch() {
    assert_eq!(next_action(WorkerEvent::Inserted), WorkerAction::Receive);
}

#[test]
fn the_first_failure_ends_the_sender() {
    assert_eq!(next_action(WorkerEvent::InsertFailed), WorkerAction::Exit);
}

#[test]
fn a_closed_channel_ends_the_sender() {
    assert_eq!(next_action(WorkerEvent::Closed), WorkerAction::Exit);
}

#[test]
fn a_run_of_the_sender_inserts_in_order_up_to_the_first_failure() {
    // three batches wait; the database refuses the second
    let mut queue = vec![batch("c"), batch("b"), batch("a")];
    let mut inserted: Vec<String> = vec![];
    let mut event = WorkerEvent::Started;
    loop {
        match next_action(event) {
            WorkerAction::Receive => {
                event = match queue.pop() {
                    Some(b) => WorkerEvent::Received(b),
                    None => WorkerEvent::Closed,
                };
            }
            WorkerAction::Insert(b) => {
                inserted.push(b.table_name.clone());
                event = if b.table_name == "b" { WorkerEvent::InsertFailed } else { WorkerEvent::Inserted };
            }
            WorkerAction::Exit => break,
        }
    }
    assert_eq!(inserted, vec!["a", "b"]);
    assert_eq!(queue.len(), 1);
}
