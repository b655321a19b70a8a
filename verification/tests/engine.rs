use simcue::config::Config;
use simcue::message_handler::{is_expired, MessageHandler, MessageItem};
use simcue::store::{build_file_path, QueueError, StoreError, StoreErrorKind};
use std::collections::HashMap;

/// A store that keeps its files in memory, by path.
struct MemStore {
    files: HashMap<String, String>,
    refuse_writes: bool,
    refuse_deletes: bool,
}

fn not_found() -> StoreError {
    StoreError {
        kind: StoreErrorKind::NotFound,
        message: "no such file".to_string(),
    }
}

fn refused() -> StoreError {
    StoreError {
        kind: StoreErrorKind::Other,
        message: "permission denied".to_string(),
    }
}

fn new_store() -> MemStore {
    MemStore {
        files: HashMap::new(),
        refuse_writes: false,
        refuse_deletes: false,
    }
}

fn store_write(store: &mut MemStore, path: &str, data: &str) -> Result<(), StoreError> {
    if store.refuse_writes {
        return Err(refused());
    }
    store.files.insert(path.to_string(), data.to_string());
    Ok(())
}

fn store_read(store: &MemStore, path: &str) -> Result<String, StoreError> {
    match store.files.get(path) {
        Some(data) => Ok(data.clone()),
        None => Err(not_found()),
    }
}

fn store_delete(store: &mut MemStore, path: &str) -> Result<(), StoreError> {
    if store.refuse_deletes {
        return Err(refused());
    }
    match store.files.remove(path) {
        Some(_) => Ok(()),
        None => Err(not_found()),
    }
}

fn push(
    handler: &mut MessageHandler,
    store: &mut MemStore,
    data: &str,
    priority: i32,
) -> Result<String, QueueError> {
    let pending = handler
        .push_message(data.to_string(), priority)
        .expect("a handler with room draws a new id");
    let written = store_write(store, &pending.file_path, &pending.data);
    handler.push_written(pending, written)
}

fn pull(
    handler: &mut MessageHandler,
    store: &mut MemStore,
) -> Result<Option<MessageItem>, QueueError> {
    let pending = match handler.pull_message() {
        Some(pending) => pending,
        None => return Ok(None),
    };
    let read = store_read(store, &pending.file_path);
    let pending = pending.read_done(read)?;
    let deleted = store_delete(store, &pending.file_path);
    let item = pending.delete_done(deleted)?;
    Ok(Some(item))
}

fn sweep_at(handler: &mut MessageHandler, store: &mut MemStore, now: u128) -> Vec<Result<String, QueueError>> {
    let mut settled = Vec::new();
    for expired in handler.remove_expired_at(now) {
        let deleted = store_delete(store, &expired.file_path);
        settled.push(expired.delete_done(deleted));
    }
    settled
}

fn handler_in(dir: &str, retention: u64) -> MessageHandler {
    let cfg = Config {
        message_retention_seconds: retention,
    };
    MessageHandler::new(cfg, dir.to_string(), false)
}

#[test]
fn it_pushes_messages() {
    let tempdir_path = "/tmp/messages".to_string();
    let mut store = new_store();
    let mut queue_handler_inst = handler_in(&tempdir_path, 0);

    let id = push(&mut queue_handler_inst, &mut store, "test1", 1).unwrap();

    assert!(store
        .files
        .contains_key(&format!("{}/{}.data", tempdir_path, id)));
}

#[test]
fn it_pulls_messages() {
    let tempdir_path = "/tmp/messages".to_string();
    let mut store = new_store();
    let mut queue_handler_inst = handler_in(&tempdir_path, 0);

    push(&mut queue_handler_inst, &mut store, "test1", 1).unwrap();

    let message_item = pull(&mut queue_handler_inst, &mut store)
        .unwrap()
        .unwrap();
    assert_eq!(message_item.data, "test1");

    assert!(!store
        .files
        .contains_key(&format!("{}/{}.data", tempdir_path, message_item.id)));
}

#[test]
fn it_pushes_and_pulls_in_priority() {
    let tempdir_path = "/tmp/messages".to_string();
    let mut store = new_store();
    let mut queue_handler_inst = handler_in(&tempdir_path, 0);

    push(&mut queue_handler_inst, &mut store, "test1", 1).unwrap();
    push(&mut queue_handler_inst, &mut store, "test2", 1).unwrap();
    push(&mut queue_handler_inst, &mut store, "test3", 2).unwrap();
    let message_item1 = pull(&mut queue_handler_inst, &mut store)
        .unwrap()
        .unwrap();
    let message_item2 = pull(&mut queue_handler_inst, &mut store)
        .unwrap()
        .unwrap();
    let message_item3 = pull(&mut queue_handler_inst, &mut store)
        .unwrap()
        .unwrap();

    assert_eq!(message_item1.data, "test3");
    assert_eq!(message_item2.data, "test1");
    assert_eq!(message_item3.data, "test2");

    assert!(!store
        .files
        .contains_key(&format!("{}/{}.data", tempdir_path, message_item1.id)));
    assert!(!store
        .files
        .contains_key(&format!("{}/{}.data", tempdir_path, message_item2.id)));
    assert!(!store
        .files
        .contains_key(&format!("{}/{}.data", tempdir_path, message_item3.id)));
}

#[test]
fn it_removes_expired_messages() {
    let tempdir_path = "/tmp/messages".to_string();
    let mut store = new_store();
    let mut queue_handler_inst = handler_in(&tempdir_path, 1);

    let pending = queue_handler_inst
        .push_message("test1".to_string(), 10)
        .unwrap();
    let created_at = pending.item.created_at;
    let written = store_write(&mut store, &pending.file_path, &pending.data);
    let id = queue_handler_inst.push_written(pending, written).unwrap();

    let two_seconds_later = created_at + 2_000_000_000;
    let settled = sweep_at(&mut queue_handler_inst, &mut store, two_seconds_later);
    assert_eq!(settled, vec![Ok(id.clone())]);

    let entry = queue_handler_inst.get_priority(&id);

    assert!(entry.unwrap_or(-1).eq(&-1));

    assert!(!store
        .files
        .contains_key(&format!("{}/{}.data", tempdir_path, id)));
}

#[test]
fn it_builds_file_path() {
    let tempdir_path = "/tmp/messages".to_string();
    let queue_handler_inst = handler_in(&tempdir_path, 0);

    let id = "test-id";
    let expected_path = format!("{}/{}.data", tempdir_path, id);

    assert_eq!(
        queue_handler_inst.get_message_file_path(id.to_string()),
        expected_path
    );
}

#[test]
fn file_path_is_dir_slash_id_dot_data() {
    assert_eq!(build_file_path("store", "abc"), "store/abc.data");
    assert_eq!(build_file_path("", ""), "/.data");
}

#[test]
fn higher_priority_leaves_first_and_equals_leave_in_arrival_order() {
    let mut store = new_store();
    let mut handler = handler_in("q", 0);

    push(&mut handler, &mut store, "a", 1).unwrap();
    push(&mut handler, &mut store, "b", 1).unwrap();
    push(&mut handler, &mut store, "c", 2).unwrap();

    assert_eq!(pull(&mut handler, &mut store).unwrap().unwrap().data, "c");
    assert_eq!(pull(&mut handler, &mut store).unwrap().unwrap().data, "a");
    assert_eq!(pull(&mut handler, &mut store).unwrap().unwrap().data, "b");
    assert_eq!(pull(&mut handler, &mut store).unwrap(), None);
}

#[test]
fn equal_priorities_are_first_in_first_out() {
    let mut store = new_store();
    let mut handler = handler_in("q", 0);

    for data in ["a", "b", "c", "d", "e", "f", "g"] {
        push(&mut handler, &mut store, data, 1).unwrap();
    }
    push(&mut handler, &mut store, "urgent", 2).unwrap();
    push(&mut handler, &mut store, "idle", -3).unwrap();

    let mut served = Vec::new();
    while let Some(item) = pull(&mut handler, &mut store).unwrap() {
        served.push(item.data);
    }
    assert_eq!(
        served,
        vec!["urgent", "a", "b", "c", "d", "e", "f", "g", "idle"]
    );
}

#[test]
fn non_rising_priorities_make_a_fifo() {
    let mut store = new_store();
    let mut handler = handler_in("q", 0);

    push(&mut handler, &mut store, "first", 9).unwrap();
    push(&mut handler, &mut store, "second", 9).unwrap();
    push(&mut handler, &mut store, "third", 4).unwrap();
    push(&mut handler, &mut store, "fourth", 4).unwrap();
    push(&mut handler, &mut store, "fifth", i32::MIN).unwrap();

    let mut served = Vec::new();
    while let Some(item) = pull(&mut handler, &mut store).unwrap() {
        served.push(item.data);
    }
    assert_eq!(served, vec!["first", "second", "third", "fourth", "fifth"]);
}

#[test]
fn pull_on_a_new_handler_is_none() {
    let mut store = new_store();
    let mut handler = handler_in("q", 0);

    assert!(handler.is_empty());
    assert_eq!(handler.len(), 0);
    assert!(handler.pull_message().is_none());
    assert_eq!(pull(&mut handler, &mut store), Ok(None));
}

#[test]
fn push_then_pull_returns_the_payload_and_removes_the_file() {
    let mut store = new_store();
    let mut handler = handler_in("q", 60);

    let id = push(&mut handler, &mut store, "{\"k\":[1,2]}", 7).unwrap();
    assert_eq!(store.files.len(), 1);
    assert_eq!(
        store.files.get(&format!("q/{}.data", id)),
        Some(&"{\"k\":[1,2]}".to_string())
    );
    assert!(handler.contains(&id));
    assert_eq!(handler.get_priority(&id), Some(7));
    assert_eq!(handler.len(), 1);
    assert!(!handler.is_empty());

    let item = pull(&mut handler, &mut store).unwrap().unwrap();
    assert_eq!(
        item,
        MessageItem {
            id: id.clone(),
            data: "{\"k\":[1,2]}".to_string()
        }
    );
    assert!(store.files.is_empty());
    assert!(!handler.contains(&id));
    assert_eq!(handler.get_priority(&id), None);
    assert_eq!(pull(&mut handler, &mut store), Ok(None));
}

#[test]
fn a_pulled_message_is_not_served_again() {
    let mut store = new_store();
    let mut handler = handler_in("q", 0);

    let first = push(&mut handler, &mut store, "one", 1).unwrap();
    let second = push(&mut handler, &mut store, "two", 1).unwrap();

    assert_eq!(pull(&mut handler, &mut store).unwrap().unwrap().id, first);
    assert_eq!(pull(&mut handler, &mut store).unwrap().unwrap().id, second);
    assert_eq!(pull(&mut handler, &mut store), Ok(None));
}

#[test]
fn new_ids_are_hyphenated_uuids_and_differ() {
    let handler = handler_in("q", 0);

    let one = handler.push_message("x".to_string(), 0).unwrap();
    let two = handler.push_message("x".to_string(), 0).unwrap();

    for id in [&one.item.id, &two.item.id] {
        assert_eq!(id.len(), 36);
        for (i, c) in id.chars().enumerate() {
            if i == 8 || i == 13 || i == 18 || i == 23 {
                assert_eq!(c, '-');
            } else {
                assert!(c.is_ascii_digit() || ('a'..='f').contains(&c));
            }
        }
    }
    assert_ne!(one.item.id, two.item.id);
    assert_eq!(one.file_path, format!("q/{}.data", one.item.id));
    assert_eq!(one.data, "x");
    assert_eq!(one.priority, 0);
    assert_eq!(one.item.expiry, 0);
}

#[test]
fn the_clock_does_not_run_backwards_between_pushes() {
    let handler = handler_in("q", 0);

    let one = handler.push_message("x".to_string(), 0).unwrap();
    let two = handler.push_message("y".to_string(), 0).unwrap();

    assert!(one.item.created_at <= two.item.created_at);
}

#[test]
fn staging_says_what_to_write_and_changes_nothing() {
    let handler = handler_in("dir", 30);

    let pending = handler
        .stage_push("id-1".to_string(), 12, "payload".to_string(), -4)
        .unwrap();

    assert_eq!(pending.item.id, "id-1");
    assert_eq!(pending.item.created_at, 12);
    assert_eq!(pending.item.expiry, 30);
    assert_eq!(pending.priority, -4);
    assert_eq!(pending.data, "payload");
    assert_eq!(pending.file_path, "dir/id-1.data");
    assert!(!handler.contains("id-1"));
    assert!(handler.is_empty());
}

#[test]
fn staging_refuses_an_id_that_is_pending() {
    let mut handler = handler_in("dir", 30);

    let pending = handler
        .stage_push("id-1".to_string(), 0, "one".to_string(), 1)
        .unwrap();
    assert_eq!(handler.push_written(pending, Ok(())), Ok("id-1".to_string()));

    assert_eq!(
        handler.stage_push("id-1".to_string(), 5, "two".to_string(), 2),
        None
    );
    assert!(handler
        .stage_push("id-2".to_string(), 5, "two".to_string(), 2)
        .is_some());
    assert_eq!(handler.get_priority("id-1"), Some(1));
}

#[test]
fn a_failed_write_enqueues_nothing() {
    let mut store = new_store();
    store.refuse_writes = true;
    let mut handler = handler_in("q", 0);

    let outcome = push(&mut handler, &mut store, "lost", 3);

    assert_eq!(outcome, Err(QueueError::StoreWrite(refused())));
    assert!(handler.is_empty());
    assert_eq!(handler.len(), 0);
    assert!(handler.pull_message().is_none());
    assert!(store.files.is_empty());
}

#[test]
fn a_failed_read_is_reported_and_the_entry_stays_gone() {
    let mut store = new_store();
    let mut handler = handler_in("q", 0);

    let id = push(&mut handler, &mut store, "data", 3).unwrap();
    store.files.clear();

    let outcome = pull(&mut handler, &mut store);

    assert_eq!(outcome, Err(QueueError::StoreRead(not_found())));
    assert!(outcome.unwrap_err().is_not_found());
    assert!(!handler.contains(&id));
    assert_eq!(pull(&mut handler, &mut store), Ok(None));
}

#[test]
fn a_failed_read_leaves_the_file_alone() {
    let handler_dir = "q";
    let mut handler = handler_in(handler_dir, 0);
    let pending = handler
        .stage_push("m".to_string(), 0, "data".to_string(), 0)
        .unwrap();
    handler.push_written(pending, Ok(())).unwrap();

    let pending = handler.pull_message().unwrap();
    assert_eq!(pending.id, "m");
    assert_eq!(pending.file_path, "q/m.data");

    assert_eq!(
        pending.read_done(Err(refused())),
        Err(QueueError::StoreRead(refused()))
    );
}

#[test]
fn a_failed_delete_is_reported_and_the_entry_stays_gone() {
    let mut store = new_store();
    let mut handler = handler_in("q", 0);

    let id = push(&mut handler, &mut store, "data", 3).unwrap();
    store.refuse_deletes = true;

    let outcome = pull(&mut handler, &mut store);

    assert_eq!(outcome, Err(QueueError::StoreDelete(refused())));
    assert!(!outcome.unwrap_err().is_not_found());
    assert!(!handler.contains(&id));
    assert!(store.files.contains_key(&format!("q/{}.data", id)));
}

#[test]
fn a_dequeue_reads_then_deletes_the_same_file() {
    let mut handler = handler_in("q", 0);
    let pending = handler
        .stage_push("m".to_string(), 0, "data".to_string(), 0)
        .unwrap();
    handler.push_written(pending, Ok(())).unwrap();

    let reading = handler.pull_message().unwrap();
    let deleting = reading.read_done(Ok("data".to_string())).unwrap();
    assert_eq!(deleting.file_path, "q/m.data");
    assert_eq!(deleting.item.id, "m");
    assert_eq!(deleting.item.data, "data");

    assert_eq!(
        deleting.delete_done(Ok(())),
        Ok(MessageItem {
            id: "m".to_string(),
            data: "data".to_string()
        })
    );
}

#[test]
fn a_pull_serves_a_message_that_has_outlived_its_ttl() {
    let mut store = new_store();
    let mut handler = handler_in("q", 0);

    push(&mut handler, &mut store, "stale", 1).unwrap();

    assert_eq!(pull(&mut handler, &mut store).unwrap().unwrap().data, "stale");
}

#[test]
fn expiry_is_created_at_plus_ttl_at_most_now() {
    assert!(is_expired(5, 2, 2_000_000_005));
    assert!(is_expired(5, 2, 2_000_000_006));
    assert!(!is_expired(5, 2, 2_000_000_004));
    assert!(is_expired(0, 0, 0));
    assert!(is_expired(7, 0, 7));
    assert!(!is_expired(7, 0, 6));
    assert!(!is_expired(0, 1, 999_999_999));
    assert!(is_expired(0, 1, 1_000_000_000));
}

#[test]
fn a_deadline_beyond_the_clock_is_never_reached() {
    assert!(!is_expired(u128::MAX, 1, u128::MAX));
    assert!(!is_expired(u128::MAX - 999_999_999, 1, u128::MAX));
    assert!(is_expired(u128::MAX - 1_000_000_000, 1, u128::MAX));
    assert!(is_expired(0, u64::MAX, 18_446_744_073_709_551_615_000_000_000));
    assert!(!is_expired(0, u64::MAX, 18_446_744_073_709_551_614_999_999_999));
}

#[test]
fn a_sweep_removes_the_expired_and_keeps_the_rest() {
    let mut store = new_store();
    let mut handler = handler_in("q", 10);

    for (id, created_at, priority) in [("old-1", 0, 1), ("old-2", 1_000, 9), ("young", 5_000_000_000, 5)] {
        let pending = handler
            .stage_push(id.to_string(), created_at, id.to_string(), priority)
            .unwrap();
        let written = store_write(&mut store, &pending.file_path, &pending.data);
        handler.push_written(pending, written).unwrap();
    }

    let mut removed: Vec<String> = sweep_at(&mut handler, &mut store, 10_000_001_000)
        .into_iter()
        .map(|settled| settled.unwrap())
        .collect();
    removed.sort();

    assert_eq!(removed, vec!["old-1", "old-2"]);
    assert!(!handler.contains("old-1"));
    assert!(!handler.contains("old-2"));
    assert_eq!(handler.get_priority("young"), Some(5));
    assert_eq!(handler.len(), 1);
    assert_eq!(store.files.len(), 1);
    assert!(store.files.contains_key("q/young.data"));
    assert_eq!(pull(&mut handler, &mut store).unwrap().unwrap().data, "young");
}

#[test]
fn a_sweep_before_any_deadline_removes_nothing() {
    let mut store = new_store();
    let mut handler = handler_in("q", 10);

    let pending = handler
        .stage_push("m".to_string(), 100, "data".to_string(), 0)
        .unwrap();
    let written = store_write(&mut store, &pending.file_path, &pending.data);
    handler.push_written(pending, written).unwrap();

    assert!(handler.remove_expired_at(10_000_000_099).is_empty());
    assert!(handler.contains("m"));
    assert_eq!(handler.get_priority("m"), Some(0));

    let expired = handler.remove_expired_at(10_000_000_100);
    assert_eq!(expired.len(), 1);
    assert_eq!(expired[0].id, "m");
    assert_eq!(expired[0].file_path, "q/m.data");
    assert!(!handler.contains("m"));
    assert!(handler.remove_expired_at(10_000_000_100).is_empty());
}

#[test]
fn a_sweep_goes_on_after_a_failed_delete() {
    let mut store = new_store();
    let mut handler = handler_in("q", 0);

    let kept = push(&mut handler, &mut store, "one", 1).unwrap();
    let lost = push(&mut handler, &mut store, "two", 1).unwrap();
    store.files.remove(&format!("q/{}.data", lost));

    let settled = sweep_at(&mut handler, &mut store, u128::MAX);

    assert_eq!(settled.len(), 2);
    assert!(settled.contains(&Ok(kept.clone())));
    assert!(settled.contains(&Err(QueueError::StoreDelete(not_found()))));
    assert!(handler.is_empty());
    assert!(store.files.is_empty());
}

#[test]
fn a_sweep_by_the_clock_expires_what_has_no_ttl_left() {
    let mut store = new_store();
    let mut handler = handler_in("q", 0);

    let id = push(&mut handler, &mut store, "gone", 1).unwrap();

    let expired = handler.remove_expired_messages();

    assert_eq!(expired.len(), 1);
    assert_eq!(expired[0].id, id);
    assert_eq!(expired[0].file_path, format!("q/{}.data", id));
    assert!(handler.is_empty());
}

#[test]
fn a_sweep_by_the_clock_keeps_what_has_ttl_left() {
    let mut store = new_store();
    let mut handler = handler_in("q", 3_600);

    let id = push(&mut handler, &mut store, "kept", 1).unwrap();

    assert!(handler.remove_expired_messages().is_empty());
    assert!(handler.contains(&id));
}

#[test]
fn a_handler_is_swept_every_five_seconds_or_never() {
    let cfg = Config {
        message_retention_seconds: 1,
    };
    assert_eq!(
        MessageHandler::new(cfg, "q".to_string(), true).sweep_interval_seconds(),
        Some(5)
    );
    assert_eq!(
        MessageHandler::new(cfg, "q".to_string(), false).sweep_interval_seconds(),
        None
    );
}

#[test]
fn a_new_handler_has_room_and_keeps_its_directory() {
    let handler = handler_in("some/dir", 0);

    assert!(handler.has_room());
    assert_eq!(handler.message_store_dir, "some/dir");
}

#[test]
fn a_queue_error_carries_the_message_of_the_store() {
    assert_eq!(QueueError::StoreWrite(refused()).message(), "permission denied");
    assert_eq!(QueueError::StoreRead(not_found()).message(), "no such file");
    assert_eq!(QueueError::StoreDelete(refused()).message(), "permission denied");
    assert!(QueueError::StoreDelete(not_found()).is_not_found());
    assert!(QueueError::StoreWrite(not_found()).is_not_found());
    assert!(!QueueError::StoreRead(refused()).is_not_found());
}

#[test]
fn a_handler_with_room_and_no_uuid_pending_always_stages() {
    let mut handler = handler_in("q", 0);
    assert!(handler.push_message("first".to_string(), 0).is_some());

    let pending = handler
        .stage_push("not-a-uuid".to_string(), 0, "held".to_string(), 3)
        .unwrap();
    handler.push_written(pending, Ok(())).unwrap();

    for _ in 0..16 {
        let staged = handler.push_message("next".to_string(), 1).unwrap();
        assert_ne!(staged.item.id, "not-a-uuid");
        assert!(!handler.contains(&staged.item.id));
    }
}
