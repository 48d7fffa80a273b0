use zmq_uart_pdp::ingress::{ack_token, ingress_step, payload_from_parts};
use zmq_uart_pdp::queue::MessageQueue;
use zmq_uart_pdp::state::{baseline_status, stage_from_token, Stage, StatusMessage, TrackedState};
use zmq_uart_pdp::store::StatusStore;

fn payload(stage: &str, file: &str, file_id: &str, proofset_id: Option<&str>) -> TrackedState {
    payload_from_parts(
        stage,
        file.to_string(),
        file_id.to_string(),
        proofset_id.map(|p| p.to_string()),
    )
    .expect("stage token must be valid")
}

#[test]
fn ack_token_is_fixed() {
    assert_eq!(ack_token(), "ACK");
}

#[test]
fn stage_tokens_map_to_stages() {
    assert_eq!(stage_from_token("UPLOADED"), Some(Stage::Uploaded));
    assert_eq!(stage_from_token("ROOTS_ADDED"), Some(Stage::RootsAdded));
    assert_eq!(stage_from_token("uploaded"), None);
    assert_eq!(stage_from_token(""), None);
}

#[test]
fn unknown_stage_token_is_rejected() {
    let r = payload_from_parts("REMOVED", "x.jpg".to_string(), "a:b".to_string(), None);
    assert!(r.is_none());
}

#[test]
fn baseline_status_per_stage() {
    assert_eq!(baseline_status(Stage::Uploaded), "uploaded");
    assert_eq!(baseline_status(Stage::RootsAdded), "stored");
}

#[test]
fn scenario_uploaded_message_tracks_and_enqueues() {
    let mut store = StatusStore::new();
    let p = payload("UPLOADED", "x.jpg", "abc:def", None);
    let emit = ingress_step(&mut store, p);
    let msg = emit.expect("first message must be accepted");
    assert_eq!(msg.target_file, "x.jpg");
    assert_eq!(msg.status_text, "uploaded");
    let st = store.read().expect("store must hold the new state");
    assert_eq!(st.stage, Stage::Uploaded);
    assert_eq!(st.file, "x.jpg");
    assert_eq!(st.file_id, "abc:def");
    assert_eq!(st.proofset_id, None);
}

#[test]
fn scenario_roots_added_updates_same_file() {
    let mut store = StatusStore::new();
    ingress_step(&mut store, payload("UPLOADED", "x.jpg", "abc:def", None));
    let emit = ingress_step(
        &mut store,
        payload("ROOTS_ADDED", "x.jpg", "abc:def", Some("51")),
    );
    let msg = emit.expect("stage change must be accepted");
    assert_eq!(msg.target_file, "x.jpg");
    assert_eq!(msg.status_text, "stored");
    let st = store.read().unwrap();
    assert_eq!(st.stage, Stage::RootsAdded);
    assert_eq!(st.proofset_id, Some("51".to_string()));
}

#[test]
fn repeated_state_enqueues_exactly_once() {
    let mut store = StatusStore::new();
    let first = ingress_step(&mut store, payload("UPLOADED", "x.jpg", "abc:def", None));
    assert!(first.is_some());
    let second = ingress_step(&mut store, payload("UPLOADED", "x.jpg", "abc:def", None));
    assert!(second.is_none());
    let st = store.read().unwrap();
    assert_eq!(st.file, "x.jpg");
    assert_eq!(st.stage, Stage::Uploaded);
}

#[test]
fn store_holds_most_recently_accepted_state() {
    let mut store = StatusStore::new();
    ingress_step(&mut store, payload("UPLOADED", "a.jpg", "a:1", None));
    ingress_step(&mut store, payload("UPLOADED", "b.jpg", "b:2", None));
    // Same (stage, file) as the previous one: rejected, store untouched.
    let rejected = ingress_step(&mut store, payload("UPLOADED", "b.jpg", "other:9", None));
    assert!(rejected.is_none());
    let st = store.read().unwrap();
    assert_eq!(st.file, "b.jpg");
    assert_eq!(st.file_id, "b:2");
}

#[test]
fn different_file_restarts_tracking() {
    let mut store = StatusStore::new();
    ingress_step(&mut store, payload("ROOTS_ADDED", "a.jpg", "a:1", Some("7")));
    let emit = ingress_step(&mut store, payload("UPLOADED", "b.jpg", "b:2", None));
    let msg = emit.expect("new file must replace the old one");
    assert_eq!(msg.target_file, "b.jpg");
    assert_eq!(msg.status_text, "uploaded");
    let st = store.read().unwrap();
    assert_eq!(st.file, "b.jpg");
    assert_eq!(st.proofset_id, None);
}

#[test]
fn empty_store_reads_nothing() {
    let store = StatusStore::new();
    assert!(store.read().is_none());
}

fn msg(file: &str, status: &str) -> StatusMessage {
    StatusMessage {
        target_file: file.to_string(),
        status_text: status.to_string(),
    }
}

#[test]
fn queue_delivers_in_enqueue_order() {
    let mut q = MessageQueue::new(8);
    assert!(q.enqueue(msg("a", "uploaded")));
    assert!(q.enqueue(msg("b", "stored")));
    assert!(q.enqueue(msg("c", "stored & proven")));
    let first = q.dequeue().unwrap();
    assert_eq!((first.target_file.as_str(), first.status_text.as_str()), ("a", "uploaded"));
    let second = q.dequeue().unwrap();
    assert_eq!((second.target_file.as_str(), second.status_text.as_str()), ("b", "stored"));
    let third = q.dequeue().unwrap();
    assert_eq!(
        (third.target_file.as_str(), third.status_text.as_str()),
        ("c", "stored & proven")
    );
    assert!(q.dequeue().is_none());
}

#[test]
fn full_queue_rejects_without_losing_contents() {
    let mut q = MessageQueue::new(2);
    assert!(q.enqueue(msg("a", "uploaded")));
    assert!(q.enqueue(msg("b", "stored")));
    assert!(!q.enqueue(msg("c", "stored")));
    assert_eq!(q.len(), 2);
    assert_eq!(q.dequeue().unwrap().target_file, "a");
    assert!(q.enqueue(msg("c", "stored")));
    assert_eq!(q.dequeue().unwrap().target_file, "b");
    assert_eq!(q.dequeue().unwrap().target_file, "c");
}
