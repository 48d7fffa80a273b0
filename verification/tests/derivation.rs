use zmq_uart_pdp::client::{roots_url, FetchOutcome};
use zmq_uart_pdp::poll::{poll_conclude, poll_plan, second_segment, PollPlan};
use zmq_uart_pdp::roots::{derive_status, ProofRootRecord};
use zmq_uart_pdp::state::{Stage, StatusMessage, TrackedState};
use zmq_uart_pdp::text::u64_to_dec;
use zmq_uart_pdp::writer::device_line;

fn record(cid: &str, proven: u64, faulted: u64) -> ProofRootRecord {
    ProofRootRecord {
        root_id: 1,
        cid: cid.to_string(),
        size: 1024,
        removed: false,
        total_periods_faulted: 0,
        total_proofs_submitted: 0,
        last_proven_epoch: proven,
        last_proven_at: None,
        last_faulted_at: None,
        last_faulted_epoch: faulted,
        created_at: "2024-01-01T00:00:00Z".to_string(),
    }
}

fn roots_state(file: &str, file_id: &str, proofset_id: Option<&str>) -> TrackedState {
    TrackedState::new(
        Stage::RootsAdded,
        file.to_string(),
        file_id.to_string(),
        proofset_id.map(|p| p.to_string()),
    )
}

#[test]
fn second_segment_of_composite_id() {
    assert_eq!(second_segment("abc:def"), Some("def".to_string()));
    assert_eq!(second_segment("a:b:c"), Some("b".to_string()));
    assert_eq!(second_segment("abc:"), Some("".to_string()));
    assert_eq!(second_segment("abc"), None);
    assert_eq!(second_segment(""), None);
    assert_eq!(second_segment(":tail"), Some("tail".to_string()));
}

#[test]
fn plan_requires_roots_added_proofset_and_cid() {
    let ready = roots_state("x.jpg", "abc:def", Some("51"));
    let plan = poll_plan(&Some(ready)).expect("ready state must plan a fetch");
    assert_eq!(plan.proofset_id, "51");
    assert_eq!(plan.file, "x.jpg");
    assert_eq!(plan.root_cid, "def");

    assert!(poll_plan(&None).is_none());
    let uploaded = TrackedState::new(
        Stage::Uploaded,
        "x.jpg".to_string(),
        "abc:def".to_string(),
        Some("51".to_string()),
    );
    assert!(poll_plan(&Some(uploaded)).is_none());
    assert!(poll_plan(&Some(roots_state("x.jpg", "abc:def", None))).is_none());
    assert!(poll_plan(&Some(roots_state("x.jpg", "nocolon", Some("51")))).is_none());
}

fn plan() -> PollPlan {
    PollPlan {
        proofset_id: "51".to_string(),
        file: "x.jpg".to_string(),
        root_cid: "def".to_string(),
    }
}

fn concluded(outcome: FetchOutcome) -> Option<StatusMessage> {
    poll_conclude(&plan(), &outcome)
}

#[test]
fn scenario_proven_root_derives_stored_proven() {
    let msg = concluded(FetchOutcome::Success(vec![record("def", 10, 0)]))
        .expect("a proven root must emit");
    assert_eq!(msg.target_file, "x.jpg");
    assert_eq!(msg.status_text, "stored & proven");
}

#[test]
fn scenario_fault_after_proof_derives_stored_faulty() {
    let msg = concluded(FetchOutcome::Success(vec![record("def", 5, 9)]))
        .expect("a faulted root must emit");
    assert_eq!(msg.target_file, "x.jpg");
    assert_eq!(msg.status_text, "stored & faulty");
}

#[test]
fn scenario_api_error_emits_nothing() {
    let r = concluded(FetchOutcome::ApiError(500, "internal error".to_string()));
    assert!(r.is_none());
}

#[test]
fn scenario_transport_error_emits_nothing() {
    assert!(concluded(FetchOutcome::TransportError).is_none());
}

#[test]
fn matching_roots_without_epochs_stay_stored() {
    let msg = concluded(FetchOutcome::Success(vec![record("def", 0, 0)]))
        .expect("a matching root must emit");
    assert_eq!(msg.status_text, "stored");
}

#[test]
fn no_matching_root_emits_nothing() {
    let r = concluded(FetchOutcome::Success(vec![record("other", 10, 0)]));
    assert!(r.is_none());
    assert!(concluded(FetchOutcome::Success(vec![])).is_none());
}

#[test]
fn faulty_takes_precedence_over_proven() {
    let records = vec![record("def", 10, 0), record("def", 5, 9)];
    assert_eq!(
        derive_status(&records, "def"),
        Some("stored & faulty".to_string())
    );
}

#[test]
fn proven_takes_precedence_over_stored() {
    let records = vec![record("def", 0, 0), record("def", 3, 0)];
    assert_eq!(
        derive_status(&records, "def"),
        Some("stored & proven".to_string())
    );
}

#[test]
fn fault_before_last_proof_is_not_faulty() {
    // Proven after the last fault: the proof stands.
    let records = vec![record("def", 9, 5)];
    assert_eq!(
        derive_status(&records, "def"),
        Some("stored & proven".to_string())
    );
}

#[test]
fn fault_without_any_proof_stays_stored() {
    let records = vec![record("def", 0, 4)];
    assert_eq!(derive_status(&records, "def"), Some("stored".to_string()));
}

#[test]
fn other_cids_do_not_contribute_evidence() {
    let records = vec![record("other", 5, 9), record("def", 10, 0)];
    assert_eq!(
        derive_status(&records, "def"),
        Some("stored & proven".to_string())
    );
}

#[test]
fn derivation_ignores_auxiliary_fields() {
    let mut a = record("def", 5, 9);
    a.root_id = 7;
    a.size = 1;
    a.removed = true;
    a.total_periods_faulted = 3;
    a.total_proofs_submitted = 12;
    a.last_proven_at = Some("2024-05-01T00:00:00Z".to_string());
    let b = record("def", 5, 9);
    assert_eq!(derive_status(&vec![a], "def"), derive_status(&vec![b], "def"));
}

#[test]
fn decimal_rendering_is_exact() {
    assert_eq!(u64_to_dec(0), "0");
    assert_eq!(u64_to_dec(7), "7");
    assert_eq!(u64_to_dec(10), "10");
    assert_eq!(u64_to_dec(100), "100");
    assert_eq!(u64_to_dec(18_446_744_073_709_551_615), "18446744073709551615");
}

#[test]
fn roots_url_is_exact() {
    let url = roots_url("https://example.org", "51", 100);
    assert_eq!(
        url,
        "https://example.org/api/proofsets/51/roots?orderBy=root_id&limit=100"
    );
}

#[test]
fn device_line_is_exact() {
    let m = StatusMessage {
        target_file: "x.jpg".to_string(),
        status_text: "stored & proven".to_string(),
    };
    assert_eq!(device_line(&m), "x.jpg,stored & proven\n");
}
