//! One turn of the ingress loop, after the request has been acknowledged and
//! parsed: update the status store and decide what, if anything, to enqueue
//! for the device writer.

use vstd::prelude::*;
use vstd::string::StringExecFns;
use crate::state::{MessageModel, StateModel, StatusMessage, TrackedState, baseline_status,
    spec_baseline_status, spec_stage_from_token, stage_from_token};
use crate::store::{StatusStore, spec_accepts, spec_step};

verus! {

/// The fixed acknowledgement token the ingress loop replies with, before any
/// processing, so the remote sender never waits on local work.
pub fn ack_token() -> (r: String)
    ensures
        r@ == "ACK"@,
{
    String::from_str("ACK")
}

/// Assembles a tracked state from the fields of a decoded ingress request.
/// An unknown stage token is a schema violation and is rejected; the caller
/// treats that as fatal, as the producer is trusted.
pub fn payload_from_parts(
    stage_token: &str,
    file: String,
    file_id: String,
    proofset_id: Option<String>,
) -> (r: Option<TrackedState>)
    ensures
        match r {
            Some(t) => spec_stage_from_token(stage_token@) == Some(t@.stage) && t@.file == file@
                && t@.file_id == file_id@ && t@.proofset_id == (match proofset_id {
                Some(p) => Some(p@),
                None => None::<Seq<char>>,
            }),
            None => spec_stage_from_token(stage_token@) is None,
        },
{
    match stage_from_token(stage_token) {
        Some(stage) => Some(TrackedState::new(stage, file, file_id, proofset_id)),
        None => None,
    }
}

/// The message a freshly accepted state enqueues: the file's name with the
/// baseline status text of its new stage.
pub open spec fn spec_baseline_message(incoming: StateModel) -> MessageModel {
    MessageModel { target_file: incoming.file, status_text: spec_baseline_status(incoming.stage) }
}

/// Processes one parsed ingress payload: replaces the store's value when the
/// (stage, file) pair changed, and in exactly that case hands back the
/// baseline status message to enqueue.
pub fn ingress_step(store: &mut StatusStore, payload: TrackedState) -> (emit: Option<
    StatusMessage,
>)
    ensures
        final(store)@ == spec_step(old(store)@, payload@),
        match emit {
            Some(m) => spec_accepts(old(store)@, payload@) && m@ == spec_baseline_message(
                payload@,
            ),
            None => !spec_accepts(old(store)@, payload@),
        },
{
    let file = payload.file.clone();
    let stage = payload.stage;
    let changed = store.compare_and_replace(payload);
    if changed {
        Some(StatusMessage { target_file: file, status_text: baseline_status(stage) })
    } else {
        None
    }
}

/// The store's content after a whole sequence of ingress payloads.
pub open spec fn spec_process_all(init: Option<StateModel>, msgs: Seq<StateModel>) -> Option<
    StateModel,
>
    decreases msgs.len(),
{
    if msgs.len() == 0 {
        init
    } else {
        spec_step(spec_process_all(init, msgs.drop_last()), msgs.last())
    }
}

/// Whether the payload at position `i` is accepted (changes the store) when
/// the sequence is processed from `init`.
pub open spec fn spec_accepted_at(init: Option<StateModel>, msgs: Seq<StateModel>, i: int) -> bool {
    spec_accepts(spec_process_all(init, msgs.take(i)), msgs[i])
}

/// For every sequence of ingress payloads, the store afterwards holds exactly
/// the most recently accepted one, whole — or its initial value if none was
/// accepted. Never a stale or partially applied value.
pub proof fn lemma_store_is_last_accepted(init: Option<StateModel>, msgs: Seq<StateModel>)
    ensures
        (forall|i: int|
            0 <= i < msgs.len() ==> !spec_accepted_at(init, msgs, i)) ==> spec_process_all(
            init,
            msgs,
        ) == init,
        forall|i: int|
            #![trigger spec_accepted_at(init, msgs, i)]
            (0 <= i < msgs.len() && spec_accepted_at(init, msgs, i) && (forall|k: int|
                i < k < msgs.len() ==> !spec_accepted_at(init, msgs, k))) ==> spec_process_all(
                init,
                msgs,
            ) == Some(msgs[i]),
    decreases msgs.len(),
{
    if msgs.len() == 0 {
    } else {
        let prefix = msgs.drop_last();
        let last = msgs.len() - 1;
        lemma_store_is_last_accepted(init, prefix);
        assert(msgs.take(last) =~= prefix);
        assert forall|i: int| 0 <= i < prefix.len() implies spec_accepted_at(init, msgs, i)
            == spec_accepted_at(init, prefix, i) by {
            assert(msgs.take(i) =~= prefix.take(i));
            assert(msgs[i] == prefix[i]);
        }
        if spec_accepted_at(init, msgs, last) {
            assert(spec_process_all(init, msgs) == Some(msgs[last]));
        } else {
            assert(spec_process_all(init, msgs) == spec_process_all(init, prefix));
        }
    }
}

/// Idempotence: once a payload has been processed, a following payload with
/// the same (stage, file) key is never accepted — so sending the same state
/// twice in a row enqueues exactly one message, not two.
pub proof fn lemma_ingress_idempotent(stored: Option<StateModel>, p: StateModel, q: StateModel)
    requires
        q.key() == p.key(),
    ensures
        !spec_accepts(spec_step(stored, p), q),
{
}

} // verus!
