//! The reconciliation poller's decisions: whether a tick has anything to do,
//! and what to enqueue once the remote answered.

use vstd::prelude::*;
use vstd::string::{StrSliceExecFns, StringExecFns};
use crate::client::FetchOutcome;
use crate::roots::{ProofRootRecord, derive_status, record_models, spec_derived_status,
    RecordModel};
use crate::state::{MessageModel, StateModel, Stage, StatusMessage, TrackedState, state_opt_model};

verus! {

/// The smallest position at or after `from` holding a colon.
pub open spec fn spec_find_colon(s: Seq<char>, from: nat) -> Option<nat>
    decreases s.len() - from,
{
    if from >= s.len() {
        None
    } else if s[from as int] == ':' {
        Some(from)
    } else {
        spec_find_colon(s, from + 1)
    }
}

pub proof fn lemma_find_colon_bounds(s: Seq<char>, from: nat)
    ensures
        match spec_find_colon(s, from) {
            Some(j) => from <= j < s.len() && s[j as int] == ':',
            None => true,
        },
    decreases s.len() - from,
{
    if from < s.len() && s[from as int] != ':' {
        lemma_find_colon_bounds(s, from + 1);
    }
}

fn find_colon(s: &str, from: usize) -> (r: Option<usize>)
    requires
        from <= s@.len(),
    ensures
        match r {
            Some(j) => spec_find_colon(s@, from as nat) == Some(j as nat),
            None => spec_find_colon(s@, from as nat) is None,
        },
{
    let n = s.unicode_len();
    let mut i = from;
    while i < n
        invariant
            from <= i <= n,
            n == s@.len(),
            spec_find_colon(s@, from as nat) == spec_find_colon(s@, i as nat),
        decreases n - i,
    {
        if s.get_char(i) == ':' {
            return Some(i);
        }
        assert(spec_find_colon(s@, i as nat) == spec_find_colon(s@, (i + 1) as nat));
        i = i + 1;
    }
    None
}

/// The second piece of splitting `s` at colons: the characters after the
/// first colon, up to the next colon or the end. Nothing when `s` has no
/// colon at all.
pub open spec fn spec_second_segment(s: Seq<char>) -> Option<Seq<char>> {
    match spec_find_colon(s, 0) {
        None => None,
        Some(i) => {
            let end = match spec_find_colon(s, i + 1) {
                Some(j) => j as int,
                None => s.len() as int,
            };
            Some(s.subrange(i as int + 1, end))
        },
    }
}

/// Extracts the content identifier from a composite file identifier: its
/// second colon-segment.
pub fn second_segment(s: &str) -> (r: Option<String>)
    ensures
        match r {
            Some(seg) => spec_second_segment(s@) == Some(seg@),
            None => spec_second_segment(s@) is None,
        },
{
    let n = s.unicode_len();
    match find_colon(s, 0) {
        None => None,
        Some(i) => {
            proof {
                lemma_find_colon_bounds(s@, 0);
            }
            let end = match find_colon(s, i + 1) {
                Some(j) => {
                    proof {
                        lemma_find_colon_bounds(s@, (i + 1) as nat);
                    }
                    j
                },
                None => n,
            };
            Some(s.substring_char(i + 1, end).to_owned())
        },
    }
}

/// What one poller tick needs once the store's snapshot says a fetch is due:
/// the proof-set to query, the file to report on, and the content identifier
/// to match among the returned roots.
pub struct PollPlan {
    pub proofset_id: String,
    pub file: String,
    pub root_cid: String,
}

/// Model of a [`PollPlan`].
#[verifier::ext_equal]
pub ghost struct PlanModel {
    pub proofset_id: Seq<char>,
    pub file: Seq<char>,
    pub root_cid: Seq<char>,
}

impl View for PollPlan {
    type V = PlanModel;

    open spec fn view(&self) -> PlanModel {
        PlanModel { proofset_id: self.proofset_id@, file: self.file@, root_cid: self.root_cid@ }
    }
}

/// Whether a tick fetches, and with what: only when a state is tracked, its
/// stage is RootsAdded, a proof-set identifier is known, and the file
/// identifier yields a content identifier. Every other snapshot means "not
/// ready yet" — the tick does nothing.
pub open spec fn spec_poll_plan(snapshot: Option<StateModel>) -> Option<PlanModel> {
    match snapshot {
        None => None,
        Some(st) => {
            if st.stage != Stage::RootsAdded {
                None
            } else {
                match (st.proofset_id, spec_second_segment(st.file_id)) {
                    (Some(pid), Some(cid)) => Some(
                        PlanModel { proofset_id: pid, file: st.file, root_cid: cid },
                    ),
                    _ => None,
                }
            }
        },
    }
}

/// Reads a store snapshot and decides whether this tick calls the remote
/// status API.
pub fn poll_plan(snapshot: &Option<TrackedState>) -> (r: Option<PollPlan>)
    ensures
        match r {
            Some(p) => spec_poll_plan(state_opt_model(*snapshot)) == Some(p@),
            None => spec_poll_plan(state_opt_model(*snapshot)) is None,
        },
{
    match snapshot {
        None => None,
        Some(st) => {
            if st.stage == Stage::RootsAdded {
                let cid_opt = second_segment(st.file_id.as_str());
                match (&st.proofset_id, cid_opt) {
                    (Some(pid), Some(cid)) => Some(
                        PollPlan { proofset_id: pid.clone(), file: st.file.clone(), root_cid: cid },
                    ),
                    _ => None,
                }
            } else {
                None
            }
        },
    }
}

/// The records a fetch outcome carries: only a success response has any.
pub open spec fn spec_outcome_records(o: FetchOutcome) -> Option<Seq<RecordModel>> {
    match o {
        FetchOutcome::Success(records) => Some(record_models(records@)),
        _ => None,
    }
}

/// The message one tick enqueues, given the plan it fetched with and the
/// records the fetch returned: the derived status for the tracked file.
/// Nothing on a failed fetch (the tick is skipped), and nothing when no root
/// carries the content identifier.
pub open spec fn spec_poll_message(plan: PlanModel, records: Option<Seq<RecordModel>>) -> Option<
    MessageModel,
> {
    match records {
        None => None,
        Some(rs) => match spec_derived_status(rs, plan.root_cid) {
            None => None,
            Some(text) => Some(MessageModel { target_file: plan.file, status_text: text }),
        },
    }
}

/// Concludes one poller tick from the fetch outcome the shell hands back.
pub fn poll_conclude(plan: &PollPlan, outcome: &FetchOutcome) -> (r: Option<StatusMessage>)
    ensures
        match r {
            Some(m) => spec_poll_message(plan@, spec_outcome_records(*outcome)) == Some(m@),
            None => spec_poll_message(plan@, spec_outcome_records(*outcome)) is None,
        },
{
    match outcome {
        FetchOutcome::Success(records) => {
            match derive_status(records, plan.root_cid.as_str()) {
                Some(text) => Some(
                    StatusMessage { target_file: plan.file.clone(), status_text: text },
                ),
                None => None,
            }
        },
        _ => None,
    }
}

} // verus!
