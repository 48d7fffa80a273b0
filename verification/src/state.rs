//! The tracked-state data model: the lifecycle stage of the current file, the
//! whole tracked state, and the queue element carried to the device writer.

use vstd::prelude::*;
use vstd::string::StringExecFns;

verus! {

/// Lifecycle marker of a tracked file.
#[derive(Clone, Copy, PartialEq, Eq, Structural, Debug)]
pub enum Stage {
    Uploaded,
    RootsAdded,
}

/// Mathematical model of a [`TrackedState`]: the same fields with strings
/// abstracted to character sequences.
#[verifier::ext_equal]
pub ghost struct StateModel {
    pub stage: Stage,
    pub file: Seq<char>,
    pub file_id: Seq<char>,
    pub proofset_id: Option<Seq<char>>,
}

/// The last-known state of the single file the system tracks.
///
/// `file` is the logical filename, `file_id` a composite colon-separated
/// identifier whose second segment is the content identifier used for proof
/// lookups, and `proofset_id` the remote grouping identifier, once known.
pub struct TrackedState {
    pub stage: Stage,
    pub file: String,
    pub file_id: String,
    pub proofset_id: Option<String>,
}

impl View for TrackedState {
    type V = StateModel;

    open spec fn view(&self) -> StateModel {
        StateModel {
            stage: self.stage,
            file: self.file@,
            file_id: self.file_id@,
            proofset_id: match self.proofset_id {
                Some(s) => Some(s@),
                None => None,
            },
        }
    }
}

impl StateModel {
    /// The identity of a state for change detection: only the (stage, file)
    /// pair decides whether an incoming message replaces the stored value.
    pub open spec fn key(self) -> (Stage, Seq<char>) {
        (self.stage, self.file)
    }
}

impl TrackedState {
    pub fn new(stage: Stage, file: String, file_id: String, proofset_id: Option<String>) -> (r: Self)
        ensures
            r@ == (StateModel { stage, file: file@, file_id: file_id@, proofset_id: match proofset_id {
                Some(s) => Some(s@),
                None => None,
            } }),
    {
        TrackedState { stage, file, file_id, proofset_id }
    }
}

impl Clone for TrackedState {
    fn clone(&self) -> (r: Self)
        ensures
            r@ == self@,
    {
        TrackedState {
            stage: self.stage,
            file: self.file.clone(),
            file_id: self.file_id.clone(),
            proofset_id: match &self.proofset_id {
                Some(s) => Some(s.clone()),
                None => None,
            },
        }
    }
}

/// The model of an optional tracked state, as a snapshot of the store or of
/// a reading task holds it.
pub open spec fn state_opt_model(s: Option<TrackedState>) -> Option<StateModel> {
    match s {
        Some(t) => Some(t@),
        None => None,
    }
}

/// One element of the queue feeding the device writer.
pub struct StatusMessage {
    pub target_file: String,
    pub status_text: String,
}

/// Model of a [`StatusMessage`]: the pair of character sequences.
#[verifier::ext_equal]
pub ghost struct MessageModel {
    pub target_file: Seq<char>,
    pub status_text: Seq<char>,
}

impl View for StatusMessage {
    type V = MessageModel;

    open spec fn view(&self) -> MessageModel {
        MessageModel { target_file: self.target_file@, status_text: self.status_text@ }
    }
}

/// String equality on views; `String`'s own `==` covers owned values, this
/// covers borrowed slices.
pub fn str_eq(a: &str, b: &str) -> (r: bool)
    ensures
        r == (a@ == b@),
{
    let ao: String = a.to_owned();
    let bo: String = b.to_owned();
    ao == bo
}

/// The stage named by an ingress message's `stage` token.
pub open spec fn spec_stage_from_token(s: Seq<char>) -> Option<Stage> {
    if s == "UPLOADED"@ {
        Some(Stage::Uploaded)
    } else if s == "ROOTS_ADDED"@ {
        Some(Stage::RootsAdded)
    } else {
        None
    }
}

/// Maps an ingress `stage` token to the stage it names; any other token is
/// rejected (schema violation).
pub fn stage_from_token(token: &str) -> (r: Option<Stage>)
    ensures
        r == spec_stage_from_token(token@),
{
    if str_eq(token, "UPLOADED") {
        Some(Stage::Uploaded)
    } else if str_eq(token, "ROOTS_ADDED") {
        Some(Stage::RootsAdded)
    } else {
        None
    }
}

/// The baseline status text announced when a file first reaches a stage; the
/// poller later refines `stored` with proof evidence.
pub open spec fn spec_baseline_status(stage: Stage) -> Seq<char> {
    match stage {
        Stage::Uploaded => "uploaded"@,
        Stage::RootsAdded => "stored"@,
    }
}

pub fn baseline_status(stage: Stage) -> (r: String)
    ensures
        r@ == spec_baseline_status(stage),
{
    match stage {
        Stage::Uploaded => String::from_str("uploaded"),
        Stage::RootsAdded => String::from_str("stored"),
    }
}

} // verus!
