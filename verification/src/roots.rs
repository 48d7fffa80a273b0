//! Proof-root records returned by the remote status API, and the derivation
//! of a device status from the proof evidence they carry.

use vstd::prelude::*;
use crate::state::str_eq;
use vstd::string::StringExecFns;

verus! {

/// One proof root as the remote API reports it. Only `cid`,
/// `last_proven_epoch` and `last_faulted_epoch` drive the logic; the rest are
/// auxiliary descriptive fields the remote returns but this system does not
/// act on.
pub struct ProofRootRecord {
    pub root_id: u64,
    pub cid: String,
    pub size: u64,
    pub removed: bool,
    pub total_periods_faulted: u64,
    pub total_proofs_submitted: u64,
    pub last_proven_epoch: u64,
    pub last_proven_at: Option<String>,
    pub last_faulted_at: Option<String>,
    pub last_faulted_epoch: u64,
    pub created_at: String,
}

/// Model of a [`ProofRootRecord`]: the fields the logic reads, with the
/// content identifier abstracted to a character sequence.
#[verifier::ext_equal]
pub ghost struct RecordModel {
    pub cid: Seq<char>,
    pub last_proven_epoch: u64,
    pub last_faulted_epoch: u64,
}

impl View for ProofRootRecord {
    type V = RecordModel;

    open spec fn view(&self) -> RecordModel {
        RecordModel {
            cid: self.cid@,
            last_proven_epoch: self.last_proven_epoch,
            last_faulted_epoch: self.last_faulted_epoch,
        }
    }
}

pub open spec fn record_models(records: Seq<ProofRootRecord>) -> Seq<RecordModel> {
    records.map_values(|r: ProofRootRecord| r@)
}

/// The record belongs to the content identifier under scrutiny.
pub open spec fn spec_matches(rec: RecordModel, cid: Seq<char>) -> bool {
    rec.cid == cid
}

/// The remote has recorded at least one proof attempt or outcome.
pub open spec fn spec_has_epochs(rec: RecordModel) -> bool {
    rec.last_proven_epoch > 0 || rec.last_faulted_epoch > 0
}

/// Proven once, but a fault was recorded after the last proof.
pub open spec fn spec_is_faulty(rec: RecordModel) -> bool {
    rec.last_proven_epoch > 0 && rec.last_proven_epoch < rec.last_faulted_epoch
}

/// At least one proof was recorded.
pub open spec fn spec_is_proven(rec: RecordModel) -> bool {
    rec.last_proven_epoch > 0
}

/// The status derived from a fetched record set for one content identifier.
/// Nothing when no record carries the identifier (the root is unknown
/// remotely, a warning). Among the matching records, those with any epoch
/// recorded carry the evidence; if there are any, the status is, by
/// precedence, `stored & faulty` over `stored & proven` over plain `stored`;
/// matching records without any epoch leave the status at plain `stored`.
pub open spec fn spec_derived_status(records: Seq<RecordModel>, cid: Seq<char>) -> Option<
    Seq<char>,
> {
    if !(exists|i: int| 0 <= i < records.len() && spec_matches(records[i], cid)) {
        None
    } else if exists|i: int|
        0 <= i < records.len() && spec_matches(records[i], cid) && spec_has_epochs(records[i]) {
        if exists|i: int|
            0 <= i < records.len() && spec_matches(records[i], cid) && spec_is_faulty(
                records[i],
            ) {
            Some("stored & faulty"@)
        } else if exists|i: int|
            0 <= i < records.len() && spec_matches(records[i], cid) && spec_is_proven(
                records[i],
            ) {
            Some("stored & proven"@)
        } else {
            Some("stored"@)
        }
    } else {
        Some("stored"@)
    }
}

/// Derives the status for `cid` from a fetched record set, exactly as
/// [`spec_derived_status`] states; `None` means no root with this content
/// identifier was found at all (the caller logs a warning and emits nothing).
pub fn derive_status(records: &Vec<ProofRootRecord>, cid: &str) -> (r: Option<String>)
    ensures
        ({
            let spec = spec_derived_status(record_models(records@), cid@);
            match r {
                Some(s) => spec == Some(s@),
                None => spec is None,
            }
        }),
{
    let ghost ms = record_models(records@);
    let mut any_match = false;
    let mut any_faulty = false;
    let mut any_proven = false;
    let mut i: usize = 0;
    while i < records.len()
        invariant
            0 <= i <= records.len(),
            ms == record_models(records@),
            ms.len() == records@.len(),
            any_match == exists|j: int| 0 <= j < i && spec_matches(ms[j], cid@),
            any_faulty == exists|j: int|
                0 <= j < i && spec_matches(ms[j], cid@) && spec_is_faulty(ms[j]),
            any_proven == exists|j: int|
                0 <= j < i && spec_matches(ms[j], cid@) && spec_is_proven(ms[j]),
        decreases records.len() - i,
    {
        let rec = &records[i];
        assert(ms[i as int] == rec@);
        if str_eq(rec.cid.as_str(), cid) {
            assert(spec_matches(ms[i as int], cid@));
            any_match = true;
            if rec.last_proven_epoch > 0 && rec.last_proven_epoch < rec.last_faulted_epoch {
                assert(spec_is_faulty(ms[i as int]));
                any_faulty = true;
            }
            if rec.last_proven_epoch > 0 {
                assert(spec_is_proven(ms[i as int]));
                any_proven = true;
            }
        }
        i = i + 1;
    }
    if !any_match {
        None
    } else if any_faulty {
        proof {
            let j = choose|j: int|
                0 <= j < ms.len() && spec_matches(ms[j], cid@) && spec_is_faulty(ms[j]);
            assert(spec_has_epochs(ms[j]));
        }
        Some(String::from_str("stored & faulty"))
    } else if any_proven {
        proof {
            let j = choose|j: int|
                0 <= j < ms.len() && spec_matches(ms[j], cid@) && spec_is_proven(ms[j]);
            assert(spec_has_epochs(ms[j]));
        }
        Some(String::from_str("stored & proven"))
    } else {
        Some(String::from_str("stored"))
    }
}

/// The proof evidence the matching records carry: their
/// (last_proven_epoch, last_faulted_epoch) pairs, in record order.
pub open spec fn spec_match_evidence(records: Seq<RecordModel>, cid: Seq<char>) -> Seq<(u64, u64)>
    decreases records.len(),
{
    if records.len() == 0 {
        Seq::<(u64, u64)>::empty()
    } else {
        let rest = spec_match_evidence(records.drop_last(), cid);
        if spec_matches(records.last(), cid) {
            rest.push((records.last().last_proven_epoch, records.last().last_faulted_epoch))
        } else {
            rest
        }
    }
}

pub open spec fn spec_faulty_pair(p: (u64, u64)) -> bool {
    p.0 > 0 && p.0 < p.1
}

pub open spec fn spec_proven_pair(p: (u64, u64)) -> bool {
    p.0 > 0
}

pub open spec fn spec_epochs_pair(p: (u64, u64)) -> bool {
    p.0 > 0 || p.1 > 0
}

/// The derived status as a function of the evidence pairs alone, by the
/// precedence faulty over proven over stored.
pub open spec fn spec_status_of_evidence(ev: Seq<(u64, u64)>) -> Option<Seq<char>> {
    if ev.len() == 0 {
        None
    } else if exists|k: int| 0 <= k < ev.len() && spec_epochs_pair(ev[k]) {
        if exists|k: int| 0 <= k < ev.len() && spec_faulty_pair(ev[k]) {
            Some("stored & faulty"@)
        } else if exists|k: int| 0 <= k < ev.len() && spec_proven_pair(ev[k]) {
            Some("stored & proven"@)
        } else {
            Some("stored"@)
        }
    } else {
        Some("stored"@)
    }
}

/// The evidence pairs stand in for the matching records: a matching record
/// exists exactly when the evidence is non-empty, and a faulty or proven
/// matching record exists exactly when a faulty or proven pair does.
pub proof fn lemma_evidence_correspondence(records: Seq<RecordModel>, cid: Seq<char>)
    ensures
        (exists|i: int| 0 <= i < records.len() && spec_matches(records[i], cid))
            <==> spec_match_evidence(records, cid).len() > 0,
        (exists|i: int|
            0 <= i < records.len() && spec_matches(records[i], cid) && spec_has_epochs(records[i]))
            <==> (exists|k: int|
            0 <= k < spec_match_evidence(records, cid).len() && spec_epochs_pair(
                spec_match_evidence(records, cid)[k],
            )),
        (exists|i: int|
            0 <= i < records.len() && spec_matches(records[i], cid) && spec_is_faulty(records[i]))
            <==> (exists|k: int|
            0 <= k < spec_match_evidence(records, cid).len() && spec_faulty_pair(
                spec_match_evidence(records, cid)[k],
            )),
        (exists|i: int|
            0 <= i < records.len() && spec_matches(records[i], cid) && spec_is_proven(records[i]))
            <==> (exists|k: int|
            0 <= k < spec_match_evidence(records, cid).len() && spec_proven_pair(
                spec_match_evidence(records, cid)[k],
            )),
    decreases records.len(),
{
    let ev = spec_match_evidence(records, cid);
    if records.len() == 0 {
    } else {
        let pre = records.drop_last();
        let last = records.last();
        let pre_ev = spec_match_evidence(pre, cid);
        lemma_evidence_correspondence(pre, cid);
        assert(forall|i: int| 0 <= i < pre.len() ==> pre[i] == records[i]);
        // Each exists over the whole sequence splits into the prefix and the
        // last element; likewise for the evidence.
        assert((exists|i: int| 0 <= i < records.len() && spec_matches(records[i], cid))
            <==> ((exists|i: int| 0 <= i < pre.len() && spec_matches(pre[i], cid))
                || spec_matches(last, cid))) by {
            if exists|i: int| 0 <= i < records.len() && spec_matches(records[i], cid) {
                let i = choose|i: int| 0 <= i < records.len() && spec_matches(records[i], cid);
                if i < pre.len() {
                    assert(spec_matches(pre[i], cid));
                }
            }
        }
        assert((exists|i: int|
            0 <= i < records.len() && spec_matches(records[i], cid) && spec_has_epochs(records[i]))
            <==> ((exists|i: int|
                0 <= i < pre.len() && spec_matches(pre[i], cid) && spec_has_epochs(pre[i]))
                || (spec_matches(last, cid) && spec_has_epochs(last)))) by {
            if exists|i: int|
                0 <= i < records.len() && spec_matches(records[i], cid) && spec_has_epochs(
                    records[i],
                ) {
                let i = choose|i: int|
                    0 <= i < records.len() && spec_matches(records[i], cid) && spec_has_epochs(
                        records[i],
                    );
                if i < pre.len() {
                    assert(spec_matches(pre[i], cid) && spec_has_epochs(pre[i]));
                }
            }
        }
        assert((exists|i: int|
            0 <= i < records.len() && spec_matches(records[i], cid) && spec_is_faulty(records[i]))
            <==> ((exists|i: int|
                0 <= i < pre.len() && spec_matches(pre[i], cid) && spec_is_faulty(pre[i]))
                || (spec_matches(last, cid) && spec_is_faulty(last)))) by {
            if exists|i: int|
                0 <= i < records.len() && spec_matches(records[i], cid) && spec_is_faulty(
                    records[i],
                ) {
                let i = choose|i: int|
                    0 <= i < records.len() && spec_matches(records[i], cid) && spec_is_faulty(
                        records[i],
                    );
                if i < pre.len() {
                    assert(spec_matches(pre[i], cid) && spec_is_faulty(pre[i]));
                }
            }
        }
        assert((exists|i: int|
            0 <= i < records.len() && spec_matches(records[i], cid) && spec_is_proven(records[i]))
            <==> ((exists|i: int|
                0 <= i < pre.len() && spec_matches(pre[i], cid) && spec_is_proven(pre[i]))
                || (spec_matches(last, cid) && spec_is_proven(last)))) by {
            if exists|i: int|
                0 <= i < records.len() && spec_matches(records[i], cid) && spec_is_proven(
                    records[i],
                ) {
                let i = choose|i: int|
                    0 <= i < records.len() && spec_matches(records[i], cid) && spec_is_proven(
                        records[i],
                    );
                if i < pre.len() {
                    assert(spec_matches(pre[i], cid) && spec_is_proven(pre[i]));
                }
            }
        }
        if spec_matches(last, cid) {
            let p = (last.last_proven_epoch, last.last_faulted_epoch);
            assert(ev == pre_ev.push(p));
            assert(forall|k: int| 0 <= k < pre_ev.len() ==> ev[k] == pre_ev[k]);
            assert(ev.last() == p);
            assert((exists|k: int| 0 <= k < ev.len() && spec_epochs_pair(ev[k])) <==> ((exists|
                k: int,
            | 0 <= k < pre_ev.len() && spec_epochs_pair(pre_ev[k])) || spec_epochs_pair(p))) by {
                if exists|k: int| 0 <= k < ev.len() && spec_epochs_pair(ev[k]) {
                    let k = choose|k: int| 0 <= k < ev.len() && spec_epochs_pair(ev[k]);
                    if k < pre_ev.len() {
                        assert(spec_epochs_pair(pre_ev[k]));
                    }
                }
            }
            assert((exists|k: int| 0 <= k < ev.len() && spec_faulty_pair(ev[k])) <==> ((exists|
                k: int,
            | 0 <= k < pre_ev.len() && spec_faulty_pair(pre_ev[k])) || spec_faulty_pair(p))) by {
                if exists|k: int| 0 <= k < ev.len() && spec_faulty_pair(ev[k]) {
                    let k = choose|k: int| 0 <= k < ev.len() && spec_faulty_pair(ev[k]);
                    if k < pre_ev.len() {
                        assert(spec_faulty_pair(pre_ev[k]));
                    }
                }
            }
            assert((exists|k: int| 0 <= k < ev.len() && spec_proven_pair(ev[k])) <==> ((exists|
                k: int,
            | 0 <= k < pre_ev.len() && spec_proven_pair(pre_ev[k])) || spec_proven_pair(p))) by {
                if exists|k: int| 0 <= k < ev.len() && spec_proven_pair(ev[k]) {
                    let k = choose|k: int| 0 <= k < ev.len() && spec_proven_pair(ev[k]);
                    if k < pre_ev.len() {
                        assert(spec_proven_pair(pre_ev[k]));
                    }
                }
            }
            assert(spec_epochs_pair(p) == spec_has_epochs(last));
            assert(spec_faulty_pair(p) == spec_is_faulty(last));
            assert(spec_proven_pair(p) == spec_is_proven(last));
        } else {
            assert(ev == pre_ev);
        }
    }
}

/// Status derivation is a pure function of the matching records' epoch
/// pairs: the derived status equals [`spec_status_of_evidence`] applied to
/// the evidence extracted by [`spec_match_evidence`].
pub proof fn lemma_status_from_evidence(records: Seq<RecordModel>, cid: Seq<char>)
    ensures
        spec_derived_status(records, cid) == spec_status_of_evidence(
            spec_match_evidence(records, cid),
        ),
{
    lemma_evidence_correspondence(records, cid);
}

/// Determinism: two record sets whose matching records carry the same epoch
/// pairs derive the same status, whatever the other fields hold.
pub proof fn lemma_status_deterministic(
    records1: Seq<RecordModel>,
    cid1: Seq<char>,
    records2: Seq<RecordModel>,
    cid2: Seq<char>,
)
    requires
        spec_match_evidence(records1, cid1) == spec_match_evidence(records2, cid2),
    ensures
        spec_derived_status(records1, cid1) == spec_derived_status(records2, cid2),
{
    lemma_status_from_evidence(records1, cid1);
    lemma_status_from_evidence(records2, cid2);
}

} // verus!
