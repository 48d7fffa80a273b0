//! The single-slot status store: the mutually exclusive slot holding the
//! last-known tracked state, with compare-and-replace change detection.

use vstd::prelude::*;
use crate::state::{StateModel, TrackedState, str_eq};

verus! {

/// The single mutually-exclusive slot holding the last-known state. Absence
/// of a value is the normal initial condition (nothing tracked yet).
///
/// The store itself is sequential; the shell shares it between tasks under a
/// lock held only for the duration of one operation.
pub struct StatusStore {
    slot: Option<TrackedState>,
}

impl View for StatusStore {
    type V = Option<StateModel>;

    closed spec fn view(&self) -> Option<StateModel> {
        match self.slot {
            Some(t) => Some(t@),
            None => None,
        }
    }
}

/// Whether an incoming state replaces the stored one: it does exactly when
/// nothing is stored yet or the stored (stage, file) pair differs.
pub open spec fn spec_accepts(stored: Option<StateModel>, incoming: StateModel) -> bool {
    match stored {
        None => true,
        Some(cur) => cur.key() != incoming.key(),
    }
}

/// The store's content after one incoming state: replaced whole when
/// accepted, untouched otherwise.
pub open spec fn spec_step(stored: Option<StateModel>, incoming: StateModel) -> Option<StateModel> {
    if spec_accepts(stored, incoming) {
        Some(incoming)
    } else {
        stored
    }
}

impl StatusStore {
    /// A store with nothing tracked yet.
    pub fn new() -> (r: Self)
        ensures
            r@ is None,
    {
        StatusStore { slot: None }
    }

    /// A non-blocking snapshot of the stored value.
    pub fn read(&self) -> (r: Option<TrackedState>)
        ensures
            match r {
                Some(t) => self@ == Some(t@),
                None => self@ is None,
            },
    {
        match &self.slot {
            Some(t) => Some(t.clone()),
            None => None,
        }
    }

    /// Replaces the stored value and returns true only if nothing was stored
    /// yet or the stored (stage, file) pair differs from `new`'s; otherwise
    /// leaves the store untouched and returns false.
    pub fn compare_and_replace(&mut self, new: TrackedState) -> (changed: bool)
        ensures
            changed == spec_accepts(old(self)@, new@),
            final(self)@ == spec_step(old(self)@, new@),
    {
        let changed = match &self.slot {
            None => true,
            Some(cur) => !(cur.stage == new.stage && str_eq(cur.file.as_str(), new.file.as_str())),
        };
        if changed {
            self.slot = Some(new);
        }
        changed
    }
}

} // verus!

