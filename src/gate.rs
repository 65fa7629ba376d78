use vstd::prelude::*;

verus! {

/// What the asset store reports for one requested handle.
#[derive(Clone, Copy, Debug, PartialEq, Eq, Structural)]
pub enum LoadStatus {
    Loading,
    Loaded,
    Failed,
}

/// The phase of a whole batch of requested assets.
#[derive(Clone, Copy, Debug, PartialEq, Eq, Structural)]
pub enum LoadPhase {
    Loading,
    Ready,
    Failed,
}

/// The phase of a batch whose handles report `statuses`: failed as soon as
/// one handle failed, ready once every handle is loaded, loading otherwise.
pub open spec fn batch_phase(statuses: Seq<LoadStatus>) -> LoadPhase {
    if exists|i: int| 0 <= i < statuses.len() && statuses[i] == LoadStatus::Failed {
        LoadPhase::Failed
    } else if forall|i: int| 0 <= i < statuses.len() ==> statuses[i] == LoadStatus::Loaded {
        LoadPhase::Ready
    } else {
        LoadPhase::Loading
    }
}

/// Combines the statuses of a batch of handles into the batch's phase.
pub fn combine_statuses(statuses: &Vec<LoadStatus>) -> (r: LoadPhase)
    ensures
        r == batch_phase(statuses@),
{
    let mut all_loaded = true;
    let mut i: usize = 0;
    while i < statuses.len()
        invariant
            0 <= i <= statuses@.len(),
            forall|j: int| 0 <= j < i ==> statuses@[j] != LoadStatus::Failed,
            all_loaded == (forall|j: int| 0 <= j < i ==> statuses@[j] == LoadStatus::Loaded),
        decreases statuses@.len() - i,
    {
        match statuses[i] {
            LoadStatus::Failed => return LoadPhase::Failed,
            LoadStatus::Loading => all_loaded = false,
            LoadStatus::Loaded => {},
        }
        i = i + 1;
    }
    if all_loaded {
        LoadPhase::Ready
    } else {
        LoadPhase::Loading
    }
}

/// Tracks a batch of requested asset handles until all of them have loaded
/// or one of them has failed. Once it leaves `Loading` its phase is final.
pub struct AssetLoadGate {
    pub handles: Vec<u64>,
    pub phase: LoadPhase,
}

impl AssetLoadGate {
    /// A gate that waits on `handles`.
    pub fn new(handles: Vec<u64>) -> (r: AssetLoadGate)
        ensures
            r.handles@ == handles@,
            r.phase == LoadPhase::Loading,
    {
        AssetLoadGate { handles, phase: LoadPhase::Loading }
    }

    pub fn phase(&self) -> (r: LoadPhase)
        ensures
            r == self.phase,
    {
        self.phase
    }

    pub fn is_ready(&self) -> (r: bool)
        ensures
            r == (self.phase == LoadPhase::Ready),
    {
        self.phase == LoadPhase::Ready
    }

    /// Checks on the batch once more; `statuses[i]` is what the asset store
    /// reports for `handles[i]`. While loading, the phase becomes the
    /// batch's phase; a ready or failed phase is kept.
    pub fn poll(&mut self, statuses: &Vec<LoadStatus>) -> (r: LoadPhase)
        requires
            statuses@.len() == old(self).handles@.len(),
        ensures
            final(self).handles == old(self).handles,
            final(self).phase == (if old(self).phase == LoadPhase::Loading {
                batch_phase(statuses@)
            } else {
                old(self).phase
            }),
            r == final(self).phase,
    {
        if self.phase == LoadPhase::Loading {
            self.phase = combine_statuses(statuses);
        }
        self.phase
    }
}

} // verus!
