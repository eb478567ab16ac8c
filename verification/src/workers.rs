//! The worker registry: which workers exist, to which deal each is bound,
//! and whether its deal is active.
//!
//! A worker is created inactive, is activated and deactivated any number of
//! times, and is removed once. A removed worker stays in the registry as a
//! record that nothing can change, so that its identifier is never given to
//! another worker.

use vstd::prelude::*;

verus! {

/// Why the worker registry refused a call.
#[derive(Clone, Copy, Debug, PartialEq, Eq, Structural)]
pub enum WorkerError {
    /// No worker with this identifier, or for this deal, is registered.
    NotFound,
    /// The deal already has a worker.
    DealHasWorker,
    /// The identifier belongs, or once belonged, to a worker.
    WorkerIdUsed,
}

/// Where a worker stands in its life.
#[derive(Clone, Copy, Debug, PartialEq, Eq, Structural)]
pub enum WorkerState {
    /// Created and never activated.
    Created,
    /// The deal is active.
    Active,
    /// The deal was active and is not now.
    Inactive,
    /// Removed for good.
    Removed,
}

/// One record of the worker registry.
#[derive(Debug, PartialEq, Eq)]
pub struct Worker {
    /// The peer identity of the worker.
    pub worker_id: String,
    /// The deal that the worker is bound to.
    pub deal_id: String,
    /// The peer that created the worker.
    pub creator: String,
    pub state: WorkerState,
}

impl Clone for Worker {
    fn clone(&self) -> (r: Self)
        ensures
            r == *self,
    {
        Worker {
            worker_id: self.worker_id.clone(),
            deal_id: self.deal_id.clone(),
            creator: self.creator.clone(),
            state: self.state,
        }
    }
}

impl Worker {
    /// The worker was not removed.
    pub open spec fn is_live(self) -> bool {
        self.state != WorkerState::Removed
    }

    /// The record is that of the worker `id`, not removed.
    pub open spec fn is_worker(self, id: Seq<char>) -> bool {
        self.worker_id@ == id && self.is_live()
    }

    /// The record with another state.
    pub open spec fn in_state(self, state: WorkerState) -> Worker {
        Worker { state, ..self }
    }
}

/// Some record, removed or not, carries the identifier.
pub open spec fn knows_id(ws: Seq<Worker>, id: Seq<char>) -> bool {
    exists|i: int| 0 <= i < ws.len() && (#[trigger] ws[i]).worker_id@ == id
}

/// The worker `id` is registered and not removed.
pub open spec fn has_worker(ws: Seq<Worker>, id: Seq<char>) -> bool {
    exists|i: int| 0 <= i < ws.len() && (#[trigger] ws[i]).is_worker(id)
}

/// The worker `id` is registered and its deal is active.
pub open spec fn is_active(ws: Seq<Worker>, id: Seq<char>) -> bool {
    exists|i: int|
        0 <= i < ws.len() && (#[trigger] ws[i]).worker_id@ == id && ws[i].state
            == WorkerState::Active
}

/// The worker `id` is bound to the deal and not removed.
pub open spec fn is_worker_of(ws: Seq<Worker>, deal: Seq<char>, id: Seq<char>) -> bool {
    exists|i: int| 0 <= i < ws.len() && (#[trigger] ws[i]).is_worker(id) && ws[i].deal_id@ == deal
}

/// Some worker that was not removed is bound to the deal.
pub open spec fn deal_bound(ws: Seq<Worker>, deal: Seq<char>) -> bool {
    exists|i: int| 0 <= i < ws.len() && (#[trigger] ws[i]).is_live() && ws[i].deal_id@ == deal
}

/// No identifier occurs in two records, and no deal in two records of
/// workers that were not removed.
pub open spec fn well_formed(ws: Seq<Worker>) -> bool {
    &&& forall|i: int, j: int|
        0 <= i < j < ws.len() ==> (#[trigger] ws[i]).worker_id@ != (#[trigger] ws[j]).worker_id@
    &&& forall|i: int, j: int|
        0 <= i < j < ws.len() && (#[trigger] ws[i]).is_live() && (#[trigger] ws[j]).is_live()
            ==> ws[i].deal_id@ != ws[j].deal_id@
}

/// The registry after the state of the worker `id` went through `step`.
/// Records of other workers, and of a removed worker, stay as they are.
pub open spec fn moved(
    ws: Seq<Worker>,
    id: Seq<char>,
    step: spec_fn(WorkerState) -> WorkerState,
) -> Seq<Worker> {
    ws.map_values(
        |w: Worker|
            if w.is_worker(id) {
                w.in_state(step(w.state))
            } else {
                w
            },
    )
}

/// The registry after the worker `id` was activated.
pub open spec fn activated(ws: Seq<Worker>, id: Seq<char>) -> Seq<Worker> {
    moved(ws, id, |s: WorkerState| WorkerState::Active)
}

/// The registry after the worker `id` was deactivated: an active worker
/// becomes inactive, any other stays as it is.
pub open spec fn deactivated(ws: Seq<Worker>, id: Seq<char>) -> Seq<Worker> {
    moved(
        ws,
        id,
        |s: WorkerState|
            if s == WorkerState::Active {
                WorkerState::Inactive
            } else {
                s
            },
    )
}

/// The registry after the worker `id` was removed.
pub open spec fn removed(ws: Seq<Worker>, id: Seq<char>) -> Seq<Worker> {
    moved(ws, id, |s: WorkerState| WorkerState::Removed)
}

/// The identifiers of the workers that were not removed, oldest first.
pub open spec fn live_ids(ws: Seq<Worker>) -> Seq<String>
    decreases ws.len(),
{
    if ws.len() == 0 {
        Seq::empty()
    } else if ws.last().is_live() {
        live_ids(ws.drop_last()).push(ws.last().worker_id)
    } else {
        live_ids(ws.drop_last())
    }
}

/// The worker registry.
#[derive(Debug, PartialEq, Eq)]
pub struct Workers {
    records: Vec<Worker>,
}

impl View for Workers {
    type V = Seq<Worker>;

    closed spec fn view(&self) -> Seq<Worker> {
        self.records@
    }
}

impl Workers {
    /// The invariant of the registry.
    pub open spec fn wf(&self) -> bool {
        well_formed(self@)
    }

    /// The registry without any worker.
    pub fn new() -> (r: Workers)
        ensures
            r.wf(),
            r@ == Seq::<Worker>::empty(),
    {
        Workers { records: Vec::new() }
    }

    /// The registry with the given records, as they were kept from an
    /// earlier run; `None` where an identifier occurs in two of them, or a
    /// deal in two of them that are not removed.
    pub fn restore(records: Vec<Worker>) -> (r: Option<Workers>)
        ensures
            match r {
                Some(w) => w.wf() && w@ == records@,
                None => !well_formed(records@),
            },
    {
        let mut j: usize = 0;
        while j < records.len()
            invariant
                j <= records.len(),
                well_formed(records@.take(j as int)),
            decreases records.len() - j,
        {
            let mut i: usize = 0;
            while i < j
                invariant
                    i <= j < records.len(),
                    well_formed(records@.take(j as int)),
                    forall|k: int|
                        0 <= k < i ==> (#[trigger] records@[k]).worker_id@ != records@[j as int].worker_id@,
                    forall|k: int|
                        0 <= k < i && (#[trigger] records@[k]).is_live() && records@[j as int].is_live()
                            ==> records@[k].deal_id@ != records@[j as int].deal_id@,
                decreases j - i,
            {
                let a = &records[i];
                let b = &records[j];
                if a.worker_id == b.worker_id {
                    return None;
                }
                if a.state != WorkerState::Removed && b.state != WorkerState::Removed && a.deal_id
                    == b.deal_id {
                    return None;
                }
                i += 1;
            }
            proof {
                let before = records@.take(j as int);
                let after = records@.take(j + 1);
                assert forall|a: int, b: int| 0 <= a < b < after.len() implies (
                #[trigger] after[a]).worker_id@ != (#[trigger] after[b]).worker_id@ by {
                    if b < j {
                        assert(before[a].worker_id@ != before[b].worker_id@);
                    }
                }
                assert forall|a: int, b: int|
                    0 <= a < b < after.len() && (#[trigger] after[a]).is_live() && (
                    #[trigger] after[b]).is_live() implies after[a].deal_id@ != after[b].deal_id@ by {
                    if b < j {
                        assert(before[a].is_live() && before[b].is_live());
                    }
                }
            }
            j += 1;
        }
        assert(records@.take(records@.len() as int) =~= records@);
        Some(Workers { records })
    }

    /// The records of the registry, oldest first, to be kept for a later
    /// run.
    pub fn records(&self) -> (r: Vec<Worker>)
        ensures
            r@ == self@,
    {
        let mut out: Vec<Worker> = Vec::new();
        let mut i: usize = 0;
        while i < self.records.len()
            invariant
                i <= self.records.len(),
                out@ == self.records@.take(i as int),
            decreases self.records.len() - i,
        {
            out.push(self.records[i].clone());
            i += 1;
        }
        out
    }

    /// The place of the record of worker `id`, not removed.
    fn position(&self, id: &String) -> (r: Option<usize>)
        ensures
            match r {
                Some(i) => i < self@.len() && self@[i as int].is_worker(id@),
                None => !has_worker(self@, id@),
            },
    {
        let mut i: usize = 0;
        while i < self.records.len()
            invariant
                i <= self.records.len(),
                forall|k: int| 0 <= k < i ==> !(#[trigger] self.records@[k]).is_worker(id@),
            decreases self.records.len() - i,
        {
            let w = &self.records[i];
            if w.worker_id == *id && w.state != WorkerState::Removed {
                return Some(i);
            }
            i += 1;
        }
        None
    }

    /// Whether worker `worker_id` is registered and not removed.
    pub fn contains(&self, worker_id: &String) -> (r: bool)
        ensures
            r == has_worker(self@, worker_id@),
    {
        self.position(worker_id).is_some()
    }

    /// The state of the worker that has, or had, the identifier
    /// `worker_id`; `None` where no worker ever had it.
    pub fn state(&self, worker_id: &String) -> (r: Option<WorkerState>)
        ensures
            match r {
                Some(state) => exists|i: int|
                    0 <= i < self@.len() && (#[trigger] self@[i]).worker_id@ == worker_id@
                        && self@[i].state == state,
                None => !knows_id(self@, worker_id@),
            },
    {
        let mut i: usize = 0;
        while i < self.records.len()
            invariant
                i <= self.records.len(),
                forall|k: int| 0 <= k < i ==> (#[trigger] self.records@[k]).worker_id@ != worker_id@,
            decreases self.records.len() - i,
        {
            if self.records[i].worker_id == *worker_id {
                assert(self@[i as int].worker_id@ == worker_id@);
                return Some(self.records[i].state);
            }
            i += 1;
        }
        None
    }

    /// Puts the record at `i` into `state`.
    fn set_state(&mut self, i: usize, state: WorkerState)
        requires
            i < old(self)@.len(),
        ensures
            final(self)@ == old(self)@.update(i as int, old(self)@[i as int].in_state(state)),
    {
        let w = self.records[i].clone();
        self.records.set(
            i,
            Worker { worker_id: w.worker_id, deal_id: w.deal_id, creator: w.creator, state },
        );
    }

    /// Registers a worker for a deal, in state `Created`.
    ///
    /// Refused with `DealHasWorker` where a worker that was not removed is
    /// bound to the deal, else with `WorkerIdUsed` where the identifier
    /// occurs in the registry, be it for a removed worker.
    pub fn create(&mut self, deal_id: String, creator: String, worker_id: String) -> (r: Result<
        (),
        WorkerError,
    >)
        requires
            old(self).wf(),
        ensures
            final(self).wf(),
            r == if deal_bound(old(self)@, deal_id@) {
                Err(WorkerError::DealHasWorker)
            } else if knows_id(old(self)@, worker_id@) {
                Err(WorkerError::WorkerIdUsed)
            } else {
                Ok(())
            },
            final(self)@ == if r is Ok {
                old(self)@.push(Worker { worker_id, deal_id, creator, state: WorkerState::Created })
            } else {
                old(self)@
            },
    {
        let mut used = false;
        let mut i: usize = 0;
        while i < self.records.len()
            invariant
                i <= self.records.len(),
                self.records@ == old(self)@,
                well_formed(self.records@),
                forall|k: int|
                    0 <= k < i ==> !((#[trigger] self.records@[k]).is_live()
                        && self.records@[k].deal_id@ == deal_id@),
                used == exists|k: int|
                    0 <= k < i && (#[trigger] self.records@[k]).worker_id@ == worker_id@,
            decreases self.records.len() - i,
        {
            let w = &self.records[i];
            if w.state != WorkerState::Removed && w.deal_id == deal_id {
                return Err(WorkerError::DealHasWorker);
            }
            if w.worker_id == worker_id {
                used = true;
            }
            i += 1;
        }
        if used {
            return Err(WorkerError::WorkerIdUsed);
        }
        self.records.push(Worker { worker_id, deal_id, creator, state: WorkerState::Created });
        Ok(())
    }

    /// The identifier of the worker that is bound to the deal.
    pub fn get_worker_id(&self, deal_id: &String) -> (r: Result<String, WorkerError>)
        requires
            self.wf(),
        ensures
            match r {
                Ok(id) => is_worker_of(self@, deal_id@, id@),
                Err(e) => e == WorkerError::NotFound && !deal_bound(self@, deal_id@),
            },
    {
        let mut i: usize = 0;
        while i < self.records.len()
            invariant
                i <= self.records.len(),
                forall|k: int|
                    0 <= k < i ==> !((#[trigger] self.records@[k]).is_live()
                        && self.records@[k].deal_id@ == deal_id@),
            decreases self.records.len() - i,
        {
            let w = &self.records[i];
            if w.state != WorkerState::Removed && w.deal_id == *deal_id {
                return Ok(w.worker_id.clone());
            }
            i += 1;
        }
        Err(WorkerError::NotFound)
    }

    /// The identifiers of the workers that were not removed, oldest first.
    pub fn list(&self) -> (r: Vec<String>)
        ensures
            r@ == live_ids(self@),
    {
        let mut out: Vec<String> = Vec::new();
        let mut i: usize = 0;
        while i < self.records.len()
            invariant
                i <= self.records.len(),
                out@ == live_ids(self.records@.take(i as int)),
            decreases self.records.len() - i,
        {
            assert(self.records@.take(i + 1).drop_last() =~= self.records@.take(i as int));
            let w = &self.records[i];
            if w.state != WorkerState::Removed {
                out.push(w.worker_id.clone());
            }
            i += 1;
        }
        assert(self.records@.take(self.records@.len() as int) =~= self.records@);
        out
    }

    /// Marks the deal of worker `worker_id` as active. A worker that is
    /// active stays so.
    pub fn activate(&mut self, worker_id: &String) -> (r: Result<(), WorkerError>)
        requires
            old(self).wf(),
        ensures
            final(self).wf(),
            r == if has_worker(old(self)@, worker_id@) {
                Ok(())
            } else {
                Err(WorkerError::NotFound)
            },
            final(self)@ == activated(old(self)@, worker_id@),
    {
        match self.position(worker_id) {
            Some(i) => {
                self.set_state(i, WorkerState::Active);
                proof {
                    lemma_moved_one(old(self)@, worker_id@, |s: WorkerState| WorkerState::Active, i as int);
                }
                Ok(())
            },
            None => {
                proof {
                    lemma_moved_none(old(self)@, worker_id@, |s: WorkerState| WorkerState::Active);
                }
                Err(WorkerError::NotFound)
            },
        }
    }

    /// Marks the deal of worker `worker_id` as not active. A worker that
    /// is not active stays as it is.
    pub fn deactivate(&mut self, worker_id: &String) -> (r: Result<(), WorkerError>)
        requires
            old(self).wf(),
        ensures
            final(self).wf(),
            r == if has_worker(old(self)@, worker_id@) {
                Ok(())
            } else {
                Err(WorkerError::NotFound)
            },
            final(self)@ == deactivated(old(self)@, worker_id@),
    {
        let ghost step = |s: WorkerState|
            if s == WorkerState::Active {
                WorkerState::Inactive
            } else {
                s
            };
        match self.position(worker_id) {
            Some(i) => {
                let state = self.records[i].state;
                let next = if state == WorkerState::Active {
                    WorkerState::Inactive
                } else {
                    state
                };
                self.set_state(i, next);
                proof {
                    lemma_moved_one(old(self)@, worker_id@, step, i as int);
                }
                Ok(())
            },
            None => {
                proof {
                    lemma_moved_none(old(self)@, worker_id@, step);
                }
                Err(WorkerError::NotFound)
            },
        }
    }

    /// Removes worker `worker_id` for good.
    pub fn remove(&mut self, worker_id: &String) -> (r: Result<(), WorkerError>)
        requires
            old(self).wf(),
        ensures
            final(self).wf(),
            r == if has_worker(old(self)@, worker_id@) {
                Ok(())
            } else {
                Err(WorkerError::NotFound)
            },
            final(self)@ == removed(old(self)@, worker_id@),
    {
        match self.position(worker_id) {
            Some(i) => {
                self.set_state(i, WorkerState::Removed);
                proof {
                    lemma_moved_one(old(self)@, worker_id@, |s: WorkerState| WorkerState::Removed, i as int);
                }
                Ok(())
            },
            None => {
                proof {
                    lemma_moved_none(old(self)@, worker_id@, |s: WorkerState| WorkerState::Removed);
                }
                Err(WorkerError::NotFound)
            },
        }
    }

    /// Whether the deal of worker `worker_id` is active.
    pub fn is_active(&self, worker_id: &String) -> (r: Result<bool, WorkerError>)
        requires
            self.wf(),
        ensures
            r == if has_worker(self@, worker_id@) {
                Ok(is_active(self@, worker_id@))
            } else {
                Err(WorkerError::NotFound)
            },
    {
        match self.position(worker_id) {
            Some(i) => Ok(self.records[i].state == WorkerState::Active),
            None => Err(WorkerError::NotFound),
        }
    }
}

/// In a well-formed registry a step of worker `id`, whose record is at
/// `i`, changes that record alone and keeps the registry well-formed.
pub proof fn lemma_moved_one(
    ws: Seq<Worker>,
    id: Seq<char>,
    step: spec_fn(WorkerState) -> WorkerState,
    i: int,
)
    requires
        well_formed(ws),
        0 <= i < ws.len(),
        ws[i].is_worker(id),
    ensures
        moved(ws, id, step) == ws.update(i, ws[i].in_state(step(ws[i].state))),
        well_formed(moved(ws, id, step)),
{
    let after = ws.update(i, ws[i].in_state(step(ws[i].state)));
    assert(moved(ws, id, step) =~= after);
    assert forall|a: int, b: int| 0 <= a < b < after.len() implies (#[trigger] after[a]).worker_id@
        != (#[trigger] after[b]).worker_id@ by {
        assert(ws[a].worker_id@ != ws[b].worker_id@);
    }
    assert forall|a: int, b: int|
        0 <= a < b < after.len() && (#[trigger] after[a]).is_live() && (#[trigger] after[b]).is_live()
        implies after[a].deal_id@ != after[b].deal_id@ by {
        assert(ws[a].is_live() && ws[b].is_live());
    }
}

/// A step of a worker that is not registered changes nothing.
pub proof fn lemma_moved_none(
    ws: Seq<Worker>,
    id: Seq<char>,
    step: spec_fn(WorkerState) -> WorkerState,
)
    requires
        !has_worker(ws, id),
    ensures
        moved(ws, id, step) == ws,
{
}

} // verus!
