use std::collections::HashMap;
use std::collections::HashSet;
use vstd::prelude::*;

use crate::config::JobConfig;

verus! {

broadcast use vstd::std_specs::hash::group_hash_axioms;

/// What the registry holds, mathematically: the configuration of every
/// bootstrapped job, and the jobs that have a tick in progress.
pub ghost struct RegistryModel {
    pub records: Map<u128, JobConfig>,
    pub running: Set<u128>,
}

/// The registry after a tick of `id` was admitted.
pub open spec fn began(r: RegistryModel, id: u128) -> RegistryModel {
    RegistryModel { running: r.running.insert(id), ..r }
}

/// The registry after the tick of `id` finished.
pub open spec fn ended(r: RegistryModel, id: u128) -> RegistryModel {
    RegistryModel { running: r.running.remove(id), ..r }
}

/// The registry after a successful bootstrap of `id` was committed: a record
/// is added only where none was.
pub open spec fn committed(r: RegistryModel, id: u128, config: JobConfig) -> RegistryModel {
    if r.records.contains_key(id) {
        r
    } else {
        RegistryModel { records: r.records.insert(id, config), ..r }
    }
}

/// Whether a new tick of `id` may start: none of its ticks is in progress.
pub open spec fn admits(r: RegistryModel, id: u128) -> bool {
    !r.running.contains(id)
}

/// Whether a tick may start, and if so whether its job is already bootstrapped.
#[derive(PartialEq, Eq, Structural, Clone, Copy, Debug)]
pub enum Admission {
    /// A tick of the same job is still in progress: this trigger is skipped.
    Skip,
    /// The tick runs; `registered` tells whether the job has a record.
    Run { registered: bool },
}

/// The outcome of committing a bootstrap.
#[derive(PartialEq, Eq, Structural, Clone, Copy, Debug)]
pub enum InsertOutcome {
    Inserted,
    AlreadyPresent,
}

/// A bootstrapped job: its identifier and the configuration it was registered with.
pub struct JobRecord {
    pub id: u128,
    pub config: JobConfig,
}

/// Per-job state shared by all ticks. Records are added once, after a
/// successful bootstrap, and never removed; every operation is a short
/// check-and-set meant to be run under one lock, never across I/O.
pub struct JobRegistry {
    records: HashMap<u128, JobConfig>,
    running: HashSet<u128>,
}

impl View for JobRegistry {
    type V = RegistryModel;

    closed spec fn view(&self) -> RegistryModel {
        RegistryModel { records: self.records@, running: self.running@ }
    }
}

impl JobRegistry {
    /// An empty registry: no job bootstrapped, no tick in progress.
    pub fn new() -> (r: JobRegistry)
        ensures
            r@.records == Map::<u128, JobConfig>::empty(),
            r@.running == Set::<u128>::empty(),
    {
        JobRegistry { records: HashMap::new(), running: HashSet::new() }
    }

    /// The record of job `id`, if it has been bootstrapped.
    pub fn lookup(&self, id: u128) -> (r: Option<JobRecord>)
        ensures
            match r {
                Some(rec) => self@.records.contains_key(id) && rec.id == id && rec.config
                    == self@.records[id],
                None => !self@.records.contains_key(id),
            },
    {
        match self.records.get(&id) {
            Some(c) => Some(JobRecord { id, config: c.duplicate() }),
            None => None,
        }
    }

    /// Whether job `id` has been bootstrapped.
    pub fn is_registered(&self, id: u128) -> (r: bool)
        ensures
            r == self@.records.contains_key(id),
    {
        self.records.contains_key(&id)
    }

    /// Whether a tick of job `id` is in progress.
    pub fn is_running(&self, id: u128) -> (r: bool)
        ensures
            r == self@.running.contains(id),
    {
        self.running.contains(&id)
    }

    /// Admits a tick of job `id` unless one is in progress, and marks it running.
    pub fn begin_tick(&mut self, id: u128) -> (r: Admission)
        ensures
            admits(old(self)@, id) ==> final(self)@ == began(old(self)@, id) && r == (Admission::Run {
                registered: old(self)@.records.contains_key(id),
            }),
            !admits(old(self)@, id) ==> final(self)@ == old(self)@ && r == Admission::Skip,
    {
        if self.running.contains(&id) {
            Admission::Skip
        } else {
            self.running.insert(id);
            Admission::Run { registered: self.records.contains_key(&id) }
        }
    }

    /// Marks the tick of job `id` finished.
    pub fn end_tick(&mut self, id: u128)
        ensures
            final(self)@ == ended(old(self)@, id),
    {
        self.running.remove(&id);
    }

    /// Records a successful bootstrap of job `id`, unless it is already recorded.
    pub fn insert_if_absent(&mut self, id: u128, config: JobConfig) -> (r: InsertOutcome)
        ensures
            final(self)@ == committed(old(self)@, id, config),
            r == (if old(self)@.records.contains_key(id) {
                InsertOutcome::AlreadyPresent
            } else {
                InsertOutcome::Inserted
            }),
    {
        if self.records.contains_key(&id) {
            InsertOutcome::AlreadyPresent
        } else {
            self.records.insert(id, config);
            InsertOutcome::Inserted
        }
    }
}

} // verus!
