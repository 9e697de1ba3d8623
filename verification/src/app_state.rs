//! The count of e-mail jobs waiting, shared by the listener and the workers.

use vstd::prelude::*;

verus! {

/// How many jobs are pending, and whether there is any.
#[derive(Debug)]
pub struct AppState {
    pub has_task: bool,
    pub total_task: u32,
}

impl AppState {
    /// Whether the flag agrees with the count: set exactly when a job is pending.
    pub open spec fn consistent(self) -> bool {
        self.has_task == (self.total_task > 0)
    }

    /// The state after one more job arrives.
    pub open spec fn after_increase(self) -> AppState {
        AppState {
            has_task: if self.total_task == 0 { true } else { self.has_task },
            total_task: (self.total_task + 1) as u32,
        }
    }

    /// The state after one job is done; the count never goes below zero.
    pub open spec fn after_decrease(self) -> AppState {
        let total = if self.total_task != 0 { (self.total_task - 1) as u32 } else { 0u32 };
        AppState { has_task: if total == 0 { false } else { self.has_task }, total_task: total }
    }

    /// No job pending.
    pub fn new() -> (r: Self)
        ensures
            r == (AppState { has_task: false, total_task: 0 }),
            r.consistent(),
    {
        Self { has_task: false, total_task: 0 }
    }

    /// Counts one more job.
    pub fn increase_task(&mut self)
        requires
            old(self).total_task < u32::MAX,
        ensures
            *final(self) == old(self).after_increase(),
    {
        if self.total_task == 0 {
            self.has_task = true
        }
        self.total_task += 1
    }

    /// Counts one job done; at zero the count stays at zero.
    pub fn decrease_task(&mut self)
        ensures
            *final(self) == old(self).after_decrease(),
    {
        if self.total_task != 0 {
            self.total_task -= 1;
        }
        if self.total_task == 0 {
            self.has_task = false;
        }
    }
}

/// Adding a job and finishing one keep the flag in agreement with the count.
pub proof fn lemma_updates_keep_consistent(s: AppState)
    requires
        s.consistent(),
    ensures
        s.total_task < u32::MAX ==> s.after_increase().consistent(),
        s.after_decrease().consistent(),
{
}

/// Finishing a job undoes the arrival of one.
pub proof fn lemma_decrease_undoes_increase(s: AppState)
    requires
        s.consistent(),
        s.total_task < u32::MAX,
    ensures
        s.after_increase().after_decrease() == s,
{
}

/// After an arrival there is a job pending, and the count has grown by one.
pub proof fn lemma_increase_sets_task(s: AppState)
    requires
        s.consistent(),
        s.total_task < u32::MAX,
    ensures
        s.after_increase().has_task,
        s.after_increase().total_task == s.total_task + 1,
{
}

/// Finishing a job when none is pending changes nothing but the flag, which is cleared.
pub proof fn lemma_decrease_at_zero(s: AppState)
    requires
        s.total_task == 0,
    ensures
        s.after_decrease() == (AppState { has_task: false, total_task: 0 }),
{
}

} // verus!
