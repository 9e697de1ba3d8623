//! The workers that take e-mail jobs off the queue.

use vstd::prelude::*;

verus! {

/// What a worker does next.
#[derive(Debug, Clone, Copy, PartialEq, Eq, Structural)]
pub enum WorkerAction {
    /// Sleep until the queue changes.
    Wait,
    /// Leave: the queue is drained and a shutdown was asked for.
    Stop,
    /// Take the job at the front of the queue.
    Take,
}

/// The next step of a worker, given whether the queue is empty and whether a
/// shutdown was asked for: jobs are always taken while there are any, so a
/// shutdown lets the queue drain first.
pub fn worker_action(queue_empty: bool, shutting_down: bool) -> (r: WorkerAction)
    ensures
        r == WorkerAction::Stop <==> queue_empty && shutting_down,
        r == WorkerAction::Wait <==> queue_empty && !shutting_down,
        r == WorkerAction::Take <==> !queue_empty,
{
    if !queue_empty {
        WorkerAction::Take
    } else if shutting_down {
        WorkerAction::Stop
    } else {
        WorkerAction::Wait
    }
}

/// The numbers of the workers of a pool of `size`: 1 to `size`.
pub fn worker_numbers(size: usize) -> (r: Vec<usize>)
    requires
        size >= 1,
    ensures
        r@.len() == size,
        forall|k: int| 0 <= k < size ==> #[trigger] r@[k] == k + 1,
{
    let mut r: Vec<usize> = Vec::new();
    let mut n: usize = 0;
    while n < size
        invariant
            n <= size,
            r@.len() == n,
            forall|k: int| 0 <= k < n ==> #[trigger] r@[k] == k + 1,
        decreases size - n,
    {
        r.push(n + 1);
        n = n + 1;
    }
    r
}

} // verus!
