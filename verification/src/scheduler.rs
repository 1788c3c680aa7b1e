//! The scheduling loop's decisions.
//!
//! The scheduler owns a fixed set of tasks. On start every task fires once
//! (the initial burst). After that, each round computes every task's next
//! firing instant, picks the chronologically earliest — first in task
//! order on a tie — and asks the runner to wait until it, racing the wait
//! against the shutdown signal. Only the due task fires; the next round
//! re-computes every instant afresh. Once shutdown is signalled no new
//! firing is ever handed out; firings already running are not touched.

use vstd::prelude::*;

verus! {

use crate::clock::get_unix_timestamp_millis_now;
use crate::cron_clock::cron_parses;
use crate::cron_clock::MAX_CRON_INSTANT_MILLIS;
use crate::task::Task;

/// What the scheduling loop does next.
#[derive(Debug, Clone, Copy, PartialEq, Eq, Structural)]
pub enum Directive {
    /// Wait `wait_millis`, the time until the given task's next firing
    /// instant, racing the wait against the shutdown signal.
    Wait { task: usize, wait_millis: u64 },
    /// No further firing: shutdown was signalled, or no task has a next
    /// firing instant.
    Stop,
}

/// What to do once the wait ends.
#[derive(Debug, Clone, Copy, PartialEq, Eq, Structural)]
pub enum WakeAction {
    /// Run the due task.
    Fire { task: usize },
    /// Shutdown won the race: fire nothing further.
    Stop,
}

/// The wait from `now` until `fire`; zero when the instant is not in the
/// future.
pub open spec fn spec_wait_millis(now: int, fire: int) -> int {
    if fire > now {
        fire - now
    } else {
        0
    }
}

/// The scheduler: a fixed task set and the cooperative shutdown flag.
#[derive(Debug)]
pub struct Scheduler {
    pub tasks: Vec<Task>,
    pub shutdown: bool,
}

impl Scheduler {
    /// A scheduler over these tasks, not yet shut down.
    pub fn new(tasks: Vec<Task>) -> (s: Scheduler)
        ensures
            s.tasks == tasks,
            !s.shutdown,
    {
        Scheduler { tasks, shutdown: false }
    }

    /// Signal shutdown: from here on, planning hands out no new firing.
    pub fn signal_shutdown(&mut self)
        ensures
            final(self).shutdown,
            final(self).tasks == old(self).tasks,
    {
        self.shutdown = true;
    }

    /// The initial burst: every task, in task order, fires once
    /// immediately on start, whatever its cron schedule says.
    pub fn initial_burst(&self) -> (r: Vec<usize>)
        ensures
            r@.len() == self.tasks@.len(),
            forall|i: int| 0 <= i < r@.len() ==> r@[i] == i,
    {
        let n = self.tasks.len();
        let mut out: Vec<usize> = Vec::new();
        let mut i: usize = 0;
        while i < n
            invariant
                i <= n,
                out@.len() == i,
                forall|k: int| 0 <= k < i ==> out@[k] == k,
            decreases n - i,
        {
            out.push(i);
            i = i + 1;
        }
        out
    }

    /// Every task's next firing instant after `now_millis`, in task
    /// order. An entry is present only for a task whose cron expression
    /// parses; the instants themselves come from the cron clock.
    pub fn compute_fires(&self, now_millis: i64) -> (r: Vec<Option<i64>>)
        ensures
            r@.len() == self.tasks@.len(),
            forall|i: int|
                0 <= i < r@.len() ==> (#[trigger] r@[i] is Some ==> cron_parses(
                    self.tasks@[i].cron_expr@,
                )),
            now_millis >= MAX_CRON_INSTANT_MILLIS ==> forall|i: int|
                0 <= i < r@.len() ==> #[trigger] r@[i] is None,
    {
        let n = self.tasks.len();
        let mut out: Vec<Option<i64>> = Vec::new();
        let mut i: usize = 0;
        while i < n
            invariant
                n == self.tasks@.len(),
                i <= n,
                out@.len() == i,
                forall|k: int|
                    0 <= k < i ==> (#[trigger] out@[k] is Some ==> cron_parses(
                        self.tasks@[k].cron_expr@,
                    )),
                now_millis >= MAX_CRON_INSTANT_MILLIS ==> forall|k: int|
                    0 <= k < i ==> #[trigger] out@[k] is None,
            decreases n - i,
        {
            let fire = self.tasks[i].next_fire(now_millis);
            out.push(fire);
            i = i + 1;
        }
        out
    }

    /// The index of the earliest firing instant, the first such index on
    /// a tie; `None` exactly when no task has one.
    pub fn select_earliest(fires: &Vec<Option<i64>>) -> (r: Option<usize>)
        ensures
            r is None <==> (forall|j: int| 0 <= j < fires@.len() ==> fires@[j] is None),
            r matches Some(idx) ==> idx < fires@.len() && fires@[idx as int] is Some && (forall|
                j: int,
            |
                0 <= j < fires@.len() && fires@[j] is Some ==> fires@[idx as int].unwrap()
                    <= fires@[j].unwrap()) && (forall|j: int|
                0 <= j < idx as int && fires@[j] is Some ==> fires@[idx as int].unwrap()
                    < fires@[j].unwrap()),
    {
        let n = fires.len();
        let mut best: Option<usize> = None;
        let mut i: usize = 0;
        while i < n
            invariant
                n == fires@.len(),
                i <= n,
                best is None ==> forall|j: int| 0 <= j < i ==> fires@[j] is None,
                best matches Some(b) ==> b < i && fires@[b as int] is Some && (forall|j: int|
                    0 <= j < i && fires@[j] is Some ==> fires@[b as int].unwrap()
                        <= fires@[j].unwrap()) && (forall|j: int|
                    0 <= j < b as int && fires@[j] is Some ==> fires@[b as int].unwrap()
                        < fires@[j].unwrap()),
            decreases n - i,
        {
            if let Some(t) = fires[i] {
                match best {
                    None => {
                        best = Some(i);
                    },
                    Some(b) => {
                        if let Some(bt) = fires[b] {
                            if t < bt {
                                best = Some(i);
                            }
                        }
                    },
                }
            }
            i = i + 1;
        }
        best
    }

    /// One planning round over already-computed firing instants: stop
    /// when shutdown is signalled or no instant exists; otherwise wait
    /// for the earliest instant's task, the wait clamped to zero when the
    /// instant is not in the future.
    pub fn plan_from_fires(&self, now_millis: i64, fires: &Vec<Option<i64>>) -> (d: Directive)
        requires
            now_millis >= 0,
            fires@.len() == self.tasks@.len(),
        ensures
            self.shutdown ==> d is Stop,
            d is Stop <==> self.shutdown || (forall|j: int|
                0 <= j < fires@.len() ==> fires@[j] is None),
            d matches Directive::Wait { task, wait_millis } ==> task < self.tasks@.len()
                && fires@[task as int] is Some && wait_millis == spec_wait_millis(
                now_millis as int,
                fires@[task as int].unwrap() as int,
            ) && (forall|j: int|
                0 <= j < fires@.len() && fires@[j] is Some ==> fires@[task as int].unwrap()
                    <= fires@[j].unwrap()) && (forall|j: int|
                0 <= j < task as int && fires@[j] is Some ==> fires@[task as int].unwrap()
                    < fires@[j].unwrap()),
    {
        if self.shutdown {
            return Directive::Stop;
        }
        match Self::select_earliest(fires) {
            None => Directive::Stop,
            Some(task) => {
                let fire = fires[task].unwrap();
                let wait_millis: u64 = if fire > now_millis {
                    (fire - now_millis) as u64
                } else {
                    0
                };
                Directive::Wait { task, wait_millis }
            },
        }
    }

    /// One planning round at the given instant: compute every task's next
    /// firing and plan over them.
    pub fn plan(&self, now_millis: i64) -> (d: Directive)
        requires
            now_millis >= 0,
        ensures
            self.shutdown ==> d is Stop,
            self.tasks@.len() == 0 ==> d is Stop,
            now_millis >= MAX_CRON_INSTANT_MILLIS ==> d is Stop,
            d matches Directive::Wait { task, wait_millis } ==> !self.shutdown && task
                < self.tasks@.len() && cron_parses(self.tasks@[task as int].cron_expr@),
    {
        let fires = self.compute_fires(now_millis);
        self.plan_from_fires(now_millis, &fires)
    }

    /// One planning round at the current wall-clock instant.
    pub fn plan_now(&self) -> (d: Directive)
        ensures
            self.shutdown ==> d is Stop,
            self.tasks@.len() == 0 ==> d is Stop,
            d matches Directive::Wait { task, wait_millis } ==> !self.shutdown && task
                < self.tasks@.len() && cron_parses(self.tasks@[task as int].cron_expr@),
    {
        let now = get_unix_timestamp_millis_now();
        let now = if now < 0 {
            0
        } else {
            now
        };
        self.plan(now)
    }

    /// Resolve the race between the wait and the shutdown signal: the due
    /// task fires only when neither the signal that ended the wait nor
    /// the scheduler's own flag says shutdown.
    pub fn after_wait(&self, shutdown_signaled: bool, task: usize) -> (a: WakeAction)
        requires
            task < self.tasks@.len(),
        ensures
            shutdown_signaled || self.shutdown ==> a is Stop,
            !shutdown_signaled && !self.shutdown ==> a == (WakeAction::Fire { task }),
    {
        if shutdown_signaled || self.shutdown {
            WakeAction::Stop
        } else {
            WakeAction::Fire { task }
        }
    }
}

} // verus!

