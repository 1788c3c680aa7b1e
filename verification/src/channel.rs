//! The result channel's queue discipline: a bounded FIFO buffer of task
//! results, drained by a single consumer.
//!
//! The live channel the application runs on is asynchronous; this type
//! pins down what it buffers: results are accepted whenever the buffer is
//! below capacity, kept in arrival order, and handed out first-in
//! first-out.

use vstd::prelude::*;

verus! {

use crate::task::TaskResult;

/// How many pending results the channel buffers.
pub const RESULT_CHANNEL_CAPACITY: usize = 128;

/// A bounded first-in first-out buffer of task results.
#[derive(Debug)]
pub struct ResultQueue {
    pub items: Vec<TaskResult>,
    pub capacity: usize,
}

impl ResultQueue {
    /// Never holds more than its capacity.
    pub open spec fn wf(&self) -> bool {
        self.items@.len() <= self.capacity
    }

    /// An empty queue of the given capacity.
    pub fn new(capacity: usize) -> (q: ResultQueue)
        ensures
            q.wf(),
            q.items@.len() == 0,
            q.capacity == capacity,
    {
        ResultQueue { items: Vec::new(), capacity }
    }

    /// How many results are waiting.
    pub fn len(&self) -> (n: usize)
        ensures
            n == self.items@.len(),
    {
        self.items.len()
    }

    /// Append a result. A queue below capacity always accepts; a full
    /// queue refuses and is left unchanged.
    pub fn push(&mut self, r: TaskResult) -> (accepted: bool)
        requires
            old(self).wf(),
        ensures
            final(self).wf(),
            final(self).capacity == old(self).capacity,
            accepted == (old(self).items@.len() < old(self).capacity),
            accepted ==> final(self).items@ == old(self).items@.push(r),
            !accepted ==> final(self).items@ == old(self).items@,
    {
        if self.items.len() < self.capacity {
            self.items.push(r);
            true
        } else {
            false
        }
    }

    /// Remove and return the oldest waiting result, if any.
    pub fn pop(&mut self) -> (r: Option<TaskResult>)
        requires
            old(self).wf(),
        ensures
            final(self).wf(),
            final(self).capacity == old(self).capacity,
            old(self).items@.len() == 0 ==> r is None && final(self).items@ == old(self).items@,
            old(self).items@.len() > 0 ==> (r matches Some(x) && x == old(self).items@[0]
                && final(self).items@ == old(self).items@.drop_first()),
    {
        if self.items.len() == 0 {
            None
        } else {
            let x = self.items.remove(0);
            proof {
                assert(self.items@ =~= old(self).items@.drop_first());
            }
            Some(x)
        }
    }
}

} // verus!
