//! A queue of audit requests, held in memory: what is put in first comes
//! out first.

use std::collections::VecDeque;
use vstd::prelude::*;
use crate::audit_request::{request_views, AuditRequest, AuditRequestView};

verus! {

/// Audit requests in the order in which they were put in.
#[derive(Debug)]
pub struct InMemoryQueue {
    queue: VecDeque<AuditRequest>,
}

impl View for InMemoryQueue {
    type V = Seq<AuditRequestView>;

    closed spec fn view(&self) -> Seq<AuditRequestView> {
        request_views(self.queue@)
    }
}

impl InMemoryQueue {
    /// An empty queue.
    pub fn new() -> (queue: InMemoryQueue)
        ensures
            queue@ == Seq::<AuditRequestView>::empty(),
    {
        let queue = InMemoryQueue { queue: VecDeque::new() };
        assert(queue@ =~= Seq::<AuditRequestView>::empty());
        queue
    }

    /// Puts a request at the end of the queue.
    pub fn enqueue(&mut self, request: AuditRequest)
        ensures
            final(self)@ == old(self)@.push(request@),
    {
        self.queue.push_back(request);
        assert(self@ =~= old(self)@.push(request@));
    }

    /// Puts requests at the end of the queue, in their order.
    pub fn enqueue_n(&mut self, requests: Vec<AuditRequest>)
        ensures
            final(self)@ == old(self)@ + request_views(requests@),
    {
        let mut i: usize = 0;
        while i < requests.len()
            invariant
                i <= requests@.len(),
                self@ == old(self)@ + request_views(requests@).subrange(0, i as int),
            decreases requests@.len() - i,
        {
            let ghost held = self@;
            self.queue.push_back(requests[i].clone());
            i = i + 1;
            assert(self@ =~= held.push(requests@[i - 1]@));
            assert(request_views(requests@).subrange(0, i as int) =~= request_views(
                requests@,
            ).subrange(0, i - 1).push(requests@[i - 1]@));
            assert(self@ =~= old(self)@ + request_views(requests@).subrange(0, i as int));
        }
        assert(request_views(requests@).subrange(0, i as int) =~= request_views(requests@));
    }

    /// Takes the first request out of the queue, if there is one.
    pub fn dequeue(&mut self) -> (r: Option<AuditRequest>)
        ensures
            match r {
                Some(request) => old(self)@.len() > 0 && request@ == old(self)@[0] && final(self)@
                    == old(self)@.subrange(1, old(self)@.len() as int),
                None => old(self)@.len() == 0 && final(self)@ == old(self)@,
            },
    {
        let request = self.queue.pop_front();
        assert(self@ =~= (if request is Some {
            old(self)@.subrange(1, old(self)@.len() as int)
        } else {
            old(self)@
        }));
        request
    }

    /// Takes the first `n` requests out of the queue, in their order.
    pub fn dequeue_n(&mut self, n: usize) -> (taken: Vec<AuditRequest>)
        requires
            n <= old(self)@.len(),
        ensures
            request_views(taken@) == old(self)@.subrange(0, n as int),
            final(self)@ == old(self)@.subrange(n as int, old(self)@.len() as int),
    {
        let ghost all = self.queue@;
        let mut taken: Vec<AuditRequest> = Vec::new();
        let mut i: usize = 0;
        while i < n
            invariant
                i <= n <= all.len(),
                taken@ == all.subrange(0, i as int),
                self.queue@ == all.subrange(i as int, all.len() as int),
            decreases n - i,
        {
            match self.queue.pop_front() {
                Some(request) => {
                    taken.push(request);
                    i = i + 1;
                    assert(taken@ =~= all.subrange(0, i as int));
                    assert(self.queue@ =~= all.subrange(i as int, all.len() as int));
                },
                None => {},
            }
        }
        assert(request_views(taken@) =~= old(self)@.subrange(0, n as int));
        assert(self@ =~= old(self)@.subrange(n as int, old(self)@.len() as int));
        taken
    }
}

impl Default for InMemoryQueue {
    fn default() -> (queue: InMemoryQueue)
        ensures
            queue@ == Seq::<AuditRequestView>::empty(),
    {
        InMemoryQueue::new()
    }
}

} // verus!
