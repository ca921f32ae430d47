//! The commands that wait for a runner.

use vstd::prelude::*;
use crate::scheduler::CollectorRequest;

verus! {

/// Whether a request for a sample is among the commands.
pub open spec fn sample_queued(q: Seq<CollectorRequest>) -> bool {
    exists|i: int| 0 <= i < q.len() && q[i] == CollectorRequest::Sample
}

/// No two of the commands are requests for a sample.
pub open spec fn one_sample_at_most(q: Seq<CollectorRequest>) -> bool {
    forall|i: int, j: int|
        0 <= i < j < q.len() ==> !(q[i] == CollectorRequest::Sample && q[j]
            == CollectorRequest::Sample)
}

/// The commands that wait for one runner, oldest first. A request for a
/// sample has a single slot: while one waits, another is not taken.
#[derive(Debug)]
pub struct Mailbox {
    queue: Vec<CollectorRequest>,
}

impl Mailbox {
    #[verifier::type_invariant]
    spec fn single_slot(self) -> bool {
        one_sample_at_most(self.queue@)
    }

    /// The commands that wait, oldest first.
    pub closed spec fn pending(&self) -> Seq<CollectorRequest> {
        self.queue@
    }

    /// A mailbox in which nothing waits.
    pub fn new() -> (r: Mailbox)
        ensures
            r.pending() == Seq::<CollectorRequest>::empty(),
    {
        Mailbox { queue: Vec::new() }
    }

    /// Whether a request for a sample waits.
    pub fn has_sample(&self) -> (r: bool)
        ensures
            r == sample_queued(self.pending()),
    {
        let mut i: usize = 0;
        while i < self.queue.len()
            invariant
                i <= self.queue.len(),
                forall|k: int| 0 <= k < i ==> self.queue@[k] != CollectorRequest::Sample,
            decreases self.queue.len() - i,
        {
            match self.queue[i] {
                CollectorRequest::Sample => {
                    return true;
                },
                _ => {},
            }
            i += 1;
        }
        false
    }

    /// Puts `request` behind the commands that wait, and says whether it did.
    /// A request for a sample is dropped while another one waits; every other
    /// command is taken.
    pub fn offer(&mut self, request: CollectorRequest) -> (accepted: bool)
        ensures
            accepted == !(request == CollectorRequest::Sample && sample_queued(
                old(self).pending(),
            )),
            accepted ==> final(self).pending() == old(self).pending().push(request),
            !accepted ==> final(self).pending() == old(self).pending(),
            one_sample_at_most(final(self).pending()),
    {
        proof {
            use_type_invariant(&*self);
        }
        let dropped = match request {
            CollectorRequest::Sample => self.has_sample(),
            _ => false,
        };
        if dropped {
            false
        } else {
            let mut queue: Vec<CollectorRequest> = Vec::new();
            std::mem::swap(&mut queue, &mut self.queue);
            queue.push(request);
            self.queue = queue;
            true
        }
    }

    /// Takes the oldest command, if one waits.
    pub fn take(&mut self) -> (r: Option<CollectorRequest>)
        ensures
            match r {
                Some(request) => old(self).pending().len() > 0 && request == old(self).pending()[0] && final(self).pending() == old(self).pending().drop_first(),
                None => old(self).pending().len() == 0 && final(self).pending() == old(self).pending(),
            },
            one_sample_at_most(final(self).pending()),
    {
        proof {
            use_type_invariant(&*self);
        }
        if self.queue.len() == 0 {
            None
        } else {
            let mut queue: Vec<CollectorRequest> = Vec::new();
            std::mem::swap(&mut queue, &mut self.queue);
            let ghost before = queue@;
            let first = queue.remove(0);
            assert(queue@ =~= before.drop_first());
            assert(one_sample_at_most(queue@)) by {
                assert forall|i: int, j: int| 0 <= i < j < queue@.len() implies !(queue@[i]
                    == CollectorRequest::Sample && queue@[j] == CollectorRequest::Sample) by {
                    assert(queue@[i] == before[i + 1]);
                    assert(queue@[j] == before[j + 1]);
                }
            }
            self.queue = queue;
            Some(first)
        }
    }

    /// How many commands wait.
    pub fn len(&self) -> (r: usize)
        ensures
            r == self.pending().len(),
    {
        self.queue.len()
    }
}

} // verus!
