//! The Work Queue: a FIFO of raw job-identifier strings, the handoff from
//! submission to execution. It carries no job data, only identifiers, and
//! the transport is untyped text: a consumer must parse each entry and may
//! find it malformed.

use vstd::prelude::*;

verus! {

/// FIFO of raw identifier strings, in arrival order (head first).
pub struct WorkQueue {
    items: Vec<String>,
}

impl View for WorkQueue {
    type V = Seq<Seq<char>>;

    closed spec fn view(&self) -> Seq<Seq<char>> {
        Seq::new(self.items@.len(), |i: int| self.items@[i]@)
    }
}

impl WorkQueue {
    /// An empty queue.
    pub fn new() -> (r: WorkQueue)
        ensures
            r@ == Seq::<Seq<char>>::empty(),
    {
        let r = WorkQueue { items: Vec::new() };
        proof {
            assert(r@ =~= Seq::<Seq<char>>::empty());
        }
        r
    }

    /// The number of entries waiting.
    pub fn len(&self) -> (n: usize)
        ensures
            n == self@.len(),
    {
        self.items.len()
    }

    /// Appends an identifier to the tail.
    pub fn enqueue(&mut self, raw: String)
        ensures
            final(self)@ == old(self)@.push(raw@),
    {
        let ghost s0 = self@;
        let ghost v = raw@;
        self.items.push(raw);
        proof {
            assert(self@ =~= s0.push(v));
        }
    }

    /// Removes and returns the head entry; `None` models a dequeue that
    /// timed out on an empty queue (not an error). Entries come out in the
    /// order they were enqueued.
    pub fn dequeue(&mut self) -> (r: Option<String>)
        ensures
            old(self)@.len() == 0 ==> r is None && final(self)@ == old(self)@,
            old(self)@.len() > 0 ==> {
                &&& r matches Some(raw) && raw@ == old(self)@[0]
                &&& final(self)@ == old(self)@.drop_first()
            },
    {
        if self.items.len() == 0 {
            proof {
                assert(self@ =~= old(self)@);
            }
            Option::None
        } else {
            let ghost s0 = self@;
            let raw = self.items.remove(0);
            proof {
                assert(self@ =~= s0.drop_first());
            }
            Option::Some(raw)
        }
    }
}

} // verus!
