//! History reconstruction: an incremental walk that follows parent
//! links backward from the head. The caller fetches each requested
//! record from the store and feeds it back; the walk checks the links
//! and, once the chain is exhausted, hands out the conversation in
//! oldest-first order. An empty head finishes immediately without a
//! single fetch. Any fetch failure is terminal for the walk: partial
//! history is discarded by the caller rather than returned truncated.
use vstd::prelude::*;
use crate::message::{Message, opt_view};
use crate::model::linked_oldest_first;

verus! {

/// A walk in progress. `pending` is the identifier the walk still has
/// to resolve, `None` once the chain is exhausted; `collected` holds
/// the messages seen so far, newest first; `head` records the
/// identifier the walk started from.
pub struct HistoryWalk {
    pub head: Ghost<Option<Seq<char>>>,
    pub pending: Option<String>,
    pub collected: Vec<Message>,
}

impl HistoryWalk {
    /// The walk's invariant: every collected message bears an
    /// identifier, consecutive messages are linked parent-to-child,
    /// the first collected message is the head, and `pending` is the
    /// parent of the last message seen (or the head before any is).
    pub open spec fn wf(self) -> bool {
        &&& forall|i: int| 0 <= i < self.collected@.len() ==> (#[trigger] self.collected@[i]).id
            is Some
        &&& forall|i: int|
            0 <= i < self.collected@.len() - 1 ==> opt_view(
                (#[trigger] self.collected@[i]).parent,
            ) == opt_view(self.collected@[i + 1].id)
        &&& (self.collected@.len() > 0 ==> opt_view(self.collected@[0].id) == self.head@)
        &&& opt_view(self.pending) == (if self.collected@.len() == 0 {
            self.head@
        } else {
            opt_view(self.collected@.last().parent)
        })
    }

    /// Begins a walk from the given head. An absent head leaves
    /// nothing pending: the walk is complete before any store call.
    pub fn start(head: Option<String>) -> (w: HistoryWalk)
        ensures
            w.wf(),
            w.head@ == opt_view(head),
            w.pending == head,
            w.collected@.len() == 0,
    {
        let ghost head_view = opt_view(head);
        HistoryWalk { head: Ghost(head_view), pending: head, collected: Vec::new() }
    }

    /// The identifier the caller must fetch next, `None` when the walk
    /// is complete.
    pub fn next_needed(&self) -> (r: Option<&String>)
        ensures
            r matches Some(s) ==> self.pending == Some(*s),
            r is None ==> self.pending is None,
    {
        match &self.pending {
            Some(s) => Some(s),
            None => None,
        }
    }

    /// Accepts the fetched message for the pending identifier and
    /// advances to its parent.
    #[verifier::rlimit(60)]
    pub fn supply(&mut self, msg: Message)
        requires
            old(self).wf(),
            old(self).pending matches Some(p) && opt_view(msg.id) == Some(p@),
        ensures
            final(self).wf(),
            final(self).head == old(self).head,
            final(self).collected@ == old(self).collected@.push(msg),
            opt_view(final(self).pending) == opt_view(msg.parent),
    {
        let next: Option<String> = match &msg.parent {
            None => None,
            Some(s) => Some(s.clone()),
        };
        self.collected.push(msg);
        self.pending = next;
        proof {
            assert(self.collected@.last() == msg);
            assert(forall|i: int|
                0 <= i < old(self).collected@.len() ==> self.collected@[i] == old(
                    self,
                ).collected@[i]);
        }
    }

    /// Whether the chain is exhausted.
    pub fn done(&self) -> (r: bool)
        ensures
            r == (self.pending is None),
    {
        self.pending.is_none()
    }

    /// Hands out the reconstructed conversation, oldest first: the
    /// first message has no parent, each later message's parent is the
    /// identifier of the one before it, and the last message is the
    /// head the walk started from. The walk is drained.
    #[verifier::rlimit(60)]
    pub fn finish(&mut self) -> (r: Vec<Message>)
        requires
            old(self).wf(),
            old(self).pending is None,
        ensures
            r@.len() == old(self).collected@.len(),
            forall|j: int|
                0 <= j < r@.len() ==> r@[j] == old(self).collected@[r@.len() - 1 - j],
            linked_oldest_first(r@, old(self).head@),
    {
        let ghost n = self.collected@.len();
        let mut r: Vec<Message> = Vec::new();
        while self.collected.len() > 0
            invariant
                old(self).wf(),
                old(self).pending is None,
                n == old(self).collected@.len(),
                self.collected@ == old(self).collected@.subrange(
                    0,
                    self.collected@.len() as int,
                ),
                r@.len() + self.collected@.len() == n,
                forall|j: int| 0 <= j < r@.len() ==> r@[j] == old(self).collected@[n - 1 - j],
            decreases self.collected@.len(),
    {
            proof {
                assert(self.collected@.last() == old(self).collected@[self.collected@.len()
                    - 1]);
            }
            let m = self.collected.pop().unwrap();
            r.push(m);
            proof {
                assert(self.collected@ =~= old(self).collected@.subrange(
                    0,
                    self.collected@.len() as int,
                ));
            }
        }
        proof {
            assert(forall|j: int|
                0 <= j < r@.len() ==> r@[j] == old(self).collected@[n - 1 - j]);
            if r@.len() > 0 {
                assert(r@[0] == old(self).collected@[n - 1]);
                assert(opt_view(old(self).collected@.last().parent) == opt_view(
                    old(self).pending,
                ));
            }
        }
        r
    }
}

} // verus!
