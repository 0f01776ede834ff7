use std::collections::VecDeque;
use vstd::prelude::*;

verus! {

broadcast use vstd::std_specs::vecdeque::group_vec_dequeue_axioms;

/// The texts of a sequence of owned strings.
pub open spec fn texts_of(v: Seq<String>) -> Seq<Seq<char>> {
    v.map_values(|m: String| m@)
}

/// One bounded-history step: `t` goes to the back; if the history is already
/// at capacity, the oldest entry leaves the front.
pub open spec fn append_model(h: Seq<Seq<char>>, cap: nat, t: Seq<char>) -> Seq<Seq<char>> {
    if h.len() < cap {
        h.push(t)
    } else {
        h.push(t).skip(1)
    }
}

/// The history left by replaying `msgs`, oldest first, through
/// `append_model` from an empty history.
pub open spec fn replay(msgs: Seq<Seq<char>>, cap: nat) -> Seq<Seq<char>>
    decreases msgs.len(),
{
    if msgs.len() == 0 {
        Seq::empty()
    } else {
        append_model(replay(msgs.drop_last(), cap), cap, msgs.last())
    }
}

/// The most recent `cap` (or fewer) of `msgs`, in arrival order.
pub open spec fn recent_suffix(msgs: Seq<Seq<char>>, cap: nat) -> Seq<Seq<char>> {
    if msgs.len() <= cap {
        msgs
    } else {
        msgs.skip(msgs.len() - cap)
    }
}

/// However many messages are appended, the history stays within capacity
/// and holds exactly the most recent messages, in arrival order.
pub proof fn lemma_history_is_recent_suffix(msgs: Seq<Seq<char>>, cap: nat)
    requires
        1 <= cap,
    ensures
        replay(msgs, cap).len() <= cap,
        replay(msgs, cap) == recent_suffix(msgs, cap),
    decreases msgs.len(),
{
    if msgs.len() == 0 {
        assert(replay(msgs, cap) =~= recent_suffix(msgs, cap));
    } else {
        lemma_history_is_recent_suffix(msgs.drop_last(), cap);
        assert(replay(msgs, cap) =~= recent_suffix(msgs, cap));
    }
}

/// Bounded history of recent message texts, oldest first, plus a counter of
/// messages seen since the last generated reply (used by the counter-threshold
/// trigger policy).
///
/// The process owns exactly one store, shared by every message-handling task
/// behind an exclusive-access guard; it is not keyed by chat, so in a
/// multi-chat deployment history leaks across chats. That scoping limitation
/// is deliberate and documented rather than fixed here.
pub struct ConversationStore {
    messages: VecDeque<String>,
    capacity: usize,
    pending_count: u8,
}

impl ConversationStore {
    /// The history as a sequence of message texts, oldest first.
    pub closed spec fn history(self) -> Seq<Seq<char>> {
        texts_of(self.messages@)
    }

    pub closed spec fn cap(self) -> nat {
        self.capacity as nat
    }

    pub closed spec fn pending(self) -> nat {
        self.pending_count as nat
    }

    /// Invariant: the history never exceeds its capacity.
    pub open spec fn well_formed(self) -> bool {
        &&& 1 <= self.cap()
        &&& self.history().len() <= self.cap()
    }

    /// A store that starts with an empty history and a zero counter.
    pub fn new(capacity: usize) -> (s: Self)
        requires
            1 <= capacity,
        ensures
            s.well_formed(),
            s.history() == Seq::<Seq<char>>::empty(),
            s.cap() == capacity,
            s.pending() == 0,
    {
        let s = ConversationStore { messages: VecDeque::new(), capacity, pending_count: 0 };
        proof {
            assert(s.history() =~= Seq::<Seq<char>>::empty());
        }
        s
    }

    /// Adds `text` to the back of the history; if the history then exceeds
    /// its capacity, the oldest entry is removed. The counter is untouched.
    pub fn append(&mut self, text: String)
        requires
            old(self).well_formed(),
        ensures
            final(self).well_formed(),
            final(self).history() == append_model(old(self).history(), old(self).cap(), text@),
            final(self).cap() == old(self).cap(),
            final(self).pending() == old(self).pending(),
    {
        let ghost h0 = self.history();
        self.messages.push_back(text);
        proof {
            assert(self.history() =~= h0.push(text@));
        }
        if self.messages.len() > self.capacity {
            self.messages.pop_front();
            proof {
                assert(self.history() =~= h0.push(text@).skip(1));
            }
        }
    }

    /// Removes the oldest history entry, if any; the counter is untouched.
    pub fn evict_oldest(&mut self)
        ensures
            final(self).history() == if old(self).history().len() == 0 {
                old(self).history()
            } else {
                old(self).history().skip(1)
            },
            final(self).cap() == old(self).cap(),
            final(self).pending() == old(self).pending(),
            old(self).well_formed() ==> final(self).well_formed(),
    {
        let ghost h0 = self.history();
        let _ = self.messages.pop_front();
        proof {
            if h0.len() > 0 {
                assert(self.history() =~= h0.skip(1));
            } else {
                assert(self.history() =~= h0);
            }
        }
    }

    /// A copy of the current history, oldest first, for building a
    /// completion request outside the store's critical section.
    pub fn snapshot(&self) -> (out: Vec<String>)
        ensures
            texts_of(out@) == self.history(),
    {
        let mut out: Vec<String> = Vec::new();
        let mut i: usize = 0;
        while i < self.messages.len()
            invariant
                i <= self.messages@.len(),
                out@.len() == i,
                forall|j: int| 0 <= j < i ==> out@[j]@ == self.history()[j],
            decreases self.messages@.len() - i,
        {
            out.push(self.messages[i].clone());
            i = i + 1;
        }
        proof {
            assert(texts_of(out@) =~= self.history());
        }
        out
    }

    /// One more message has arrived without a reply; the counter saturates
    /// rather than wrap.
    pub fn increment_pending(&mut self)
        ensures
            final(self).pending() == if old(self).pending() < 255 {
                old(self).pending() + 1
            } else {
                old(self).pending()
            },
            final(self).history() == old(self).history(),
            final(self).cap() == old(self).cap(),
            old(self).well_formed() ==> final(self).well_formed(),
    {
        if self.pending_count < 255 {
            self.pending_count = self.pending_count + 1;
        }
    }

    /// How many messages the history currently holds.
    pub fn len(&self) -> (n: usize)
        ensures
            n == self.history().len(),
    {
        self.messages.len()
    }

    /// The bound on the history's length.
    pub fn capacity(&self) -> (c: usize)
        ensures
            c as nat == self.cap(),
    {
        self.capacity
    }

    /// How many messages have arrived since the last generated reply.
    pub fn pending_count(&self) -> (n: u8)
        ensures
            n as nat == self.pending(),
    {
        self.pending_count
    }

    /// A reply was just generated: the counter returns to zero.
    pub fn reset_pending(&mut self)
        ensures
            final(self).pending() == 0,
            final(self).history() == old(self).history(),
            final(self).cap() == old(self).cap(),
            old(self).well_formed() ==> final(self).well_formed(),
    {
        self.pending_count = 0;
    }
}

} // verus!
