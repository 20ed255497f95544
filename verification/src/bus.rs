//! The process-wide broadcast bus: one producer side, any number of
//! independent consumer cursors, a bounded ring of retained messages.
//!
//! Publishing never blocks and never fails; a consumer that falls behind
//! the retained window does not stall anyone else — its next receive
//! reports the gap and its cursor jumps forward to the oldest retained
//! message.  Drops skip, they never reorder.

use vstd::prelude::*;

use crate::listing::{Listing, ListingView};

verus! {

/// An immutable batch of listings published once to all current
/// subscribers.
#[derive(Clone, PartialEq, Eq, Debug)]
pub struct BroadcastMessage {
    pub listings: Vec<Listing>,
}

impl View for BroadcastMessage {
    type V = Seq<ListingView>;

    open spec fn view(&self) -> Seq<ListingView> {
        self.listings.deep_view()
    }
}

impl DeepView for BroadcastMessage {
    type V = Seq<ListingView>;

    open spec fn deep_view(&self) -> Seq<ListingView> {
        self@
    }
}

impl BroadcastMessage {
    /// A copy with the same mathematical image; subscribers each work on
    /// their own copy, so none can disturb another's.
    pub fn duplicate(&self) -> (r: BroadcastMessage)
        ensures
            r@ == self@,
    {
        let mut listings: Vec<Listing> = Vec::new();
        let mut i: usize = 0;
        while i < self.listings.len()
            invariant
                i <= self.listings.len(),
                listings.deep_view() == self.listings.deep_view().subrange(0, i as int),
            decreases self.listings.len() - i,
        {
            let ghost pre = listings.deep_view();
            let elem = self.listings[i].duplicate();
            listings.push(elem);
            proof {
                assert(listings.deep_view() =~= pre.push(elem@));
                assert(pre.push(elem@) =~= self.listings.deep_view().subrange(0, i + 1 as int));
            }
            i = i + 1;
        }
        proof {
            assert(listings.deep_view() =~= self.listings.deep_view());
        }
        BroadcastMessage { listings }
    }
}

/// What one receive attempt on a cursor yields.
pub enum RecvOutcome {
    /// The next message in publication order.
    Message(BroadcastMessage),
    /// The cursor had fallen out of the retained window; it now points at
    /// the oldest retained message and the skipped ones are gone.
    Lagged,
    /// Nothing published past this cursor yet.
    Empty,
}

/// One consumer's position: the index into the publication history of the
/// next message it will observe.
#[derive(Clone, Copy, PartialEq, Eq, Structural, Debug)]
pub struct Cursor {
    pub next: usize,
}

/// The bus: the full publication history plus the size of the retained
/// window.  Consumers address messages by history index, so slow cursors
/// cost nothing to fast ones.
pub struct Bus {
    history: Vec<BroadcastMessage>,
    capacity: usize,
}

impl View for Bus {
    type V = Seq<Seq<ListingView>>;

    closed spec fn view(&self) -> Seq<Seq<ListingView>> {
        self.history.deep_view()
    }
}

impl Bus {
    /// How many trailing messages stay receivable.
    pub closed spec fn cap(self) -> nat {
        self.capacity as nat
    }

    /// The ring retains at least one message.
    pub open spec fn wf(self) -> bool {
        self.cap() >= 1
    }

    /// A consumer at `pos` has fallen behind the retained window.
    pub open spec fn lagged(self, pos: nat) -> bool {
        pos + self.cap() < self@.len()
    }

    /// A fresh bus with the given retained-window size.
    pub fn new(capacity: usize) -> (b: Bus)
        requires
            capacity >= 1,
        ensures
            b@ == Seq::<Seq<ListingView>>::empty(),
            b.cap() == capacity,
            b.wf(),
    {
        let b = Bus { history: Vec::new(), capacity };
        proof {
            assert(b@ =~= Seq::<Seq<ListingView>>::empty());
        }
        b
    }

    /// Publishes a batch to every current and future subscriber.  Never
    /// blocks, never fails: a publication with no live subscriber is
    /// simply never received.
    pub fn publish(&mut self, msg: BroadcastMessage)
        requires
            old(self)@.len() < usize::MAX,
        ensures
            final(self)@ == old(self)@.push(msg@),
            final(self).cap() == old(self).cap(),
    {
        self.history.push(msg);
        proof {
            assert(final(self)@ =~= old(self)@.push(msg@));
        }
    }

    /// How many messages were ever published.
    pub fn len(&self) -> (n: usize)
        ensures
            n == self@.len(),
    {
        self.history.len()
    }

    /// A new cursor: it observes exactly the messages published after
    /// this call, in publication order.
    pub fn subscribe(&self) -> (c: Cursor)
        ensures
            c.next == self@.len(),
    {
        Cursor { next: self.history.len() }
    }

    /// One receive attempt.  In publication order: a cursor inside the
    /// retained window gets the message it points at and moves past it; a
    /// cursor that lagged out of the window is told so and snaps to the
    /// oldest retained message; a cursor at the head sees nothing.
    pub fn recv(&self, cursor: &mut Cursor) -> (r: RecvOutcome)
        requires
            self.wf(),
            old(cursor).next <= self@.len(),
        ensures
            final(cursor).next <= self@.len(),
            old(cursor).next <= final(cursor).next,
            if self.lagged(old(cursor).next as nat) {
                &&& r is Lagged
                &&& final(cursor).next + self.cap() == self@.len()
            } else if old(cursor).next < self@.len() {
                &&& r matches RecvOutcome::Message(m) && m@ == self@[old(cursor).next as int]
                &&& final(cursor).next == old(cursor).next + 1
            } else {
                &&& r is Empty
                &&& final(cursor).next == old(cursor).next
            },
    {
        if self.history.len() >= self.capacity && self.history.len() - self.capacity > cursor.next {
            cursor.next = self.history.len() - self.capacity;
            RecvOutcome::Lagged
        } else if cursor.next < self.history.len() {
            let msg = self.history[cursor.next].duplicate();
            cursor.next = cursor.next + 1;
            RecvOutcome::Message(msg)
        } else {
            RecvOutcome::Empty
        }
    }
}

} // verus!
