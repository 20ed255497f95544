//! The connection actor: one instance per live viewer connection.
//!
//! The actor interprets the subscribe/unsubscribe control protocol,
//! supervises the forwarding tasks that copy broadcast batches toward
//! this connection, and funnels every outbound frame through one ordered
//! queue.  The transport shell around it decodes inbound frames, drives
//! one forwarding task per live subscription, drains the outbound queue
//! in order, and reports transport termination; every decision about
//! state lives here.
//!
//! Policy notes, fixed and documented: a repeat subscribe *replaces* the
//! prior forwarding task (cancelling it and starting a fresh one at the
//! bus head), and a forwarding task that lags out of the bus's retained
//! window *terminates*, so the viewer resubscribes for a fresh snapshot
//! rather than guessing at the gap.

use vstd::prelude::*;

use crate::bus::{Bus, Cursor, RecvOutcome};
use crate::protocol::{Channel, InboundMsg, OutboundMsg, OutboundMsgView};
use crate::registry::Registry;

verus! {

/// Lifecycle of a connection actor.
#[derive(Clone, Copy, PartialEq, Eq, Structural, Debug)]
pub enum ActorPhase {
    /// Inbound and outbound tasks running; subscriptions may come and go.
    Active,
    /// A transport task terminated; forwarding tasks are being cancelled.
    Closing,
    /// Terminal: nothing is live, nothing is enqueued any more.
    Closed,
}

/// The state of one forwarding task, as the actor tracks it: which
/// channel it serves, where its bus cursor stands, and whether it is
/// still running.  A task that is not live holds no bus cursor.
#[derive(Clone, Copy, PartialEq, Eq, Structural, Debug)]
pub struct Forwarder {
    pub task: u64,
    pub channel: Channel,
    pub cursor: Cursor,
    pub live: bool,
}

/// What the shell must do after one control message: spawn a forwarding
/// task, cancel one, or both (a replacing subscribe).
#[derive(Clone, Copy, PartialEq, Eq, Structural, Debug)]
pub struct ControlEffect {
    pub spawned: Option<u64>,
    pub cancelled: Option<u64>,
}

/// What one forwarding-task step did.
#[derive(Clone, Copy, PartialEq, Eq, Structural, Debug)]
pub enum StepEvent {
    /// A batch was queued outbound.
    Delivered,
    /// The task fell out of the retained window and terminated.
    Lagged,
    /// Nothing published past the cursor yet.
    Idle,
}

/// `f`, cancelled: same task, same channel, no longer live.
pub open spec fn mark_dead(f: Forwarder) -> Forwarder {
    Forwarder { task: f.task, channel: f.channel, cursor: f.cursor, live: false }
}

/// Every forwarder of `ch` cancelled; the rest untouched.
pub open spec fn cancel_channel(fs: Seq<Forwarder>, ch: Channel) -> Seq<Forwarder> {
    Seq::new(fs.len(), |i: int| if fs[i].channel == ch { mark_dead(fs[i]) } else { fs[i] })
}

/// Every forwarder cancelled.
pub open spec fn cancel_all(fs: Seq<Forwarder>) -> Seq<Forwarder> {
    Seq::new(fs.len(), |i: int| mark_dead(fs[i]))
}

/// The `listings` frames for every batch of `hist` from index `from` on,
/// in publication order.
pub open spec fn listings_tail(
    hist: Seq<Seq<crate::listing::ListingView>>,
    from: int,
) -> Seq<OutboundMsgView> {
    Seq::new(
        (hist.len() - from) as nat,
        |j: int| OutboundMsgView::Listings { listings: hist[from + j] },
    )
}

/// The per-connection actor state.
pub struct Actor {
    pub phase: ActorPhase,
    pub registry: Registry,
    /// The single ordered outbound queue; the encode task drains it
    /// strictly in arrival order.
    pub outbound: Vec<OutboundMsg>,
    /// Every forwarding task this actor ever spawned, live or not.
    pub forwarders: Vec<Forwarder>,
    /// Source of fresh task identifiers.
    pub next_task: u64,
}

impl Actor {
    /// The bookkeeping invariant: task identifiers are unique and below
    /// the counter; every live forwarding task is the one its channel's
    /// registry entry names; and every registry entry names a task this
    /// actor spawned for that channel.  Together these give at most one
    /// live forwarding task per channel.
    pub open spec fn wf(self) -> bool {
        &&& forall|i: int, j: int|
            0 <= i < j < self.forwarders@.len() ==> self.forwarders@[i].task
                != self.forwarders@[j].task
        &&& forall|i: int|
            0 <= i < self.forwarders@.len() ==> (#[trigger] self.forwarders@[i]).task
                < self.next_task
        &&& forall|i: int|
            0 <= i < self.forwarders@.len() && (#[trigger] self.forwarders@[i]).live
                ==> self.registry.lookup(self.forwarders@[i].channel) == Some(
                self.forwarders@[i].task,
            )
        &&& forall|ch: Channel|
            (#[trigger] self.registry.lookup(ch)) matches Some(t) ==> exists|i: int|
                0 <= i < self.forwarders@.len() && (#[trigger] self.forwarders@[i]).task == t
                    && self.forwarders@[i].channel == ch
    }

    /// Every live cursor stays within `bus`'s publication history.  The
    /// bus only grows, so this survives publications.
    pub open spec fn cursors_ok(self, bus: Bus) -> bool {
        forall|i: int|
            0 <= i < self.forwarders@.len() && (#[trigger] self.forwarders@[i]).live
                ==> self.forwarders@[i].cursor.next <= bus@.len()
    }

    /// Cursors stay in range while the bus grows: a publication never
    /// invalidates anyone's position.
    pub proof fn lemma_cursors_ok_after_publish(self, pre: Bus, post: Bus)
        requires
            self.cursors_ok(pre),
            pre@.len() <= post@.len(),
        ensures
            self.cursors_ok(post),
    {
    }

    /// At most one forwarding task per channel is live.
    pub proof fn lemma_at_most_one_live(self, ch: Channel)
        requires
            self.wf(),
        ensures
            forall|i: int, j: int|
                0 <= i < self.forwarders@.len() && 0 <= j < self.forwarders@.len()
                    && (#[trigger] self.forwarders@[i]).live && (#[trigger] self.forwarders@[j]).live
                    && self.forwarders@[i].channel == ch && self.forwarders@[j].channel == ch ==> i
                    == j,
    {
    }

    /// A fresh actor for one just-upgraded connection.
    pub fn new() -> (a: Actor)
        ensures
            a.wf(),
            a.phase is Active,
            a.outbound@ == Seq::<OutboundMsg>::empty(),
            a.forwarders@ == Seq::<Forwarder>::empty(),
            a.next_task == 0,
            forall|ch: Channel| a.registry.lookup(ch) is None,
            forall|b: Bus| a.cursors_ok(b),
    {
        let a = Actor {
            phase: ActorPhase::Active,
            registry: Registry::new(),
            outbound: Vec::new(),
            forwarders: Vec::new(),
            next_task: 0,
        };
        proof {
            assert(a.outbound@ =~= Seq::<OutboundMsg>::empty());
            assert(a.forwarders@ =~= Seq::<Forwarder>::empty());
        }
        a
    }

    /// Cancels the forwarder registered as `task`, if the actor spawned
    /// one by that identifier.
    fn cancel_task(&mut self, task: u64)
        ensures
            final(self).forwarders@ == Seq::new(
                old(self).forwarders@.len(),
                |i: int|
                    if old(self).forwarders@[i].task == task {
                        mark_dead(old(self).forwarders@[i])
                    } else {
                        old(self).forwarders@[i]
                    },
            ),
            final(self).phase == old(self).phase,
            final(self).registry == old(self).registry,
            final(self).outbound == old(self).outbound,
            final(self).next_task == old(self).next_task,
    {
        let ghost target = Seq::new(
            old(self).forwarders@.len(),
            |i: int|
                if old(self).forwarders@[i].task == task {
                    mark_dead(old(self).forwarders@[i])
                } else {
                    old(self).forwarders@[i]
                },
        );
        let mut i: usize = 0;
        while i < self.forwarders.len()
            invariant
                i <= self.forwarders@.len(),
                self.forwarders@.len() == old(self).forwarders@.len(),
                forall|j: int| 0 <= j < i ==> self.forwarders@[j] == target[j],
                forall|j: int|
                    i <= j < self.forwarders@.len() ==> self.forwarders@[j] == old(
                        self,
                    ).forwarders@[j],
                self.phase == old(self).phase,
                self.registry == old(self).registry,
                self.outbound == old(self).outbound,
                self.next_task == old(self).next_task,
                target == Seq::new(
                    old(self).forwarders@.len(),
                    |i: int|
                        if old(self).forwarders@[i].task == task {
                            mark_dead(old(self).forwarders@[i])
                        } else {
                            old(self).forwarders@[i]
                        },
                ),
            decreases self.forwarders@.len() - i,
        {
            if self.forwarders[i].task == task {
                let f = self.forwarders[i];
                self.forwarders.set(
                    i,
                    Forwarder { task: f.task, channel: f.channel, cursor: f.cursor, live: false },
                );
            }
            i = i + 1;
        }
        proof {
            assert(final(self).forwarders@ =~= target);
        }
    }

    /// What a subscribe for `ch` does: any prior forwarding task of the
    /// channel is cancelled, one fresh task is spawned with its cursor at
    /// the bus head, the registry names exactly that task, and the
    /// `subscribed` acknowledgment is queued — idempotently, whether or
    /// not the channel was already subscribed.  Afterwards the channel
    /// has exactly one live forwarding task: the new one.
    pub open spec fn subscribe_effect(
        pre: Actor,
        post: Actor,
        bus: Bus,
        ch: Channel,
        eff: ControlEffect,
    ) -> bool {
        &&& post.forwarders@ == cancel_channel(pre.forwarders@, ch).push(
            Forwarder {
                task: pre.next_task,
                channel: ch,
                cursor: Cursor { next: bus@.len() as usize },
                live: true,
            },
        )
        &&& post.outbound.deep_view() == pre.outbound.deep_view().push(
            OutboundMsgView::Subscribed { channel: ch },
        )
        &&& post.registry.lookup(ch) == Some(pre.next_task)
        &&& forall|c: Channel| c != ch ==> post.registry.lookup(c) == pre.registry.lookup(c)
        &&& post.next_task == pre.next_task + 1
        &&& post.phase == pre.phase
        &&& eff.spawned == Some(pre.next_task)
        &&& eff.cancelled == pre.registry.lookup(ch)
        &&& post.forwarders@.last().live && post.forwarders@.last().channel == ch
        &&& forall|i: int|
            0 <= i < post.forwarders@.len() - 1 && (#[trigger] post.forwarders@[i]).channel == ch
                ==> !post.forwarders@[i].live
    }

    /// What an unsubscribe for `ch` does: the channel's forwarding task
    /// (if any) is cancelled and deregistered, no task of the channel
    /// stays live, and the `unsubscribed` acknowledgment is queued even
    /// when there was nothing to cancel.
    pub open spec fn unsubscribe_effect(
        pre: Actor,
        post: Actor,
        ch: Channel,
        eff: ControlEffect,
    ) -> bool {
        &&& post.forwarders@ == cancel_channel(pre.forwarders@, ch)
        &&& post.outbound.deep_view() == pre.outbound.deep_view().push(
            OutboundMsgView::Unsubscribed { channel: ch },
        )
        &&& post.registry.lookup(ch) is None
        &&& forall|c: Channel| c != ch ==> post.registry.lookup(c) == pre.registry.lookup(c)
        &&& post.next_task == pre.next_task
        &&& post.phase == pre.phase
        &&& eff.spawned is None
        &&& eff.cancelled == pre.registry.lookup(ch)
        &&& forall|i: int|
            0 <= i < post.forwarders@.len() && (#[trigger] post.forwarders@[i]).channel == ch
                ==> !post.forwarders@[i].live
    }

    /// What one decoded control message does to the actor.
    pub open spec fn control_effect(
        pre: Actor,
        post: Actor,
        bus: Bus,
        msg: InboundMsg,
        eff: ControlEffect,
    ) -> bool {
        match msg {
            InboundMsg::Subscribe { channel } => Self::subscribe_effect(
                pre,
                post,
                bus,
                channel,
                eff,
            ),
            InboundMsg::Unsubscribe { channel } => Self::unsubscribe_effect(pre, post, channel, eff),
        }
    }

    /// Interprets one decoded control message.  Only the owning task
    /// calls this, so the registry never needs sharing.
    pub fn handle_msg(&mut self, bus: &Bus, msg: InboundMsg) -> (eff: ControlEffect)
        requires
            old(self).wf(),
            old(self).phase is Active,
            old(self).cursors_ok(*bus),
            old(self).next_task < u64::MAX,
        ensures
            final(self).wf(),
            final(self).cursors_ok(*bus),
            Self::control_effect(*old(self), *final(self), *bus, msg, eff),
    {
        match msg {
            InboundMsg::Subscribe { channel } => {
                let task = self.next_task;
                self.next_task = self.next_task + 1;
                let prior = self.registry.insert(channel, task);
                let cancelled = match prior {
                    Some(t) => {
                        self.cancel_task(t);
                        Some(t)
                    }
                    None => None,
                };
                let cursor = bus.subscribe();
                proof {
                    let fs = old(self).forwarders@;
                    let mid = self.forwarders@;
                    old(self).lemma_at_most_one_live(channel);
                    assert forall|i: int|
                        0 <= i < fs.len() implies mid[i] == cancel_channel(fs, channel)[i] by {
                        if fs[i].channel == channel && fs[i].live {
                            assert(old(self).registry.lookup(channel) == Some(fs[i].task));
                        }
                    };
                    assert(mid =~= cancel_channel(fs, channel));
                }
                self.forwarders.push(Forwarder { task, channel, cursor, live: true });
                self.outbound.push(OutboundMsg::Subscribed { channel });
                let eff = ControlEffect { spawned: Some(task), cancelled };
                proof {
                    self.lemma_wf_after_subscribe(*old(self), *bus, channel);
                    assert(final(self).outbound.deep_view() =~= old(self).outbound.deep_view().push(
                        OutboundMsgView::Subscribed { channel },
                    ));
                }
                eff
            }
            InboundMsg::Unsubscribe { channel } => {
                let prior = self.registry.remove(channel);
                let cancelled = match prior {
                    Some(t) => {
                        self.cancel_task(t);
                        Some(t)
                    }
                    None => None,
                };
                let eff = ControlEffect { spawned: None, cancelled };
                proof {
                    let fs = old(self).forwarders@;
                    old(self).lemma_at_most_one_live(channel);
                    assert forall|i: int|
                        0 <= i < fs.len() implies self.forwarders@[i] == cancel_channel(
                        fs,
                        channel,
                    )[i] by {
                        if fs[i].channel == channel && fs[i].live {
                            assert(old(self).registry.lookup(channel) == Some(fs[i].task));
                        }
                    };
                    assert(self.forwarders@ =~= cancel_channel(fs, channel));
                }
                self.outbound.push(OutboundMsg::Unsubscribed { channel });
                proof {
                    self.lemma_wf_after_unsubscribe(*old(self), channel);
                    assert(final(self).outbound.deep_view() =~= old(self).outbound.deep_view().push(
                        OutboundMsgView::Unsubscribed { channel },
                    ));
                }
                eff
            }
        }
    }

    /// Interprets one raw inbound text frame.  A frame of the control
    /// grammar is handled as the message it denotes; a malformed frame
    /// only queues an `err` report — the connection stays open and
    /// nothing else moves.
    pub fn handle_frame(&mut self, bus: &Bus, frame: &Vec<u8>) -> (eff: ControlEffect)
        requires
            old(self).wf(),
            old(self).phase is Active,
            old(self).cursors_ok(*bus),
            old(self).next_task < u64::MAX,
        ensures
            final(self).wf(),
            final(self).cursors_ok(*bus),
            match crate::codec::spec_parse_frame(frame@) {
                Some(msg) => Self::control_effect(*old(self), *final(self), *bus, msg, eff),
                None => {
                    &&& final(self).outbound.deep_view() == old(self).outbound.deep_view().push(
                        OutboundMsgView::Error { message: crate::codec::decode_error_text() },
                    )
                    &&& final(self).forwarders == old(self).forwarders
                    &&& final(self).registry == old(self).registry
                    &&& final(self).phase == old(self).phase
                    &&& final(self).next_task == old(self).next_task
                    &&& eff.spawned is None && eff.cancelled is None
                },
            },
    {
        match crate::codec::parse_frame(frame) {
            Ok(msg) => self.handle_msg(bus, msg),
            Err(_) => {
                let message = crate::codec::decode_error_message();
                self.outbound.push(OutboundMsg::Error { message });
                proof {
                    assert(final(self).outbound.deep_view() =~= old(self).outbound.deep_view()
                        .push(
                        OutboundMsgView::Error { message: crate::codec::decode_error_text() },
                    ));
                }
                ControlEffect { spawned: None, cancelled: None }
            }
        }
    }

    /// One receive attempt by forwarding task `i`, which must still be
    /// live.  A delivered batch is queued outbound as one `listings`
    /// frame and the cursor moves past it, so repeated steps deliver in
    /// publication order; a lag terminates the task (its registry entry
    /// stays until the viewer resubscribes or unsubscribes); an empty bus
    /// leaves everything as it was.
    pub fn forwarder_step(&mut self, i: usize, bus: &Bus) -> (r: StepEvent)
        requires
            old(self).wf(),
            old(self).cursors_ok(*bus),
            bus.wf(),
            i < old(self).forwarders@.len(),
            old(self).forwarders@[i as int].live,
        ensures
            final(self).wf(),
            final(self).cursors_ok(*bus),
            final(self).phase == old(self).phase,
            final(self).registry == old(self).registry,
            final(self).next_task == old(self).next_task,
            ({
                let f = old(self).forwarders@[i as int];
                if bus.lagged(f.cursor.next as nat) {
                    &&& r is Lagged
                    &&& final(self).forwarders@ == old(self).forwarders@.update(
                        i as int,
                        mark_dead(f),
                    )
                    &&& final(self).outbound == old(self).outbound
                } else if f.cursor.next < bus@.len() {
                    &&& r is Delivered
                    &&& final(self).forwarders@ == old(self).forwarders@.update(
                        i as int,
                        Forwarder {
                            task: f.task,
                            channel: f.channel,
                            cursor: Cursor { next: (f.cursor.next + 1) as usize },
                            live: true,
                        },
                    )
                    &&& final(self).outbound.deep_view() == old(self).outbound.deep_view().push(
                        OutboundMsgView::Listings { listings: bus@[f.cursor.next as int] },
                    )
                } else {
                    &&& r is Idle
                    &&& final(self).forwarders@ == old(self).forwarders@
                    &&& final(self).outbound == old(self).outbound
                }
            }),
    {
        let f = self.forwarders[i];
        let mut cursor = f.cursor;
        let outcome = bus.recv(&mut cursor);
        match outcome {
            RecvOutcome::Lagged => {
                self.forwarders.set(
                    i,
                    Forwarder { task: f.task, channel: f.channel, cursor: f.cursor, live: false },
                );
                proof {
                    self.lemma_wf_after_update(*old(self), i as int);
                }
                StepEvent::Lagged
            }
            RecvOutcome::Message(msg) => {
                self.forwarders.set(
                    i,
                    Forwarder { task: f.task, channel: f.channel, cursor, live: true },
                );
                self.outbound.push(OutboundMsg::Listings { listings: msg.listings });
                proof {
                    self.lemma_wf_after_update(*old(self), i as int);
                    assert(final(self).outbound.deep_view() =~= old(self).outbound.deep_view().push(
                        OutboundMsgView::Listings {
                            listings: bus@[old(self).forwarders@[i as int].cursor.next as int],
                        },
                    ));
                }
                StepEvent::Delivered
            }
            RecvOutcome::Empty => {
                proof {
                    assert(final(self).forwarders@ =~= old(self).forwarders@);
                }
                StepEvent::Idle
            }
        }
    }

    /// Runs forwarding task `i` until it has caught up with the bus.  It
    /// must not have lagged out of the retained window; then every batch
    /// published since its cursor — and nothing else — is queued outbound
    /// by that forwarding task, in publication order, and it stays live with
    /// its cursor at the bus head.
    #[verifier::loop_isolation(false)]
    pub fn forwarder_drain(&mut self, i: usize, bus: &Bus)
        requires
            old(self).wf(),
            old(self).cursors_ok(*bus),
            bus.wf(),
            i < old(self).forwarders@.len(),
            old(self).forwarders@[i as int].live,
            !bus.lagged(old(self).forwarders@[i as int].cursor.next as nat),
        ensures
            final(self).wf(),
            final(self).cursors_ok(*bus),
            final(self).phase == old(self).phase,
            final(self).registry == old(self).registry,
            final(self).next_task == old(self).next_task,
            ({
                let f = old(self).forwarders@[i as int];
                &&& final(self).forwarders@ == old(self).forwarders@.update(
                    i as int,
                    Forwarder {
                        task: f.task,
                        channel: f.channel,
                        cursor: Cursor { next: bus@.len() as usize },
                        live: true,
                    },
                )
                &&& final(self).outbound.deep_view() == old(self).outbound.deep_view()
                    + listings_tail(bus@, f.cursor.next as int)
            }),
    {
        let ghost f0 = old(self).forwarders@[i as int];
        proof {
            assert(listings_tail(bus@, f0.cursor.next as int).take(0) =~= Seq::<
                OutboundMsgView,
            >::empty());
            assert(self.outbound.deep_view() + listings_tail(bus@, f0.cursor.next as int).take(0)
                =~= self.outbound.deep_view());
            assert(Forwarder { task: f0.task, channel: f0.channel, cursor: f0.cursor, live: true }
                == f0);
            assert(old(self).forwarders@.update(i as int, f0) =~= old(self).forwarders@);
        }
        while self.forwarders[i].cursor.next < bus.len()
            invariant
                self.wf(),
                self.cursors_ok(*bus),
                i < self.forwarders@.len(),
                self.phase == old(self).phase,
                self.registry == old(self).registry,
                self.next_task == old(self).next_task,
                ({
                    let f = self.forwarders@[i as int];
                    &&& f.live
                    &&& f0.cursor.next <= f.cursor.next <= bus@.len()
                    &&& self.forwarders@ == old(self).forwarders@.update(
                        i as int,
                        Forwarder {
                            task: f0.task,
                            channel: f0.channel,
                            cursor: f.cursor,
                            live: true,
                        },
                    )
                    &&& self.outbound.deep_view() == old(self).outbound.deep_view()
                        + listings_tail(bus@, f0.cursor.next as int).take(
                        f.cursor.next - f0.cursor.next,
                    )
                }),
            decreases bus@.len() - self.forwarders@[i as int].cursor.next,
        {
            let ghost cur = self.forwarders@[i as int].cursor.next;
            proof {
                assert(!bus.lagged(cur as nat));
            }
            let event = self.forwarder_step(i, bus);
            proof {
                let from = f0.cursor.next as int;
                let tail = listings_tail(bus@, from);
                assert(tail.take(cur + 1 - from) =~= tail.take(cur - from).push(
                    tail[cur - from],
                ));
                assert(self.outbound.deep_view() =~= old(self).outbound.deep_view()
                    + tail.take(cur + 1 - from));
                assert(self.forwarders@ =~= old(self).forwarders@.update(
                    i as int,
                    Forwarder {
                        task: f0.task,
                        channel: f0.channel,
                        cursor: self.forwarders@[i as int].cursor,
                        live: true,
                    },
                ));
            }
        }
        proof {
            let from = f0.cursor.next as int;
            assert(listings_tail(bus@, from).take(bus@.len() - from) =~= listings_tail(bus@, from));
        }
    }

    /// Tears the actor down after either transport task terminated: the
    /// actor passes through `Closing`, every forwarding task is
    /// cancelled, the registry is emptied, and the actor is `Closed`.  No
    /// forwarding task stays live — none holds a bus cursor any more —
    /// and nothing further is enqueued.  Returns the handles to cancel;
    /// cancellation is a request, not a join.
    pub fn on_transport_closed(&mut self) -> (cancelled: Vec<u64>)
        requires
            old(self).wf(),
        ensures
            final(self).wf(),
            final(self).phase is Closed,
            final(self).forwarders@ == cancel_all(old(self).forwarders@),
            forall|i: int|
                0 <= i < final(self).forwarders@.len()
                    ==> !(#[trigger] final(self).forwarders@[i]).live,
            forall|ch: Channel| final(self).registry.lookup(ch) is None,
            final(self).outbound == old(self).outbound,
            final(self).next_task == old(self).next_task,
            cancelled@ == match old(self).registry.lookup(Channel::Listings) {
                Some(t) => seq![t],
                None => Seq::<u64>::empty(),
            },
    {
        self.phase = ActorPhase::Closing;
        let cancelled = self.registry.remove_all();
        let mut i: usize = 0;
        while i < self.forwarders.len()
            invariant
                i <= self.forwarders@.len(),
                self.forwarders@.len() == old(self).forwarders@.len(),
                forall|j: int|
                    0 <= j < i ==> self.forwarders@[j] == mark_dead(old(self).forwarders@[j]),
                forall|j: int|
                    i <= j < self.forwarders@.len() ==> self.forwarders@[j] == old(
                        self,
                    ).forwarders@[j],
                forall|ch: Channel| self.registry.lookup(ch) is None,
                self.outbound == old(self).outbound,
                self.next_task == old(self).next_task,
                self.phase == ActorPhase::Closing,
            decreases self.forwarders@.len() - i,
        {
            let f = self.forwarders[i];
            self.forwarders.set(
                i,
                Forwarder { task: f.task, channel: f.channel, cursor: f.cursor, live: false },
            );
            i = i + 1;
        }
        self.phase = ActorPhase::Closed;
        proof {
            assert(final(self).forwarders@ =~= cancel_all(old(self).forwarders@));
        }
        cancelled
    }

    /// Hands the encode task the next frame to write: the head of the
    /// ordered outbound queue, or nothing when the queue is empty.
    /// Frames leave in exactly the order they were enqueued.
    pub fn pop_outbound(&mut self) -> (r: Option<OutboundMsg>)
        ensures
            final(self).phase == old(self).phase,
            final(self).registry == old(self).registry,
            final(self).forwarders == old(self).forwarders,
            final(self).next_task == old(self).next_task,
            old(self).outbound@.len() == 0 ==> r is None && final(self).outbound == old(
                self,
            ).outbound,
            old(self).outbound@.len() > 0 ==> {
                &&& r matches Some(m) && m == old(self).outbound@[0]
                &&& final(self).outbound@ == old(self).outbound@.drop_first()
            },
    {
        if self.outbound.len() == 0 {
            None
        } else {
            let m = self.outbound.remove(0);
            proof {
                assert(final(self).outbound@ =~= old(self).outbound@.drop_first());
            }
            Some(m)
        }
    }

    /// A publication after a subscribe reaches the subscriber.  The
    /// fresh forwarding task's cursor stands at the bus head, so when one
    /// batch is published next, the task has not lagged and what a drain
    /// queues for it — `listings_tail` from its cursor — is exactly that
    /// one `listings` frame.  Repeating this argument publication by
    /// publication: every batch published after the subscribe is queued
    /// outbound in publication order, until the task is cancelled by an
    /// unsubscribe, a replacing subscribe, teardown, or a lag.
    pub proof fn lemma_publication_reaches_subscriber(
        pre: Actor,
        post: Actor,
        bus0: Bus,
        bus1: Bus,
        ch: Channel,
        eff: ControlEffect,
        batch: Seq<crate::listing::ListingView>,
    )
        requires
            Actor::subscribe_effect(pre, post, bus0, ch, eff),
            bus1.wf(),
            bus0@.len() < usize::MAX,
            bus1@ == bus0@.push(batch),
        ensures
            ({
                let f = post.forwarders@.last();
                &&& !bus1.lagged(f.cursor.next as nat)
                &&& listings_tail(bus1@, f.cursor.next as int) == seq![
                    OutboundMsgView::Listings { listings: batch },
                ]
            }),
    {
        let f = post.forwarders@.last();
        assert(f.cursor.next == bus0@.len());
        assert(bus1@[f.cursor.next as int] == batch);
        assert(listings_tail(bus1@, f.cursor.next as int) =~= seq![
            OutboundMsgView::Listings { listings: batch },
        ]);
    }

    /// An unsubscribed channel goes silent at once.  A bus publication
    /// right after the unsubscribe leaves the actor untouched — the bus
    /// is a separate value — and the only way a `listings` frame reaches
    /// the outbound queue is a `forwarder_step`, whose precondition
    /// demands a live forwarding task; the unsubscribe left the channel
    /// none.  So no further `listings` frame of this channel is enqueued
    /// until a fresh subscribe spawns a new task.
    pub proof fn lemma_unsubscribed_channel_is_silent(
        pre: Actor,
        post: Actor,
        ch: Channel,
        eff: ControlEffect,
    )
        requires
            Actor::unsubscribe_effect(pre, post, ch, eff),
        ensures
            forall|i: int|
                0 <= i < post.forwarders@.len() && (#[trigger] post.forwarders@[i]).channel == ch
                    ==> !post.forwarders@[i].live,
    {
    }

    /// An update that keeps task, channel and (when still live) the
    /// registry entry of the slot intact preserves the bookkeeping.
    proof fn lemma_wf_after_update(self, pre: Actor, i: int)
        requires
            pre.wf(),
            0 <= i < pre.forwarders@.len(),
            self.forwarders@.len() == pre.forwarders@.len(),
            self.registry == pre.registry,
            self.next_task == pre.next_task,
            forall|j: int| 0 <= j < pre.forwarders@.len() && j != i ==> self.forwarders@[j] == pre.forwarders@[j],
            self.forwarders@[i].task == pre.forwarders@[i].task,
            self.forwarders@[i].channel == pre.forwarders@[i].channel,
            self.forwarders@[i].live ==> pre.forwarders@[i].live,
        ensures
            self.wf(),
    {
        let fs = pre.forwarders@;
        let nfs = self.forwarders@;
        assert forall|c: Channel| (#[trigger] self.registry.lookup(c)) is Some
            implies exists|j: int|
                0 <= j < nfs.len() && (#[trigger] nfs[j]).task == self.registry.lookup(c)->0
                    && nfs[j].channel == c by {
            let t = self.registry.lookup(c)->0;
            assert(pre.registry.lookup(c) == Some(t));
            let j = choose|j: int|
                0 <= j < fs.len() && (#[trigger] fs[j]).task == t && fs[j].channel == c;
            assert(nfs[j].task == t && nfs[j].channel == c);
        };
    }

    /// Bookkeeping survives a replacing subscribe.
    proof fn lemma_wf_after_subscribe(self, pre: Actor, bus: Bus, ch: Channel)
        requires
            pre.wf(),
            pre.cursors_ok(bus),
            pre.next_task < u64::MAX,
            self.forwarders@ == cancel_channel(pre.forwarders@, ch).push(
                Forwarder {
                    task: pre.next_task,
                    channel: ch,
                    cursor: Cursor { next: bus@.len() as usize },
                    live: true,
                },
            ),
            self.next_task == pre.next_task + 1,
            self.registry.lookup(ch) == Some(pre.next_task),
            forall|c: Channel| c != ch ==> self.registry.lookup(c) == pre.registry.lookup(c),
        ensures
            self.wf(),
            self.cursors_ok(bus),
    {
        let fs = pre.forwarders@;
        let nfs = self.forwarders@;
        assert(forall|i: int| 0 <= i < fs.len() ==> (#[trigger] nfs[i]).task == fs[i].task
            && nfs[i].channel == fs[i].channel && nfs[i].cursor == fs[i].cursor
            && (nfs[i].live ==> fs[i].live && fs[i].channel != ch));
        assert forall|c: Channel| (#[trigger] self.registry.lookup(c)) is Some
            implies exists|i: int|
                0 <= i < nfs.len() && (#[trigger] nfs[i]).task == self.registry.lookup(c)->0
                    && nfs[i].channel == c by {
            if c == ch {
                assert(nfs[fs.len() as int].task == pre.next_task && nfs[fs.len() as int].channel
                    == ch);
            } else {
                let t = self.registry.lookup(c)->0;
                assert(pre.registry.lookup(c) == Some(t));
                let i = choose|i: int|
                    0 <= i < fs.len() && (#[trigger] fs[i]).task == t && fs[i].channel == c;
                assert(nfs[i].task == t && nfs[i].channel == c);
            }
        };
    }

    /// Bookkeeping survives an unsubscribe.
    proof fn lemma_wf_after_unsubscribe(self, pre: Actor, ch: Channel)
        requires
            pre.wf(),
            self.forwarders@ == cancel_channel(pre.forwarders@, ch),
            self.next_task == pre.next_task,
            self.registry.lookup(ch) is None,
            forall|c: Channel| c != ch ==> self.registry.lookup(c) == pre.registry.lookup(c),
        ensures
            self.wf(),
    {
        let fs = pre.forwarders@;
        let nfs = self.forwarders@;
        assert(forall|i: int| 0 <= i < fs.len() ==> (#[trigger] nfs[i]).task == fs[i].task
            && nfs[i].channel == fs[i].channel
            && (nfs[i].live ==> fs[i].live && fs[i].channel != ch));
        assert forall|c: Channel| (#[trigger] self.registry.lookup(c)) is Some
            implies exists|i: int|
                0 <= i < nfs.len() && (#[trigger] nfs[i]).task == self.registry.lookup(c)->0
                    && nfs[i].channel == c by {
            let t = self.registry.lookup(c)->0;
            assert(pre.registry.lookup(c) == Some(t));
            let i = choose|i: int|
                0 <= i < fs.len() && (#[trigger] fs[i]).task == t && fs[i].channel == c;
            assert(nfs[i].task == t && nfs[i].channel == c);
        };
    }
}

} // verus!
