//! The broadcast channel: a bounded multi-producer fan-out queue.
//!
//! A `Channel` keeps a fixed-capacity window of the most recently
//! published messages together with a monotonically increasing sequence
//! position. Each `Subscription` reads the window independently at its
//! own pace. A subscription that falls behind the window is told how
//! many messages it missed and resumes at the oldest retained message;
//! it never sees a message twice and never sees messages out of publish
//! order.

use vstd::prelude::*;

verus! {

/// The error a publish reports when no subscription is live. The single
/// call site that relays client lines discards it: broadcasting into an
/// empty room is expected, not a fault.
#[derive(Clone, Copy, Debug, PartialEq, Eq)]
pub enum PublishError {
    NoSubscribers,
}

/// What one receive attempt on a subscription yields.
#[derive(Debug, PartialEq)]
pub enum RecvOutcome {
    /// The next message in publish order.
    Message(String),
    /// The subscription fell behind the retained window and missed this
    /// many messages; it has been moved to the oldest retained one.
    Lagged(usize),
    /// The publishing side has shut down and everything was consumed.
    Closed,
    /// Nothing new yet; a caller driving real sockets would suspend here.
    Pending,
}

/// The abstract state of a channel: the full publish history, the start
/// of the retained window, and the bookkeeping counters.
pub ghost struct ChannelView {
    /// Every message ever accepted, in publish order.
    pub log: Seq<Seq<char>>,
    /// Index into `log` of the oldest message still retained.
    pub first: int,
    /// The configured bound on the retained window.
    pub capacity: int,
    /// The number of live subscriptions.
    pub receivers: int,
    /// Whether the publishing side has shut down.
    pub closed: bool,
}

/// A bounded broadcast queue. Publishing appends to the history; once
/// the retained window is full, the oldest retained message is dropped,
/// which is the only form of backpressure: publishers never block.
pub struct Channel {
    /// The retained window, oldest first.
    pub queue: Vec<String>,
    /// Sequence position of `queue[0]` in the full history.
    pub first_seq: usize,
    /// Bound on `queue.len()`.
    pub capacity: usize,
    /// Number of live subscriptions.
    pub receivers: usize,
    /// Whether the publishing side has shut down.
    pub closed: bool,
    /// The full publish history, for specification only.
    pub hist: Ghost<Seq<Seq<char>>>,
}

impl View for Channel {
    type V = ChannelView;

    open spec fn view(&self) -> ChannelView {
        ChannelView {
            log: self.hist@,
            first: self.first_seq as int,
            capacity: self.capacity as int,
            receivers: self.receivers as int,
            closed: self.closed,
        }
    }
}

impl Channel {
    /// The retained window is the tail of the history, holds at most
    /// `capacity` messages, and the sequence positions fit the machine.
    pub open spec fn inv(&self) -> bool {
        &&& 1 <= self.capacity
        &&& self.queue.len() <= self.capacity
        &&& self.first_seq + self.queue.len() <= usize::MAX
        &&& self.hist@.len() == self.first_seq + self.queue.len()
        &&& self.queue.deep_view() == self.hist@.subrange(self.first_seq as int, self.hist@.len() as int)
    }

    /// Create an empty open channel retaining at most `capacity`
    /// messages for slow subscriptions.
    pub fn new(capacity: usize) -> (c: Channel)
        requires
            1 <= capacity,
        ensures
            c.inv(),
            c@.log == Seq::<Seq<char>>::empty(),
            c@.first == 0,
            c@.capacity == capacity as int,
            c@.receivers == 0,
            !c@.closed,
    {
        let c = Channel {
            queue: Vec::new(),
            first_seq: 0,
            capacity,
            receivers: 0,
            closed: false,
            hist: Ghost(Seq::empty()),
        };
        proof {
            assert(c.queue.deep_view() =~= c.hist@.subrange(0, 0));
        }
        c
    }

    /// Append `msg` to the history, dropping the oldest retained message
    /// if the window is full. With no live subscription the message is
    /// refused and nothing changes; this is not a failure of the channel.
    pub fn publish(&mut self, msg: String) -> (r: Result<usize, PublishError>)
        requires
            old(self).inv(),
            !old(self)@.closed,
            old(self)@.log.len() < usize::MAX,
        ensures
            final(self).inv(),
            final(self)@.capacity == old(self)@.capacity,
            final(self)@.receivers == old(self)@.receivers,
            final(self)@.closed == old(self)@.closed,
            r is Ok <==> old(self)@.receivers > 0,
            r matches Ok(n) ==> n as int == old(self)@.receivers,
            r is Err ==> r == Err::<usize, PublishError>(PublishError::NoSubscribers)
                && final(self)@ == old(self)@,
            r is Ok ==> final(self)@.log == old(self)@.log.push(msg@),
            r is Ok ==> final(self)@.first == (
                if old(self)@.log.len() - old(self)@.first == old(self)@.capacity {
                    old(self)@.first + 1
                } else {
                    old(self)@.first
                }
            ),
    {
        if self.receivers == 0 {
            return Err(PublishError::NoSubscribers);
        }
        if self.queue.len() == self.capacity {
            self.queue.remove(0);
            self.first_seq = self.first_seq + 1;
            proof {
                old(self).queue@.remove_ensures(0);
            }
        }
        self.queue.push(msg);
        proof {
            self.hist@ = self.hist@.push(msg@);
            let pre = *old(self);
            let first = self.first_seq as int;
            let len = self.hist@.len() as int;
            assert forall|i: int| 0 <= i < self.queue.deep_view().len() implies
                self.queue.deep_view()[i] == self.hist@.subrange(first, len)[i] by {
                if i < self.queue@.len() - 1 {
                    assert(self.queue@[i] == pre.queue@[first - pre.first_seq + i]);
                    assert(pre.queue.deep_view()[first - pre.first_seq + i]
                        == pre.hist@.subrange(pre.first_seq as int, pre.hist@.len() as int)[
                        first - pre.first_seq + i]);
                } else {
                    assert(self.queue@[i] == msg);
                }
            }
            assert(self.queue.deep_view() =~= self.hist@.subrange(first, len));
        }
        Ok(self.receivers)
    }

    /// Shut the publishing side down. Subscriptions drain what is
    /// retained and then observe `Closed`.
    pub fn close(&mut self)
        requires
            old(self).inv(),
        ensures
            final(self).inv(),
            final(self)@ == (ChannelView { closed: true, ..old(self)@ }),
    {
        self.closed = true;
    }

    /// Create a subscription bound to the current sequence position: it
    /// will observe exactly the messages published from now on, in
    /// publish order, unless it falls behind the retained window.
    pub fn subscribe(&mut self) -> (s: Subscription)
        requires
            old(self).inv(),
            old(self)@.receivers < usize::MAX,
        ensures
            final(self).inv(),
            final(self)@ == (ChannelView { receivers: old(self)@.receivers + 1, ..old(self)@ }),
            s.wf(*final(self)),
            s@.pos == old(self)@.log.len(),
            s@.start == old(self)@.log.len(),
            s@.seen == Seq::<Seq<char>>::empty(),
            s@.seen_at == Seq::<int>::empty(),
    {
        self.receivers = self.receivers + 1;
        Subscription {
            pos: self.first_seq + self.queue.len(),
            start: Ghost((self.first_seq + self.queue.len()) as nat),
            seen: Ghost(Seq::empty()),
            seen_at: Ghost(Seq::empty()),
        }
    }

    /// Drop a subscription. Once the count reaches zero, publishing
    /// reports `NoSubscribers` until someone subscribes again.
    pub fn unsubscribe(&mut self, s: Subscription)
        requires
            old(self).inv(),
            old(self)@.receivers >= 1,
        ensures
            final(self).inv(),
            final(self)@ == (ChannelView { receivers: old(self)@.receivers - 1, ..old(self)@ }),
    {
        self.receivers = self.receivers - 1;
    }
}

/// The abstract state of a subscription: its read position in the
/// channel history, where it subscribed, and what it has been handed so
/// far (with the history index of each delivery).
pub ghost struct SubscriptionView {
    /// The next history index this subscription will try to read.
    pub pos: int,
    /// The history index at which the subscription was created.
    pub start: int,
    /// Every message delivered to this subscription, in delivery order.
    pub seen: Seq<Seq<char>>,
    /// The history index each delivered message came from.
    pub seen_at: Seq<int>,
}

/// One independent reader of a `Channel`. It advances through the
/// channel history at its own pace; the channel itself is never changed
/// by a receive.
pub struct Subscription {
    /// The next history position to read.
    pub pos: usize,
    /// The history position at subscribe time, for specification only.
    pub start: Ghost<nat>,
    /// Delivered messages, for specification only.
    pub seen: Ghost<Seq<Seq<char>>>,
    /// History index of each delivery, for specification only.
    pub seen_at: Ghost<Seq<int>>,
}

impl View for Subscription {
    type V = SubscriptionView;

    open spec fn view(&self) -> SubscriptionView {
        SubscriptionView {
            pos: self.pos as int,
            start: self.start@ as int,
            seen: self.seen@,
            seen_at: self.seen_at@,
        }
    }
}

impl Subscription {
    /// Well-formedness against the channel it subscribes to: the read
    /// position lies within the history, every delivery so far came
    /// verbatim from the history between the subscribe point and the
    /// read position, delivery indices grow strictly (no duplicates, no
    /// reordering), and while the subscription has never lagged they are
    /// exactly consecutive.
    pub open spec fn wf(&self, ch: Channel) -> bool {
        &&& 0 <= self@.start <= self@.pos <= ch@.log.len()
        &&& self@.seen.len() == self@.seen_at.len()
        &&& self@.seen.len() <= self@.pos - self@.start
        &&& forall|i: int| 0 <= i < self@.seen.len()
            ==> self@.start <= #[trigger] self@.seen_at[i] < self@.pos
        &&& forall|i: int| 0 <= i < self@.seen.len()
            ==> #[trigger] self@.seen[i] == ch@.log[self@.seen_at[i]]
        &&& forall|i: int, j: int|
            0 <= i < j < self@.seen_at.len()
                ==> #[trigger] self@.seen_at[i] < #[trigger] self@.seen_at[j]
        &&& (self.caught_up() ==> forall|i: int|
            0 <= i < self@.seen.len() ==> #[trigger] self@.seen_at[i] == self@.start + i)
    }

    /// Holds while the subscription has never lagged: every position
    /// between the subscribe point and the read position was delivered.
    pub open spec fn caught_up(&self) -> bool {
        self@.seen.len() == self@.pos - self@.start
    }

    /// One receive attempt. Delivers the message at the read position if
    /// it is still retained; repositions with a missed-message count if
    /// the window has moved past it; reports `Closed` or `Pending` when
    /// fully drained, depending on whether the publishing side is gone.
    pub fn receive(&mut self, ch: &Channel) -> (r: RecvOutcome)
        requires
            ch.inv(),
            old(self).wf(*ch),
        ensures
            final(self).wf(*ch),
            final(self)@.start == old(self)@.start,
            match r {
                RecvOutcome::Message(m) => {
                    &&& ch@.first <= old(self)@.pos < ch@.log.len()
                    &&& m@ == ch@.log[old(self)@.pos]
                    &&& final(self)@.pos == old(self)@.pos + 1
                    &&& final(self)@.seen == old(self)@.seen.push(m@)
                    &&& final(self)@.seen_at == old(self)@.seen_at.push(old(self)@.pos)
                },
                RecvOutcome::Lagged(n) => {
                    &&& old(self)@.pos < ch@.first
                    &&& n as int == ch@.first - old(self)@.pos
                    &&& n >= 1
                    &&& final(self)@.pos == ch@.first
                    &&& final(self)@.seen == old(self)@.seen
                    &&& final(self)@.seen_at == old(self)@.seen_at
                    &&& !final(self).caught_up()
                },
                RecvOutcome::Closed => {
                    &&& ch@.closed
                    &&& old(self)@.pos == ch@.log.len()
                    &&& *final(self) == *old(self)
                },
                RecvOutcome::Pending => {
                    &&& !ch@.closed
                    &&& old(self)@.pos == ch@.log.len()
                    &&& *final(self) == *old(self)
                },
            },
    {
        if self.pos < ch.first_seq {
            let missed = ch.first_seq - self.pos;
            self.pos = ch.first_seq;
            RecvOutcome::Lagged(missed)
        } else if self.pos < ch.first_seq + ch.queue.len() {
            let idx = self.pos - ch.first_seq;
            let msg = ch.queue[idx].clone();
            proof {
                assert(ch.queue.deep_view()[idx as int] == ch.queue@[idx as int]@);
                assert(ch.queue.deep_view()[idx as int]
                    == ch.hist@.subrange(ch.first_seq as int, ch.hist@.len() as int)[idx as int]);
                self.seen@ = self.seen@.push(msg@);
                self.seen_at@ = self.seen_at@.push(self.pos as int);
            }
            self.pos = self.pos + 1;
            RecvOutcome::Message(msg)
        } else if ch.closed {
            RecvOutcome::Closed
        } else {
            RecvOutcome::Pending
        }
    }
}

/// A subscription that has never lagged has been handed exactly the
/// messages published since it subscribed, each verbatim and in publish
/// order: what one client sends, an attentive subscriber receives in
/// the order it was sent.
pub proof fn lemma_caught_up_sees_everything(s: Subscription, ch: Channel)
    requires
        ch.inv(),
        s.wf(ch),
        s.caught_up(),
    ensures
        s@.seen == ch@.log.subrange(s@.start, s@.pos),
{
    assert(s@.seen =~= ch@.log.subrange(s@.start, s@.pos));
}

/// While a subscription keeps up, any burst of published messages is
/// handed to it exactly and in publish order: what it has seen since
/// any position of the history it had already reached is precisely the
/// history from that position on. A publisher's lines reach every
/// attentive subscriber verbatim, never reordered relative to the
/// order they were published in.
pub proof fn lemma_burst_delivered(s: Subscription, ch: Channel, from: int)
    requires
        ch.inv(),
        s.wf(ch),
        s.caught_up(),
        s@.start <= from <= s@.pos,
    ensures
        s@.seen.skip(from - s@.start) == ch@.log.subrange(from, s@.pos),
{
    lemma_caught_up_sees_everything(s, ch);
    assert(s@.seen.skip(from - s@.start) =~= ch@.log.subrange(from, s@.pos));
}

/// Deliveries never repeat or reorder: each message handed to a
/// subscription comes from a strictly later point of the publish
/// history than every message handed to it before, even across lag
/// gaps.
pub proof fn lemma_no_duplicate_delivery(s: Subscription, ch: Channel, i: int, j: int)
    requires
        ch.inv(),
        s.wf(ch),
        0 <= i < j < s@.seen_at.len(),
    ensures
        s@.seen_at[i] < s@.seen_at[j],
        s@.seen[i] == ch@.log[s@.seen_at[i]],
        s@.seen[j] == ch@.log[s@.seen_at[j]],
{
}

} // verus!
