//! The fan-out channel: a bounded, lossy, multi-subscriber broadcast of state
//! updates.  Capacity is fixed; a subscriber that falls more than the
//! capacity behind loses the oldest unread messages and is told so, rather
//! than blocking the producers or being disconnected.

use vstd::prelude::*;
use crate::store::{UavState, UavStateV};

verus! {

/// The channel: every message ever sent gets a sequence number; the buffer
/// retains the most recent ones, `start` being the sequence number of the
/// oldest retained message.
pub struct FanoutChannel {
    pub cap: usize,
    pub start: u64,
    pub buf: Vec<UavState>,
}

#[verifier::ext_equal]
pub struct FanoutChannelV {
    pub cap: nat,
    pub start: nat,
    pub buf: Seq<UavStateV>,
}

impl View for FanoutChannel {
    type V = FanoutChannelV;

    open spec fn view(&self) -> FanoutChannelV {
        FanoutChannelV {
            cap: self.cap as nat,
            start: self.start as nat,
            buf: self.buf@.map_values(|u: UavState| u@),
        }
    }
}

/// One subscriber's read cursor: the sequence number of the next message it
/// wants.
pub struct FanoutReceiver {
    pub next: u64,
}

/// What one read returns: nothing unread yet, a lag notice carrying the
/// number of lost messages, or the next message.
pub enum RecvOutcome {
    Empty,
    Lagged(u64),
    Msg(UavState),
}

#[verifier::ext_equal]
pub enum RecvOutcomeV {
    Empty,
    Lagged(nat),
    Msg(UavStateV),
}

impl View for RecvOutcome {
    type V = RecvOutcomeV;

    open spec fn view(&self) -> RecvOutcomeV {
        match self {
            RecvOutcome::Empty => RecvOutcomeV::Empty,
            RecvOutcome::Lagged(n) => RecvOutcomeV::Lagged(*n as nat),
            RecvOutcome::Msg(u) => RecvOutcomeV::Msg(u@),
        }
    }
}

pub open spec fn chan_wf(c: FanoutChannelV) -> bool {
    &&& c.cap >= 1
    &&& c.buf.len() <= c.cap
    &&& c.start + c.buf.len() <= u64::MAX
}

/// Sequence number one past the newest message.
pub open spec fn chan_end(c: FanoutChannelV) -> nat {
    (c.start + c.buf.len()) as nat
}

/// Sending appends; at capacity the oldest retained message is dropped.
pub open spec fn send_spec(c: FanoutChannelV, m: UavStateV) -> FanoutChannelV {
    if c.buf.len() >= c.cap {
        FanoutChannelV { start: (c.start + 1) as nat, buf: c.buf.drop_first().push(m), ..c }
    } else {
        FanoutChannelV { buf: c.buf.push(m), ..c }
    }
}

/// Reading at a cursor: a cursor behind the oldest retained message is moved
/// up to it and told how much was lost; a cursor at the end finds nothing;
/// otherwise the message under the cursor is delivered and the cursor moves
/// on.
pub open spec fn recv_spec(c: FanoutChannelV, next: nat) -> (RecvOutcomeV, nat) {
    if next < c.start {
        (RecvOutcomeV::Lagged((c.start - next) as nat), c.start)
    } else if next >= chan_end(c) {
        (RecvOutcomeV::Empty, next)
    } else {
        (RecvOutcomeV::Msg(c.buf[next - c.start]), (next + 1) as nat)
    }
}

impl FanoutChannel {
    pub fn new(cap: usize) -> (r: FanoutChannel)
        requires
            cap >= 1,
        ensures
            r@.cap == cap as nat,
            r@.start == 0,
            r@.buf =~= Seq::<UavStateV>::empty(),
            chan_wf(r@),
    {
        FanoutChannel { cap, start: 0, buf: Vec::new() }
    }

    /// A new subscriber starts at the end: it sees exactly the messages sent
    /// after it subscribed.
    pub fn subscribe(&self) -> (r: FanoutReceiver)
        requires
            chan_wf(self@),
        ensures
            r.next as nat == chan_end(self@),
    {
        FanoutReceiver { next: self.start + (self.buf.len() as u64) }
    }

    pub fn send(&mut self, m: UavState)
        requires
            chan_wf(old(self)@),
            chan_end(old(self)@) < u64::MAX,
        ensures
            final(self)@ == send_spec(old(self)@, m@),
            chan_wf(final(self)@),
            chan_end(final(self)@) == chan_end(old(self)@) + 1,
    {
        let ghost c0 = self@;
        if self.buf.len() >= self.cap {
            self.buf.remove(0);
            self.start = self.start + 1;
        }
        self.buf.push(m);
        proof {
            assert(self@ =~= send_spec(c0, m@));
        }
    }

    /// One read for one subscriber; the channel itself is unchanged.
    pub fn recv(&self, r: &mut FanoutReceiver) -> (out: RecvOutcome)
        requires
            chan_wf(self@),
        ensures
            (out@, final(r).next as nat) == recv_spec(self@, old(r).next as nat),
    {
        if r.next < self.start {
            let lost: u64 = self.start - r.next;
            r.next = self.start;
            RecvOutcome::Lagged(lost)
        } else if r.next >= self.start + (self.buf.len() as u64) {
            RecvOutcome::Empty
        } else {
            let i: usize = (r.next - self.start) as usize;
            let m = self.buf[i].duplicate();
            r.next = r.next + 1;
            RecvOutcome::Msg(m)
        }
    }
}

/// The channel after a whole run of sends, first to last.
pub open spec fn send_many(c: FanoutChannelV, ms: Seq<UavStateV>) -> FanoutChannelV
    decreases ms.len(),
{
    if ms.len() == 0 {
        c
    } else {
        send_spec(send_many(c, ms.drop_last()), ms.last())
    }
}

pub proof fn lemma_send_many_end(c: FanoutChannelV, ms: Seq<UavStateV>)
    requires
        chan_wf(c),
        chan_end(c) + ms.len() <= u64::MAX,
    ensures
        chan_wf(send_many(c, ms)),
        chan_end(send_many(c, ms)) == chan_end(c) + ms.len(),
    decreases ms.len(),
{
    if ms.len() > 0 {
        lemma_send_many_end(c, ms.drop_last());
    }
}

/// No update is lost between snapshot and subscription: a subscriber taken at
/// the current end of the channel receives, in order, every message sent
/// after it subscribed, as long as it stays within the channel's capacity.
pub proof fn lemma_subscriber_misses_nothing(c: FanoutChannelV, ms: Seq<UavStateV>, k: int)
    requires
        chan_wf(c),
        c.buf.len() + ms.len() <= c.cap,
        chan_end(c) + ms.len() <= u64::MAX,
        0 <= k < ms.len(),
    ensures
        recv_spec(send_many(c, ms), (chan_end(c) + k) as nat)
            == (RecvOutcomeV::Msg(ms[k]), (chan_end(c) + k + 1) as nat),
    decreases ms.len(),
{
    let c1 = send_many(c, ms);
    lemma_send_many_end(c, ms.drop_last());
    lemma_send_many_start_fixed(c, ms);
    if k == ms.len() - 1 {
        assert(c1.buf.last() == ms.last());
    } else {
        lemma_subscriber_misses_nothing(c, ms.drop_last(), k);
        let cp = send_many(c, ms.drop_last());
        lemma_send_many_start_fixed(c, ms.drop_last());
        assert(cp.buf.len() < cp.cap);
        assert(c1.buf == cp.buf.push(ms.last()));
        assert(c1.buf[(chan_end(c) + k) - c1.start] == cp.buf[(chan_end(c) + k) - cp.start]);
    }
}

pub proof fn lemma_send_many_start_fixed(c: FanoutChannelV, ms: Seq<UavStateV>)
    requires
        chan_wf(c),
        c.buf.len() + ms.len() <= c.cap,
        chan_end(c) + ms.len() <= u64::MAX,
    ensures
        chan_wf(send_many(c, ms)),
        send_many(c, ms).start == c.start,
        send_many(c, ms).cap == c.cap,
        send_many(c, ms).buf.len() == c.buf.len() + ms.len(),
    decreases ms.len(),
{
    if ms.len() > 0 {
        lemma_send_many_start_fixed(c, ms.drop_last());
    }
}

/// Overflow does not terminate a subscriber: a cursor that has fallen behind
/// the oldest retained message gets a lag notice, is resynchronised, and its
/// following read returns the oldest message still retained.
pub proof fn lemma_overflow_resynchronises(c: FanoutChannelV, next: nat)
    requires
        chan_wf(c),
        next < c.start,
        c.buf.len() > 0,
    ensures
        recv_spec(c, next).0 is Lagged,
        recv_spec(c, next).1 == c.start,
        recv_spec(c, recv_spec(c, next).1).0 == RecvOutcomeV::Msg(c.buf[0]),
{
}

} // verus!
