//! The close-countdown step of the ticket lifecycle.
//!
//! Closing a ticket is a cancellable timed step: a countdown message with a
//! cancel control is posted, the engine suspends for [`CLOSE_DELAY_SECS`],
//! and on the deadline the countdown resolves by re-reading the message.
//! Presence of the cancel control on the message is the single source of
//! truth for the outcome: if the control is still there the channel is
//! deleted, and if cancellation stripped it the channel stays open.
//!
//! [`ClosureTracker`] holds the in-flight [`ClosureRequest`]s, at most one
//! per channel: a second close request on a channel whose countdown is
//! already pending is rejected as a no-op. The embedding program posts the
//! messages, sleeps until the deadline, re-reads the message, and performs
//! the deletion the resolution instructs.

use vstd::prelude::*;

verus! {

/// How many seconds a close countdown runs before the channel is deleted.
pub const CLOSE_DELAY_SECS: u64 = 5;

/// An in-flight close countdown for one channel.
#[derive(Clone, Copy, Debug, PartialEq, Eq, Structural)]
pub struct ClosureRequest {
    pub channel_id: u64,
    pub initiating_user_id: u64,
    /// When the countdown elapses, in seconds of the caller's clock.
    pub deadline: u64,
    /// Whether the countdown ended in cancellation; set by the resolution.
    pub cancelled: bool,
}

/// The countdown message posted in the closing channel. Whether its cancel
/// control is still present decides the countdown's outcome.
#[derive(Clone, Copy, Debug, PartialEq, Eq, Structural)]
pub struct CountdownMessage {
    pub has_cancel_control: bool,
}

/// What cancelling leaves the countdown message at: every interactive
/// control stripped, whatever state the message was in.
pub open spec fn spec_cancel(m: CountdownMessage) -> CountdownMessage {
    CountdownMessage { has_cancel_control: false }
}

/// The Cancel control: strip the interactive controls from the countdown
/// message — which is what the resolution step observes — and confirm to
/// the cancelling user. On an already-stripped message this is a no-op
/// without error, and it never emits a log entry.
pub fn cancel_close(message: &mut CountdownMessage) -> (r: &'static str)
    ensures
        *final(message) == spec_cancel(*old(message)),
        !final(message).has_cancel_control,
        r@ == "Ticket closure cancelled."@,
{
    message.has_cancel_control = false;
    "Ticket closure cancelled."
}

/// Cancellation is idempotent: cancelling twice, or cancelling a message the
/// resolution has already read, leaves the same stripped message as
/// cancelling once, and no cancellation ever produces a log entry.
pub proof fn lemma_cancel_idempotent(m: CountdownMessage)
    ensures
        spec_cancel(spec_cancel(m)) == spec_cancel(m),
{
}

/// Whether some request in `t` is for channel `ch`.
pub open spec fn has_request(t: Seq<ClosureRequest>, ch: u64) -> bool {
    exists|i: int| 0 <= i < t.len() && (#[trigger] t[i]).channel_id == ch
}

/// Whether no two requests in `t` are for the same channel.
pub open spec fn unique_channels(t: Seq<ClosureRequest>) -> bool {
    forall|i: int, j: int|
        0 <= i < j < t.len() ==> (#[trigger] t[i]).channel_id != (#[trigger] t[j]).channel_id
}

/// The index of the request for channel `ch`; meaningful when `t` holds
/// exactly one such request.
pub open spec fn request_index(t: Seq<ClosureRequest>, ch: u64) -> int {
    choose|i: int| 0 <= i < t.len() && (#[trigger] t[i]).channel_id == ch
}

/// In a well-formed tracker, at most one active closure request exists per
/// channel: two requests for the same channel are the same entry.
pub proof fn lemma_at_most_one_request(t: Seq<ClosureRequest>, i: int, j: int)
    requires
        unique_channels(t),
        0 <= i < t.len(),
        0 <= j < t.len(),
        t[i].channel_id == t[j].channel_id,
    ensures
        i == j,
{
}

/// The request a close countdown starts with: deadline one delay ahead of
/// now, not cancelled.
pub open spec fn new_request(ch: u64, user: u64, now: u64) -> ClosureRequest {
    ClosureRequest {
        channel_id: ch,
        initiating_user_id: user,
        deadline: (now + CLOSE_DELAY_SECS) as u64,
        cancelled: false,
    }
}

/// The reply to a close request.
#[derive(Clone, Copy, Debug, PartialEq, Eq, Structural)]
pub enum CloseReply {
    /// The countdown started: post `message` in the channel and resolve
    /// after the request's deadline.
    Started { request: ClosureRequest, message: CountdownMessage },
    /// A countdown is already pending for this channel; nothing changed.
    AlreadyClosing,
}

/// What a close request does to the tracked requests and replies: a no-op
/// when a countdown for the channel is already pending, and otherwise a new
/// request plus a countdown message that carries the cancel control.
pub open spec fn spec_close(t: Seq<ClosureRequest>, ch: u64, user: u64, now: u64) -> (Seq<
    ClosureRequest,
>, CloseReply) {
    if has_request(t, ch) {
        (t, CloseReply::AlreadyClosing)
    } else {
        (
            t.push(new_request(ch, user, now)),
            CloseReply::Started {
                request: new_request(ch, user, now),
                message: CountdownMessage { has_cancel_control: true },
            },
        )
    }
}

/// How a countdown resolved.
#[derive(Clone, Copy, Debug, PartialEq, Eq, Structural)]
pub enum ResolveOutcome {
    /// Cancellation did not fire: log one `Closed` entry, then delete the
    /// channel.
    Deleted { request: ClosureRequest },
    /// Cancellation stripped the controls: the channel stays open and the
    /// countdown state is discarded; nothing is logged.
    Cancelled { request: ClosureRequest },
}

impl ResolveOutcome {
    /// Whether the outcome instructs deletion of the channel.
    pub open spec fn deletes_channel(self) -> bool {
        self is Deleted
    }

    /// How many `Closed` log entries the outcome instructs: one on
    /// deletion, none otherwise.
    pub open spec fn closed_log_entries(self) -> nat {
        match self {
            ResolveOutcome::Deleted { .. } => 1,
            ResolveOutcome::Cancelled { .. } => 0,
        }
    }
}

/// What resolving the countdown for `ch` does: the request is consumed
/// either way, and the message's cancel control decides between deletion
/// and survival.
pub open spec fn spec_resolve(t: Seq<ClosureRequest>, ch: u64, m: CountdownMessage) -> (Seq<
    ClosureRequest,
>, ResolveOutcome)
    recommends
        has_request(t, ch),
{
    let i = request_index(t, ch);
    let req = t[i];
    if m.has_cancel_control {
        (t.remove(i), ResolveOutcome::Deleted { request: ClosureRequest { cancelled: false, ..req } })
    } else {
        (t.remove(i), ResolveOutcome::Cancelled { request: ClosureRequest { cancelled: true, ..req } })
    }
}

/// The in-flight close countdowns, at most one per channel.
pub struct ClosureTracker {
    requests: Vec<ClosureRequest>,
}

impl View for ClosureTracker {
    type V = Seq<ClosureRequest>;

    closed spec fn view(&self) -> Seq<ClosureRequest> {
        self.requests@
    }
}

impl ClosureTracker {
    /// At most one request per channel.
    pub open spec fn wf(self) -> bool {
        unique_channels(self@)
    }

    /// A tracker with no countdown pending.
    pub fn new() -> (r: ClosureTracker)
        ensures
            r.wf(),
            r@ == Seq::<ClosureRequest>::empty(),
    {
        ClosureTracker { requests: Vec::new() }
    }

    /// Whether a close countdown is pending for channel `ch`.
    pub fn has_pending(&self, ch: u64) -> (r: bool)
        ensures
            r == has_request(self@, ch),
    {
        match self.find_index(ch) {
            Some(_) => true,
            None => false,
        }
    }

    /// The index of the request for channel `ch`, if one exists.
    fn find_index(&self, ch: u64) -> (r: Option<usize>)
        ensures
            r matches Some(i) ==> i < self@.len() && self@[i as int].channel_id == ch,
            r is None ==> !has_request(self@, ch),
    {
        let n = self.requests.len();
        let mut i: usize = 0;
        while i < n
            invariant
                n == self@.len(),
                0 <= i <= n,
                forall|j: int| 0 <= j < i ==> (#[trigger] self@[j]).channel_id != ch,
            decreases n - i,
        {
            if self.requests[i].channel_id == ch {
                return Some(i);
            }
            i = i + 1;
        }
        None
    }

    /// Request closure of channel `channel_id`: start a close countdown
    /// with a deadline one delay ahead of `now`, unless one is already
    /// pending, in which case nothing changes and the duplicate is
    /// rejected as a no-op.
    pub fn close(&mut self, channel_id: u64, user_id: u64, now: u64) -> (r: CloseReply)
        requires
            old(self).wf(),
            now + CLOSE_DELAY_SECS <= u64::MAX,
        ensures
            final(self).wf(),
            (final(self)@, r) == spec_close(old(self)@, channel_id, user_id, now),
            has_request(final(self)@, channel_id),
    {
        match self.find_index(channel_id) {
            Some(_) => CloseReply::AlreadyClosing,
            None => {
                let request = ClosureRequest {
                    channel_id,
                    initiating_user_id: user_id,
                    deadline: now + CLOSE_DELAY_SECS,
                    cancelled: false,
                };
                self.requests.push(request);
                proof {
                    let s = self@;
                    let olds = old(self)@;
                    assert forall|a: int, b: int| 0 <= a < b < s.len() implies (#[trigger] s[a]).channel_id
                        != (#[trigger] s[b]).channel_id by {
                        if b < olds.len() {
                            assert(olds[a].channel_id != olds[b].channel_id);
                        } else {
                            assert(s[b].channel_id == channel_id);
                            assert(olds[a].channel_id != channel_id);
                        }
                    }
                    assert(s[s.len() - 1].channel_id == channel_id);
                }
                CloseReply::Started {
                    request,
                    message: CountdownMessage { has_cancel_control: true },
                }
            },
        }
    }

    /// Resolve the countdown for channel `channel_id` on its deadline,
    /// deciding by the re-read countdown message: if the cancel control is
    /// still present the channel is to be deleted after one `Closed` log
    /// entry, and if cancellation cleared it the channel survives. Either
    /// way the closure request is consumed.
    pub fn resolve_close(&mut self, channel_id: u64, message: CountdownMessage) -> (r:
        ResolveOutcome)
        requires
            old(self).wf(),
            has_request(old(self)@, channel_id),
        ensures
            final(self).wf(),
            (final(self)@, r) == spec_resolve(old(self)@, channel_id, message),
            !has_request(final(self)@, channel_id),
            r.deletes_channel() == message.has_cancel_control,
    {
        match self.find_index(channel_id) {
            None => vstd::pervasive::unreached(),
            Some(i) => {
                proof {
                    let s = self@;
                    let k = request_index(s, channel_id);
                    assert(0 <= k < s.len() && s[k].channel_id == channel_id);
                    lemma_at_most_one_request(s, k, i as int);
                }
                let req = self.requests.remove(i);
                proof {
                    let s = self@;
                    let olds = old(self)@;
                    assert forall|a: int, b: int| 0 <= a < b < s.len() implies (#[trigger] s[a]).channel_id
                        != (#[trigger] s[b]).channel_id by {
                        let a0 = if a < i as int { a } else { a + 1 };
                        let b0 = if b < i as int { b } else { b + 1 };
                        assert(s[a] == olds[a0]);
                        assert(s[b] == olds[b0]);
                        assert(olds[a0].channel_id != olds[b0].channel_id);
                    }
                    assert forall|a: int| 0 <= a < s.len() implies (#[trigger] s[a]).channel_id
                        != channel_id by {
                        let a0 = if a < i as int { a } else { a + 1 };
                        assert(s[a] == olds[a0]);
                        if a0 < i as int {
                            assert(olds[a0].channel_id != olds[i as int].channel_id);
                        } else if a0 > i as int {
                            assert(olds[i as int].channel_id != olds[a0].channel_id);
                        }
                    }
                }
                if message.has_cancel_control {
                    ResolveOutcome::Deleted { request: ClosureRequest { cancelled: false, ..req } }
                } else {
                    ResolveOutcome::Cancelled { request: ClosureRequest { cancelled: true, ..req } }
                }
            },
        }
    }
}

/// The close-countdown law. Starting a countdown on a channel with none
/// pending always succeeds. If no cancel arrives before the deadline, the
/// resolution deletes the channel and instructs exactly one `Closed` log
/// entry; if cancel arrives first, the channel is not deleted and nothing
/// is logged. Either way exactly one outcome is picked, and the tracker
/// returns to its earlier state with the countdown discarded.
pub proof fn lemma_countdown_outcome(
    t: Seq<ClosureRequest>,
    ch: u64,
    user: u64,
    now: u64,
    cancelled_before_deadline: bool,
)
    requires
        unique_channels(t),
        !has_request(t, ch),
        now + CLOSE_DELAY_SECS <= u64::MAX,
    ensures
        ({
            let (t1, reply) = spec_close(t, ch, user, now);
            let posted = CountdownMessage { has_cancel_control: true };
            let read_back = if cancelled_before_deadline {
                spec_cancel(posted)
            } else {
                posted
            };
            let (t2, outcome) = spec_resolve(t1, ch, read_back);
            &&& reply == CloseReply::Started { request: new_request(ch, user, now), message: posted }
            &&& outcome.deletes_channel() == !cancelled_before_deadline
            &&& outcome.closed_log_entries() == if cancelled_before_deadline { 0int } else { 1int }
            &&& t2 == t
        }),
{
    let (t1, reply) = spec_close(t, ch, user, now);
    assert(t1 == t.push(new_request(ch, user, now)));
    assert(t1[t.len() as int].channel_id == ch);
    assert(has_request(t1, ch));
    let k = request_index(t1, ch);
    assert(0 <= k < t1.len() && t1[k].channel_id == ch);
    if k < t.len() {
        assert(t1[k] == t[k]);
        assert(false);
    }
    assert(k == t.len());
    assert(t1.remove(k) =~= t);
}

} // verus!
