//! Binary protocol frames of the positioning receiver.
//!
//! Every frame is `[sync1, sync2, class, id, length_lo, length_hi,
//! payload..., ck_a, ck_b]`. The two checksum bytes are computed over every
//! byte from the class byte through the end of the payload with the running
//! pair `(ck_a, ck_b)`: for each byte `b` in order, `ck_a = (ck_a + b) mod
//! 256`, then `ck_b = (ck_b + ck_a) mod 256`, both starting at zero.
//!
//! The acknowledgment for a configuration message is itself such a frame,
//! with its own fixed class and id and the acknowledged message's class and
//! id as its two payload bytes. Incoming bytes are matched against that
//! expected 10-byte sequence with a naive sliding match under two nested
//! deadlines: an inner per-attempt read window after each resend of the
//! configuration frame, and an outer total budget after which the wait
//! reports failure.

use vstd::prelude::*;

verus! {

/// First synchronization byte of every frame.
pub const SYNC1: u8 = 0xB5;

/// Second synchronization byte of every frame.
pub const SYNC2: u8 = 0x62;

/// One step of the running checksum pair: the byte is added into `ck_a`,
/// then `ck_a` is added into `ck_b`, both modulo 256.
pub open spec fn checksum_step(ck: (u8, u8), b: u8) -> (u8, u8) {
    let a = if ck.0 + b > 255 {
        (ck.0 + b - 256) as u8
    } else {
        (ck.0 + b) as u8
    };
    let new_b = if ck.1 + a > 255 {
        (ck.1 + a - 256) as u8
    } else {
        (ck.1 + a) as u8
    };
    (a, new_b)
}

/// The checksum pair over a byte sequence, both counters starting at zero
/// and the bytes folded in order. A pure function of the bytes alone.
pub open spec fn checksum_spec(bytes: Seq<u8>) -> (u8, u8)
    decreases bytes.len(),
{
    if bytes.len() == 0 {
        (0u8, 0u8)
    } else {
        checksum_step(checksum_spec(bytes.drop_last()), bytes.last())
    }
}

/// Computes the checksum pair over `bytes`.
pub fn compute_checksum(bytes: &[u8]) -> (r: (u8, u8))
    ensures
        r == checksum_spec(bytes@),
{
    let mut ck_a: u8 = 0;
    let mut ck_b: u8 = 0;
    let mut i: usize = 0;
    while i < bytes.len()
        invariant
            i <= bytes@.len(),
            (ck_a, ck_b) == checksum_spec(bytes@.subrange(0, i as int)),
        decreases bytes@.len() - i,
    {
        let b = bytes[i];
        ck_a = ck_a.wrapping_add(b);
        ck_b = ck_b.wrapping_add(ck_a);
        proof {
            assert(bytes@.subrange(0, i + 1 as int).drop_last() =~= bytes@.subrange(0, i as int));
        }
        i = i + 1;
    }
    proof {
        assert(bytes@.subrange(0, bytes@.len() as int) =~= bytes@);
    }
    (ck_a, ck_b)
}

/// The full frame for a class, an id and a payload: sync bytes, class, id,
/// little-endian payload length, the payload, and the checksum pair over
/// everything from the class byte to the end of the payload.
pub open spec fn frame_spec(class: u8, id: u8, payload: Seq<u8>) -> Seq<u8> {
    let body = seq![class, id, (payload.len() % 256) as u8, ((payload.len() / 256) % 256) as u8]
        + payload;
    seq![SYNC1, SYNC2] + body + seq![checksum_spec(body).0, checksum_spec(body).1]
}

/// Builds the frame for a class, an id and a payload.
pub fn build_frame(class: u8, id: u8, payload: &Vec<u8>) -> (r: Vec<u8>)
    requires
        payload@.len() <= 0xFFFF,
    ensures
        r@ == frame_spec(class, id, payload@),
        r@.len() == payload@.len() + 8,
{
    let mut body: Vec<u8> = Vec::new();
    body.push(class);
    body.push(id);
    body.push((payload.len() % 256) as u8);
    body.push((payload.len() / 256) as u8);
    let mut i: usize = 0;
    while i < payload.len()
        invariant
            i <= payload@.len(),
            payload@.len() <= 0xFFFF,
            body@ == seq![
                class,
                id,
                (payload@.len() % 256) as u8,
                ((payload@.len() / 256) % 256) as u8,
            ] + payload@.subrange(0, i as int),
        decreases payload@.len() - i,
    {
        body.push(payload[i]);
        i = i + 1;
    }
    proof {
        assert(payload@.subrange(0, payload@.len() as int) =~= payload@);
    }
    let ck = compute_checksum(body.as_slice());
    let mut frame: Vec<u8> = Vec::new();
    frame.push(SYNC1);
    frame.push(SYNC2);
    let mut j: usize = 0;
    while j < body.len()
        invariant
            j <= body@.len(),
            frame@ == seq![SYNC1, SYNC2] + body@.subrange(0, j as int),
        decreases body@.len() - j,
    {
        frame.push(body[j]);
        j = j + 1;
    }
    proof {
        assert(body@.subrange(0, body@.len() as int) =~= body@);
    }
    frame.push(ck.0);
    frame.push(ck.1);
    proof {
        assert(frame@ =~= frame_spec(class, id, payload@));
    }
    frame
}

/// The expected 10-byte acknowledgment frame for a configuration message of
/// the given class and id: a frame with the fixed acknowledgment class and
/// id whose payload is the acknowledged class and id, its own checksum
/// computed over its bytes 2 through 7.
pub open spec fn ack_frame_spec(class: u8, id: u8) -> Seq<u8> {
    frame_spec(0x05, 0x01, seq![class, id])
}

/// Builds the expected acknowledgment frame for a configuration message.
pub fn ack_frame(class: u8, id: u8) -> (r: Vec<u8>)
    ensures
        r@ == ack_frame_spec(class, id),
        r@.len() == 10,
{
    let mut payload: Vec<u8> = Vec::new();
    payload.push(class);
    payload.push(id);
    proof {
        assert(payload@ =~= seq![class, id]);
    }
    build_frame(0x05, 0x01, &payload)
}

/// One step of the sliding acknowledgment match, `m` bytes of `expected`
/// already matched: a matching byte advances the position; a mismatching
/// byte resets the position and is re-examined as the start of a fresh
/// attempt.
pub open spec fn ack_step_spec(m: int, expected: Seq<u8>, b: u8) -> int {
    if 0 <= m < expected.len() && b == expected[m] {
        m + 1
    } else if expected.len() > 0 && b == expected[0] {
        1
    } else {
        0
    }
}

/// The match position after scanning `bytes` from position `m`, stopping the
/// instant the whole expected sequence has matched.
pub open spec fn scan_spec(m: int, expected: Seq<u8>, bytes: Seq<u8>) -> int
    decreases bytes.len(),
{
    if m == expected.len() || bytes.len() == 0 {
        m
    } else {
        scan_spec(ack_step_spec(m, expected, bytes[0]), expected, bytes.subrange(1, bytes.len() as int))
    }
}

/// What the acknowledgment wait should do next.
#[derive(Debug, Clone, Copy, PartialEq, Eq, Structural)]
pub enum AckPoll {
    /// The whole expected sequence has matched: the wait succeeded.
    Done,
    /// The outer deadline has elapsed without a full match: the wait failed.
    Failed,
    /// The per-attempt window has elapsed: flush and resend the
    /// configuration frame, then call [`AckWait::resent`].
    Resend,
    /// Keep reading: feed the next received byte to [`AckWait::on_byte`].
    Read,
}

/// The decision for an acknowledgment wait at clock `now_ms`: success the
/// instant the sequence has fully matched, failure once the outer deadline
/// has elapsed, a resend once the per-attempt window has elapsed, and
/// another read otherwise.
pub open spec fn ack_poll_spec(w: AckWait, now_ms: u64) -> AckPoll {
    if w.matched == w.expected@.len() {
        AckPoll::Done
    } else if now_ms - w.start_ms >= w.outer_ms {
        AckPoll::Failed
    } else if now_ms - w.attempt_start_ms >= w.inner_ms {
        AckPoll::Resend
    } else {
        AckPoll::Read
    }
}

/// The acknowledgment wait: matches incoming bytes against an expected
/// sequence under two nested deadlines. The surrounding application owns the
/// clock and the serial port; it polls this machine for a decision, performs
/// the read or the resend, and feeds back what happened.
#[derive(Debug, Clone)]
pub struct AckWait {
    /// The expected byte sequence.
    pub expected: Vec<u8>,
    /// How many bytes of `expected` have matched so far.
    pub matched: usize,
    /// Clock reading at which the wait started, in milliseconds.
    pub start_ms: u64,
    /// Outer deadline: total budget for the whole wait, in milliseconds.
    pub outer_ms: u64,
    /// Clock reading at which the current attempt started, in milliseconds.
    pub attempt_start_ms: u64,
    /// Inner window: budget for one read attempt, in milliseconds.
    pub inner_ms: u64,
}

impl AckWait {
    /// The wait is well formed: there is something to match and the match
    /// position never passes the end of the expected sequence.
    pub open spec fn wf(&self) -> bool {
        &&& self.matched <= self.expected@.len()
        &&& self.expected@.len() > 0
        &&& self.start_ms <= self.attempt_start_ms
    }

    /// The whole expected sequence has matched.
    pub open spec fn complete_spec(&self) -> bool {
        self.matched == self.expected@.len()
    }

    /// Starts a wait for `expected` at clock `now_ms`, with the given outer
    /// deadline and per-attempt window.
    pub fn new(expected: Vec<u8>, now_ms: u64, outer_ms: u64, inner_ms: u64) -> (r: AckWait)
        requires
            expected@.len() > 0,
        ensures
            r.wf(),
            r.expected@ == expected@,
            r.matched == 0,
            r.start_ms == now_ms,
            r.outer_ms == outer_ms,
            r.attempt_start_ms == now_ms,
            r.inner_ms == inner_ms,
    {
        AckWait { expected, matched: 0, start_ms: now_ms, outer_ms, attempt_start_ms: now_ms, inner_ms }
    }

    /// Feeds one received byte through the sliding match.
    pub fn on_byte(&mut self, b: u8)
        requires
            old(self).wf(),
            !old(self).complete_spec(),
        ensures
            final(self).wf(),
            final(self).matched as int == ack_step_spec(
                old(self).matched as int,
                old(self).expected@,
                b,
            ),
            final(self).expected == old(self).expected,
            final(self).start_ms == old(self).start_ms,
            final(self).outer_ms == old(self).outer_ms,
            final(self).attempt_start_ms == old(self).attempt_start_ms,
            final(self).inner_ms == old(self).inner_ms,
    {
        let len = self.expected.len();
        assert(self.matched < len);
        if b == self.expected[self.matched] {
            self.matched = self.matched + 1;
        } else if b == self.expected[0] {
            self.matched = 1;
        } else {
            self.matched = 0;
        }
    }

    /// Feeds a burst of received bytes, stopping the instant the whole
    /// sequence has matched; returns whether it has.
    pub fn feed_bytes(&mut self, bytes: &[u8]) -> (r: bool)
        requires
            old(self).wf(),
        ensures
            final(self).wf(),
            final(self).matched as int == scan_spec(
                old(self).matched as int,
                old(self).expected@,
                bytes@,
            ),
            r == final(self).complete_spec(),
            final(self).expected == old(self).expected,
            final(self).start_ms == old(self).start_ms,
            final(self).outer_ms == old(self).outer_ms,
            final(self).attempt_start_ms == old(self).attempt_start_ms,
            final(self).inner_ms == old(self).inner_ms,
    {
        let ghost m0 = self.matched as int;
        proof {
            assert(bytes@.subrange(0, bytes@.len() as int) =~= bytes@);
        }
        let mut i: usize = 0;
        while i < bytes.len() && self.matched < self.expected.len()
            invariant
                i <= bytes@.len(),
                self.wf(),
                scan_spec(m0, self.expected@, bytes@) == scan_spec(
                    self.matched as int,
                    self.expected@,
                    bytes@.subrange(i as int, bytes@.len() as int),
                ),
                self.expected == old(self).expected,
                self.start_ms == old(self).start_ms,
                self.outer_ms == old(self).outer_ms,
                self.attempt_start_ms == old(self).attempt_start_ms,
                self.inner_ms == old(self).inner_ms,
                m0 == old(self).matched as int,
            decreases bytes@.len() - i,
        {
            let ghost rest = bytes@.subrange(i as int, bytes@.len() as int);
            self.on_byte(bytes[i]);
            proof {
                assert(rest.subrange(1, rest.len() as int) =~= bytes@.subrange(
                    i + 1 as int,
                    bytes@.len() as int,
                ));
            }
            i = i + 1;
        }
        proof {
            if self.matched == self.expected@.len() {
                assert(scan_spec(
                    self.matched as int,
                    self.expected@,
                    bytes@.subrange(i as int, bytes@.len() as int),
                ) == self.matched as int);
            } else {
                assert(bytes@.subrange(i as int, bytes@.len() as int) =~= Seq::<u8>::empty());
            }
        }
        self.matched == self.expected.len()
    }

    /// Whether the whole expected sequence has matched.
    pub fn complete(&self) -> (r: bool)
        ensures
            r == self.complete_spec(),
    {
        self.matched == self.expected.len()
    }

    /// The decision at clock `now_ms`: what the wait should do next.
    pub fn poll(&self, now_ms: u64) -> (r: AckPoll)
        requires
            self.wf(),
            now_ms >= self.start_ms,
        ensures
            r == ack_poll_spec(*self, now_ms),
    {
        if self.matched == self.expected.len() {
            AckPoll::Done
        } else if now_ms - self.start_ms >= self.outer_ms {
            AckPoll::Failed
        } else if now_ms >= self.attempt_start_ms && now_ms - self.attempt_start_ms >= self.inner_ms {
            AckPoll::Resend
        } else {
            AckPoll::Read
        }
    }

    /// Records that the configuration frame was resent, opening a new
    /// per-attempt read window at clock `now_ms`.
    pub fn resent(&mut self, now_ms: u64)
        requires
            old(self).wf(),
            now_ms >= old(self).start_ms,
        ensures
            final(self).wf(),
            final(self).attempt_start_ms == now_ms,
            final(self).expected == old(self).expected,
            final(self).matched == old(self).matched,
            final(self).start_ms == old(self).start_ms,
            final(self).outer_ms == old(self).outer_ms,
            final(self).inner_ms == old(self).inner_ms,
    {
        self.attempt_start_ms = now_ms;
    }
}

/// Bounded wait: while the expected sequence has not fully matched, polling
/// at or past the outer deadline always reports failure, polling before it
/// never does, and a full match is reported as success the instant it holds.
pub proof fn lemma_ack_wait_bounded(w: AckWait, now_ms: u64)
    requires
        w.wf(),
        now_ms >= w.start_ms,
    ensures
        !w.complete_spec() && now_ms >= w.start_ms + w.outer_ms ==> ack_poll_spec(w, now_ms)
            == AckPoll::Failed,
        now_ms < w.start_ms + w.outer_ms ==> ack_poll_spec(w, now_ms) != AckPoll::Failed,
        w.complete_spec() ==> ack_poll_spec(w, now_ms) == AckPoll::Done,
{
}

} // verus!
