//! The connection/retry driver: an explicit state machine that bounds how
//! long one invocation waits for the daemon before degrading gracefully.
//!
//! The machine starts in `Idle`, attempts to connect, and on each failure
//! counts one attempt; between failed attempts the caller waits the fixed
//! interval `RETRY_WAIT_MSEC`. When the fixed maximum of
//! `RETRY_MAX_TRIES` attempts is exhausted it moves to `Exhausted` and
//! synthesizes the fixed fallback response; on a successful connection it
//! moves to `Exchanging`, and the daemon's reply becomes the response
//! verbatim. Either way it ends in `Done` with the response buffer to hand
//! to the caller's output stream.
//!
//! The caller performs the actual connecting, sleeping and byte transfer;
//! every decision — retry or give up, which bytes become the response —
//! is made here.

use vstd::prelude::*;

use crate::fallback::{fallback_bytes, put_error_in_response};

verus! {

/// Fixed maximum number of connection attempts for one invocation.
pub const RETRY_MAX_TRIES: u8 = 21;

/// Fixed wait, in milliseconds, between two connection attempts.
pub const RETRY_WAIT_MSEC: u64 = 500;

/// The driver's control state.
#[derive(Clone, Copy, Debug, PartialEq, Eq, Structural)]
pub enum LinkPhase {
    /// No connection attempt has been made yet.
    Idle,
    /// At least one attempt failed and another is still allowed.
    Connecting,
    /// A connection is open; the exchange with the daemon is under way.
    Exchanging,
    /// Every allowed attempt failed; the fallback response is owed.
    Exhausted,
    /// The response buffer holds the final response.
    Done,
}

/// The driver: the phase, the count of failed connection attempts, and
/// the accumulating response buffer.
pub struct LinkDriver {
    pub phase: LinkPhase,
    pub attempts: u8,
    pub response: Vec<u8>,
}

/// The driver's mathematical state: the same three components with the
/// counter as a plain natural number and the buffer as a byte sequence.
#[verifier::ext_equal]
pub struct DriverModel {
    pub phase: LinkPhase,
    pub attempts: nat,
    pub response: Seq<u8>,
}

/// The state of a fresh driver.
pub open spec fn model_init() -> DriverModel {
    DriverModel { phase: LinkPhase::Idle, attempts: 0, response: Seq::empty() }
}

/// The transition for one failed connection attempt: the counter grows by
/// one; the machine keeps trying until the fixed maximum is reached, and
/// is exhausted exactly then.
pub open spec fn model_on_failure(m: DriverModel) -> DriverModel {
    DriverModel {
        phase: if m.attempts + 1 < RETRY_MAX_TRIES {
            LinkPhase::Connecting
        } else {
            LinkPhase::Exhausted
        },
        attempts: m.attempts + 1,
        response: m.response,
    }
}

/// The transition for a successful connection attempt.
pub open spec fn model_on_success(m: DriverModel) -> DriverModel {
    DriverModel { phase: LinkPhase::Exchanging, attempts: m.attempts, response: m.response }
}

/// The transition for the daemon's reply: the reply bytes are appended to
/// the response buffer and the machine is done.
pub open spec fn model_on_reply(m: DriverModel, reply: Seq<u8>) -> DriverModel {
    DriverModel { phase: LinkPhase::Done, attempts: m.attempts, response: m.response + reply }
}

/// The transition that synthesizes the fallback response after
/// exhaustion.
pub open spec fn model_fallback(m: DriverModel) -> DriverModel {
    DriverModel {
        phase: LinkPhase::Done,
        attempts: m.attempts,
        response: m.response + fallback_bytes(),
    }
}

/// The state of a fresh driver after `k` consecutive failed attempts.
pub open spec fn model_failures(k: nat) -> DriverModel
    decreases k,
{
    if k == 0 {
        model_init()
    } else {
        model_on_failure(model_failures((k - 1) as nat))
    }
}

/// Well-formedness of a driver state: the counter never exceeds the fixed
/// maximum, a fresh machine has counted nothing, a machine that may still
/// try has attempts left, exhaustion happens exactly at the maximum, and
/// the response buffer stays empty until the machine decides what the
/// response is.
pub open spec fn model_wf(m: DriverModel) -> bool {
    &&& m.attempts <= RETRY_MAX_TRIES
    &&& m.phase is Idle ==> m.attempts == 0
    &&& m.phase is Connecting ==> 0 < m.attempts < RETRY_MAX_TRIES
    &&& m.phase is Exhausted ==> m.attempts == RETRY_MAX_TRIES
    &&& !(m.phase is Done) ==> m.response == Seq::<u8>::empty()
}

impl LinkDriver {
    /// The driver's mathematical state.
    pub open spec fn model(&self) -> DriverModel {
        DriverModel {
            phase: self.phase,
            attempts: self.attempts as nat,
            response: self.response@,
        }
    }

    /// Well-formedness, carried by every driver this module hands out.
    pub open spec fn wf(&self) -> bool {
        model_wf(self.model())
    }

    /// A fresh driver: no attempt made, nothing in the response buffer.
    pub fn new() -> (d: LinkDriver)
        ensures
            d.model() == model_init(),
            d.wf(),
    {
        let d = LinkDriver { phase: LinkPhase::Idle, attempts: 0, response: Vec::new() };
        proof {
            assert(d.model() =~= model_init());
        }
        d
    }

    /// True while the driver wants the caller to attempt a connection.
    pub fn wants_connect(&self) -> (r: bool)
        ensures
            r == (self.phase is Idle || self.phase is Connecting),
    {
        matches!(self.phase, LinkPhase::Idle | LinkPhase::Connecting)
    }

    /// Records one failed connection attempt. Returns whether the caller
    /// should retry: if so, the caller waits `RETRY_WAIT_MSEC`
    /// milliseconds and attempts again; if not, every allowed attempt has
    /// been used and the fallback response is owed.
    pub fn on_connect_failed(&mut self) -> (retry: bool)
        requires
            old(self).wf(),
            old(self).phase is Idle || old(self).phase is Connecting,
        ensures
            final(self).model() == model_on_failure(old(self).model()),
            final(self).wf(),
            retry == (final(self).phase is Connecting),
            retry <==> old(self).attempts + 1 < RETRY_MAX_TRIES,
    {
        self.attempts = self.attempts + 1;
        if self.attempts < RETRY_MAX_TRIES {
            self.phase = LinkPhase::Connecting;
            proof {
                assert(self.model() =~= model_on_failure(old(self).model()));
            }
            true
        } else {
            self.phase = LinkPhase::Exhausted;
            proof {
                assert(self.model() =~= model_on_failure(old(self).model()));
            }
            false
        }
    }

    /// Records a successful connection attempt: the exchange with the
    /// daemon begins.
    pub fn on_connected(&mut self)
        requires
            old(self).wf(),
            old(self).phase is Idle || old(self).phase is Connecting,
        ensures
            final(self).model() == model_on_success(old(self).model()),
            final(self).wf(),
    {
        self.phase = LinkPhase::Exchanging;
        proof {
            assert(self.model() =~= model_on_success(old(self).model()));
        }
    }

    /// Takes the daemon's reply, read to end-of-stream by the caller, as
    /// the final response — verbatim, with nothing added and nothing
    /// removed.
    pub fn on_reply(&mut self, reply: Vec<u8>)
        requires
            old(self).wf(),
            old(self).phase is Exchanging,
        ensures
            final(self).model() == model_on_reply(old(self).model(), reply@),
            final(self).wf(),
            final(self).response@ == reply@,
    {
        let mut incoming = reply;
        self.response.append(&mut incoming);
        self.phase = LinkPhase::Done;
        proof {
            assert(self.model() =~= model_on_reply(old(self).model(), reply@));
            assert(self.response@ =~= reply@);
        }
    }

    /// Synthesizes the fallback response after every allowed attempt has
    /// failed: the final response is exactly the fixed error document.
    pub fn synthesize_fallback(&mut self)
        requires
            old(self).wf(),
            old(self).phase is Exhausted,
        ensures
            final(self).model() == model_fallback(old(self).model()),
            final(self).wf(),
            final(self).response@ == fallback_bytes(),
    {
        put_error_in_response(&mut self.response);
        self.phase = LinkPhase::Done;
        proof {
            assert(self.model() =~= model_fallback(old(self).model()));
            assert(self.response@ =~= fallback_bytes());
        }
    }
}

/// After `k` consecutive connection failures a fresh driver has counted
/// exactly `k` attempts, still holds an empty response buffer, and is
/// exhausted exactly when `k` is the fixed maximum, never before.
pub proof fn lemma_failure_run(k: nat)
    requires
        k <= RETRY_MAX_TRIES,
    ensures
        model_wf(model_failures(k)),
        model_failures(k).attempts == k,
        model_failures(k).response == Seq::<u8>::empty(),
        k == 0 ==> model_failures(k).phase is Idle,
        0 < k < RETRY_MAX_TRIES ==> model_failures(k).phase is Connecting,
        k == RETRY_MAX_TRIES ==> model_failures(k).phase is Exhausted,
    decreases k,
{
    if k > 0 {
        lemma_failure_run((k - 1) as nat);
    }
}

/// The bounded-retry law: a fresh driver facing an unreachable daemon
/// makes exactly `RETRY_MAX_TRIES` connection attempts — after each of the
/// first twenty failures it still asks for a retry, after the final one it
/// is exhausted and never retries again — and the response it then
/// synthesizes is exactly the fixed fallback document.
pub proof fn lemma_retries_exhausted()
    ensures
        forall|k: nat|
            0 < k < RETRY_MAX_TRIES ==> (#[trigger] model_failures(k)).phase is Connecting,
        model_failures(RETRY_MAX_TRIES as nat).phase is Exhausted,
        model_failures(RETRY_MAX_TRIES as nat).attempts == RETRY_MAX_TRIES,
        model_fallback(model_failures(RETRY_MAX_TRIES as nat)).phase is Done,
        model_fallback(model_failures(RETRY_MAX_TRIES as nat)).response == fallback_bytes(),
{
    assert forall|k: nat| 0 < k < RETRY_MAX_TRIES implies (#[trigger] model_failures(
        k,
    )).phase is Connecting by {
        lemma_failure_run(k);
    }
    lemma_failure_run(RETRY_MAX_TRIES as nat);
    assert(model_fallback(model_failures(RETRY_MAX_TRIES as nat)).response =~= fallback_bytes());
}

} // verus!
