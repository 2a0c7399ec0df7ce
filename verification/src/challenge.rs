//! Bridge between an out-of-band, synchronous verification-code callback and
//! a UI round trip. Each login attempt opens its own single-use request, so
//! a stale response can never be misdelivered to a later attempt; the
//! registration is dropped on every exit path — delivery, timeout and
//! teardown alike — so nothing leaks across attempts. The actual waiting,
//! with its fixed timeout, is the application's: it reports the outcome back
//! here as a plain value.

use vstd::prelude::*;

use crate::text::spec_unquote;
use crate::text::unquote;

verus! {

/// Failure of one verification-code round trip.
#[derive(Clone, Copy, PartialEq, Eq, Structural, Debug)]
pub enum ChallengeError {
    /// No response arrived within the timeout window.
    TimedOut,
    /// The response channel was torn down before any response.
    Disconnected,
}

impl ChallengeError {
    /// The user-visible description of the failure.
    pub fn message(&self) -> (r: String)
        ensures
            self is TimedOut ==> r@ == "2FA cancelled or timed out"@,
            self is Disconnected ==> r@ == "2FA disconnected"@,
    {
        match self {
            ChallengeError::TimedOut => "2FA cancelled or timed out".to_owned(),
            ChallengeError::Disconnected => "2FA disconnected".to_owned(),
        }
    }
}

/// The mathematical shape of a [`ChallengeBridge`]: how many request ids
/// were handed out, and the single outstanding request, if any.
#[verifier::ext_equal]
pub struct BridgeModel {
    pub issued: u64,
    pub pending: Option<u64>,
}

/// Coordinator of verification-code round trips.
pub struct ChallengeBridge {
    issued: u64,
    pending: Option<u64>,
}

impl View for ChallengeBridge {
    type V = BridgeModel;

    closed spec fn view(&self) -> BridgeModel {
        BridgeModel { issued: self.issued, pending: self.pending }
    }
}

impl ChallengeBridge {
    /// Well-formedness: any outstanding request carries an id that was
    /// actually handed out.
    pub open spec fn wf(&self) -> bool {
        self@.pending matches Some(p) ==> p < self@.issued
    }

    /// A bridge with no outstanding request.
    pub fn new() -> (r: ChallengeBridge)
        ensures
            r.wf(),
            r@.issued == 0,
            r@.pending is None,
    {
        ChallengeBridge { issued: 0, pending: None }
    }

    /// Opens a fresh single-use request for one login attempt and returns
    /// its id — distinct from every id handed out before, so responses to
    /// earlier attempts can never match it. Any still-outstanding request is
    /// superseded (concurrent attempts are not mutually excluded; the last
    /// one wins).
    pub fn open_request(&mut self) -> (id: u64)
        requires
            old(self).wf(),
            old(self)@.issued < u64::MAX,
        ensures
            final(self).wf(),
            id == old(self)@.issued,
            final(self)@.issued == old(self)@.issued + 1,
            final(self)@.pending == Some(id),
    {
        let id = self.issued;
        self.issued = self.issued + 1;
        self.pending = Some(id);
        id
    }

    /// Delivers a response payload for a request. Exactly the outstanding
    /// request receives it — as its code, with surrounding quote characters
    /// stripped — and the registration is consumed; a response for any other
    /// request (a stale attempt's, or after the window closed) is rejected
    /// and changes nothing.
    pub fn accept(&mut self, request: u64, payload: &str) -> (r: Option<String>)
        requires
            old(self).wf(),
        ensures
            final(self).wf(),
            old(self)@.pending == Some(request) ==> (r matches Some(code) && code@ == spec_unquote(
                payload@,
            ) && final(self)@.pending is None && final(self)@.issued == old(self)@.issued),
            old(self)@.pending != Some(request) ==> r is None && *final(self) == *old(self),
    {
        let is_current = match self.pending {
            Some(p) => p == request,
            None => false,
        };
        if is_current {
            self.pending = None;
            Some(unquote(payload))
        } else {
            None
        }
    }

    /// Closes a request without a response — timeout or channel teardown —
    /// dropping its registration so the next attempt starts clean, and
    /// passes the cause through for the caller to report. Closing a request
    /// that is no longer outstanding changes nothing.
    pub fn abandon(&mut self, request: u64, cause: ChallengeError) -> (r: ChallengeError)
        requires
            old(self).wf(),
        ensures
            final(self).wf(),
            r == cause,
            old(self)@.pending == Some(request) ==> final(self)@.pending is None
                && final(self)@.issued == old(self)@.issued,
            old(self)@.pending != Some(request) ==> *final(self) == *old(self),
    {
        let is_current = match self.pending {
            Some(p) => p == request,
            None => false,
        };
        if is_current {
            self.pending = None;
        }
        cause
    }
}

/// A stale response cannot be misdelivered to a later attempt. An id handed
/// out by an earlier [`ChallengeBridge::open_request`] lies strictly below
/// the issued counter; the attempt outstanding after a fresh `open_request`
/// carries the counter's prior value. The two ids therefore differ, and
/// [`ChallengeBridge::accept`] rejects the stale one, whose attempt already
/// gave its registration up.
pub proof fn lemma_stale_response_rejected(
    before: BridgeModel,
    after: BridgeModel,
    fresh: u64,
    stale: u64,
)
    requires
        stale < before.issued,
        fresh == before.issued,
        after.issued == before.issued + 1,
        after.pending == Some(fresh),
    ensures
        stale != fresh,
        after.pending != Some(stale),
{
}

} // verus!
