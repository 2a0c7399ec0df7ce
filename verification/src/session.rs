//! Exclusive, restore-guaranteed access to the single shared authenticated
//! session. The session lives in a slot; a workflow step checks it out with
//! [`SessionGuard::take`] (exclusivity comes from the slot being empty while
//! checked out, not from holding a lock) and puts it back with
//! [`SessionGuard::release`] on every exit path. [`with_session`] packages
//! the whole cycle, restoring the slot around an arbitrary use step.

use vstd::prelude::*;

verus! {

/// Failure to check the session out.
#[derive(Clone, Copy, PartialEq, Eq, Structural, Debug)]
pub enum SessionError {
    /// The slot is empty: nobody is logged in, or another step holds the
    /// session right now.
    SessionUnavailable,
}

impl SessionError {
    /// The user-visible description of the failure.
    pub fn message(&self) -> (r: String)
        ensures
            r@ == "Not logged in"@,
    {
        "Not logged in".to_owned()
    }
}

/// The process-wide slot holding the authenticated session, when present and
/// not checked out.
pub struct SessionSlot<S> {
    session: Option<S>,
}

impl<S> View for SessionSlot<S> {
    type V = Option<S>;

    closed spec fn view(&self) -> Option<S> {
        self.session
    }
}

impl<S> SessionSlot<S> {
    /// A slot with nobody logged in.
    pub fn empty() -> (slot: Self)
        ensures
            slot@ is None,
    {
        SessionSlot { session: None }
    }

    /// Places a session, overwriting whatever was there (login).
    pub fn install(&mut self, session: S)
        ensures
            final(self)@ == Some(session),
    {
        self.session = Some(session);
    }

    /// Empties the slot (logout, or a detected session expiry).
    pub fn clear(&mut self)
        ensures
            final(self)@ is None,
    {
        self.session = None;
    }

    /// True when no session is present.
    pub fn is_empty(&self) -> (r: bool)
        ensures
            r == (self@ is None),
    {
        self.session.is_none()
    }
}

/// Exclusive possession of the shared session for one workflow step.
pub struct SessionGuard<S> {
    session: S,
}

impl<S> View for SessionGuard<S> {
    type V = S;

    closed spec fn view(&self) -> S {
        self.session
    }
}

impl<S> SessionGuard<S> {
    /// Checks the session out of the slot, leaving the slot empty. On an
    /// empty slot it fails immediately — it never blocks — and changes
    /// nothing.
    pub fn take(slot: &mut SessionSlot<S>) -> (r: Result<SessionGuard<S>, SessionError>)
        ensures
            old(slot)@ is None ==> (r matches Err(e) && e == SessionError::SessionUnavailable
                && final(slot)@ is None),
            old(slot)@ matches Some(s) ==> (r matches Ok(g) && g@ == s && final(slot)@ is None),
    {
        match slot.session.take() {
            None => Err(SessionError::SessionUnavailable),
            Some(s) => Ok(SessionGuard { session: s }),
        }
    }

    /// The held session, for the guarded operation to work on.
    pub fn get_mut(&mut self) -> (r: &mut S)
        ensures
            *r == old(self)@,
            final(self)@ == *final(r),
    {
        &mut self.session
    }

    /// A read-only look at the held session.
    pub fn session(&self) -> (r: &S)
        ensures
            *r == self@,
    {
        &self.session
    }

    /// Puts the session back, overwriting the slot. Restoration is owed on
    /// every exit from the guarded scope, even if the operation left the
    /// session partially invalidated: validity is the next acquirer's
    /// concern, not the guard's.
    pub fn release(self, slot: &mut SessionSlot<S>)
        ensures
            final(slot)@ == Some(self@),
    {
        slot.session = Some(self.session);
    }
}

/// Runs one acquire/use/release cycle: checks the session out, hands it to
/// the use step, and restores the slot with whatever session the step
/// returned — on the success path and on the step's early-error path alike.
/// On an empty slot it fails immediately with [`SessionError`] and changes
/// nothing.
pub fn with_session<S, T, F: FnOnce(S) -> (S, T)>(slot: &mut SessionSlot<S>, f: F) -> (r: Result<
    T,
    SessionError,
>)
    requires
        forall|s: S| old(slot)@ == Some(s) ==> call_requires(f, (s,)),
    ensures
        old(slot)@ is None ==> (r matches Err(e) && e == SessionError::SessionUnavailable
            && final(slot)@ is None),
        old(slot)@ matches Some(s) ==> exists|s2: S, t: T|
            #[trigger] call_ensures(f, (s,), (s2, t)) && r == Ok::<T, SessionError>(t)
                && final(slot)@ == Some(s2),
{
    let guard = match SessionGuard::take(slot) {
        Err(e) => {
            return Err(e);
        },
        Ok(g) => g,
    };
    let SessionGuard { session } = guard;
    let (session, out) = f(session);
    let guard = SessionGuard { session };
    guard.release(slot);
    Ok(out)
}

/// Slot contents after one acquire/use/release cycle in which the use step
/// hands the session back as it took it: an empty slot stays empty (the
/// acquisition fails up front), and a full slot gets the very session it
/// held, as the contracts of [`SessionGuard::take`] and
/// [`SessionGuard::release`] promise.
pub open spec fn slot_after_cycle<S>(contents: Option<S>) -> Option<S> {
    match contents {
        None => None,
        Some(s) => Some(s),
    }
}

/// Slot contents after `n` sequential cycles.
pub open spec fn slot_after_cycles<S>(contents: Option<S>, n: nat) -> Option<S>
    decreases n,
{
    if n == 0 {
        contents
    } else {
        slot_after_cycles(slot_after_cycle(contents), (n - 1) as nat)
    }
}

/// For any number of sequential acquire/use/release cycles — cycles whose
/// use step exits early included, since release is owed on every exit path —
/// the slot afterwards holds exactly what it held before the first acquire:
/// the same single session, or nothing.
pub proof fn lemma_cycles_preserve_slot<S>(contents: Option<S>, n: nat)
    ensures
        slot_after_cycles(contents, n) == contents,
    decreases n,
{
    if n > 0 {
        lemma_cycles_preserve_slot(slot_after_cycle(contents), (n - 1) as nat);
    }
}

} // verus!
