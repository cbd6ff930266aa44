//! The transaction fetcher's retry policy.
//!
//! Fetching a transaction negotiates encoding and version acceptance with
//! an endpoint in up to three sequential attempts: default acceptance,
//! then explicit version-0 acceptance, then default acceptance once more
//! as an explicit fallback.  Only an error whose text indicates a
//! version-acceptance mismatch moves to the next attempt; every other
//! error ends the call as "unavailable".  The caller holds one permit
//! from a shared pool for the whole call and gives it back exactly once,
//! whether the call succeeds or exhausts its attempts.
//!
//! The machine here takes the outcome of each attempt as an event and
//! decides the next step; the network call itself is made by the caller.

use vstd::prelude::*;
use crate::strutil::{contains_seq, str_contains};

verus! {

/// Which transaction versions one attempt declares acceptable.
#[derive(Clone, Copy, Debug, PartialEq, Eq, Structural)]
pub enum VersionAcceptance {
    /// No stated maximum version: the endpoint's default, which rejects
    /// versioned transactions.
    DefaultOnly,
    /// Version 0 explicitly accepted.
    Version0,
}

/// How an attempt's error text is read.
#[derive(Clone, Copy, Debug, PartialEq, Eq, Structural)]
pub enum FetchErrorKind {
    /// The endpoint rejected the requested version acceptance.
    VersionMismatch,
    /// The transaction is not found or not yet finalized.
    NotFinalized,
    /// Any other failure, network errors included.
    Other,
}

/// Where one fetch call stands.
#[derive(Clone, Copy, Debug, PartialEq, Eq, Structural)]
pub enum FetchState {
    /// About to try with default version acceptance.
    Attempt1,
    /// The first attempt hit a version mismatch; about to try accepting
    /// version 0.
    Attempt2,
    /// The second attempt hit a version mismatch too; about to fall back
    /// to default acceptance once more.
    Attempt3,
    /// An attempt returned the transaction; the payload of the recorded
    /// attempt is the call's result.
    Succeeded(u8),
    /// Every allowed attempt failed; the call reports no transaction and
    /// no error.
    Unavailable,
}

/// The error text indicates a version-acceptance mismatch.
pub open spec fn is_version_error(msg: Seq<char>) -> bool {
    contains_seq(msg, "Transaction version"@) || contains_seq(
        msg,
        "not supported by the requesting client"@,
    )
}

/// The error text indicates a not-yet-finalized or missing transaction.
pub open spec fn is_not_finalized_error(msg: Seq<char>) -> bool {
    contains_seq(msg, "invalid type: null"@)
}

/// How the retry policy reads an error text: a version mismatch wins over
/// every other reading, and the not-finalized form is recognized only for
/// reporting; both end the call when a retry is not allowed.
pub open spec fn spec_error_kind(msg: Seq<char>) -> FetchErrorKind {
    if is_version_error(msg) {
        FetchErrorKind::VersionMismatch
    } else if is_not_finalized_error(msg) {
        FetchErrorKind::NotFinalized
    } else {
        FetchErrorKind::Other
    }
}

/// Reads an attempt's error text.
pub fn error_kind(msg: &str) -> (k: FetchErrorKind)
    ensures
        k == spec_error_kind(msg@),
{
    if str_contains(msg, "Transaction version") || str_contains(
        msg,
        "not supported by the requesting client",
    ) {
        FetchErrorKind::VersionMismatch
    } else if str_contains(msg, "invalid type: null") {
        FetchErrorKind::NotFinalized
    } else {
        FetchErrorKind::Other
    }
}

impl FetchState {
    /// An attempt is still pending.
    pub open spec fn in_progress(self) -> bool {
        self is Attempt1 || self is Attempt2 || self is Attempt3
    }

    /// The ordinal of the pending attempt.
    pub open spec fn spec_attempt_index(self) -> u8
        recommends
            self.in_progress(),
    {
        match self {
            FetchState::Attempt1 => 1,
            FetchState::Attempt2 => 2,
            FetchState::Attempt3 => 3,
            _ => 0,
        }
    }

    /// The version acceptance the pending attempt must request: default on
    /// the first and third attempts, version 0 on the second.
    pub fn acceptance(&self) -> (a: VersionAcceptance)
        requires
            self.in_progress(),
        ensures
            (*self is Attempt1 || *self is Attempt3) ==> a == VersionAcceptance::DefaultOnly,
            *self is Attempt2 ==> a == VersionAcceptance::Version0,
    {
        match self {
            FetchState::Attempt2 => VersionAcceptance::Version0,
            _ => VersionAcceptance::DefaultOnly,
        }
    }
}

/// The state after the pending attempt returned the transaction.
pub open spec fn spec_on_success(s: FetchState) -> FetchState
    recommends
        s.in_progress(),
{
    FetchState::Succeeded(s.spec_attempt_index())
}

/// The state after the pending attempt failed with the given error text:
/// a version mismatch on attempts one and two moves to the next attempt;
/// everything else ends the call as unavailable.
pub open spec fn spec_on_error(s: FetchState, msg: Seq<char>) -> FetchState
    recommends
        s.in_progress(),
{
    match s {
        FetchState::Attempt1 => if is_version_error(msg) {
            FetchState::Attempt2
        } else {
            FetchState::Unavailable
        },
        FetchState::Attempt2 => if is_version_error(msg) {
            FetchState::Attempt3
        } else {
            FetchState::Unavailable
        },
        _ => FetchState::Unavailable,
    }
}

/// One fetch call: the retry state together with the accounting of the
/// one concurrency permit the call holds.
#[derive(Clone, Copy, Debug, PartialEq, Eq, Structural)]
pub struct FetchSession {
    pub state: FetchState,
    /// The call still holds its permit.
    pub permit_held: bool,
    /// How many times the call has given its permit back.
    pub releases: u8,
}

impl FetchSession {
    /// The session invariant: the permit is held for exactly as long as an
    /// attempt is pending, and is given back exactly once, at the end.
    pub open spec fn wf(self) -> bool {
        &&& (self.state.in_progress() ==> self.permit_held && self.releases == 0)
        &&& (!self.state.in_progress() ==> !self.permit_held && self.releases == 1)
    }

    /// Starts a fetch call.  The caller must have acquired one permit from
    /// the shared pool; the session records that the call holds it.
    pub fn begin() -> (s: FetchSession)
        ensures
            s.state == FetchState::Attempt1,
            s.permit_held,
            s.releases == 0,
            s.wf(),
    {
        FetchSession { state: FetchState::Attempt1, permit_held: true, releases: 0 }
    }

    /// Records that the pending attempt returned the transaction.  The call
    /// is over and the permit is given back, for the first and only time.
    pub fn on_success(&mut self)
        requires
            old(self).wf(),
            old(self).state.in_progress(),
        ensures
            final(self).state == spec_on_success(old(self).state),
            final(self).state == FetchState::Succeeded(old(self).state.spec_attempt_index()),
            !final(self).permit_held,
            final(self).releases == 1,
            final(self).wf(),
    {
        let idx: u8 = match self.state {
            FetchState::Attempt1 => 1,
            FetchState::Attempt2 => 2,
            _ => 3,
        };
        self.state = FetchState::Succeeded(idx);
        self.permit_held = false;
        self.releases = self.releases + 1;
    }

    /// Records that the pending attempt failed with `msg`.  A version
    /// mismatch on the first or second attempt moves to the next attempt
    /// and keeps the permit; any other outcome ends the call as
    /// unavailable and gives the permit back, exactly once.
    pub fn on_error(&mut self, msg: &str)
        requires
            old(self).wf(),
            old(self).state.in_progress(),
        ensures
            final(self).state == spec_on_error(old(self).state, msg@),
            final(self).wf(),
    {
        let retry = match error_kind(msg) {
            FetchErrorKind::VersionMismatch => true,
            _ => false,
        };
        let next = match self.state {
            FetchState::Attempt1 => if retry {
                FetchState::Attempt2
            } else {
                FetchState::Unavailable
            },
            FetchState::Attempt2 => if retry {
                FetchState::Attempt3
            } else {
                FetchState::Unavailable
            },
            _ => FetchState::Unavailable,
        };
        self.state = next;
        if !(match next {
            FetchState::Attempt1 | FetchState::Attempt2 | FetchState::Attempt3 => true,
            _ => false,
        }) {
            self.permit_held = false;
            self.releases = self.releases + 1;
        }
    }
}

/// Law: an error whose text shows a version mismatch on the first attempt
/// leads to a second attempt that accepts version 0, and when that second
/// attempt returns the transaction, the call's result is the second
/// attempt's transaction.
pub proof fn lemma_mismatch_then_success(m1: Seq<char>)
    requires
        is_version_error(m1),
    ensures
        spec_on_error(FetchState::Attempt1, m1) == FetchState::Attempt2,
        spec_on_success(spec_on_error(FetchState::Attempt1, m1)) == FetchState::Succeeded(2u8),
{
}

/// Law: when all three attempts fail with version-mismatch errors, the
/// call ends as "unavailable" — no error escapes.
pub proof fn lemma_all_mismatch_unavailable(m1: Seq<char>, m2: Seq<char>, m3: Seq<char>)
    requires
        is_version_error(m1),
        is_version_error(m2),
        is_version_error(m3),
    ensures
        spec_on_error(spec_on_error(spec_on_error(FetchState::Attempt1, m1), m2), m3)
            == FetchState::Unavailable,
{
}

/// Law: a fetch call that has ended — by success or by exhausting its
/// attempts — holds no permit and has given its permit back exactly
/// once.  Every session the transition contracts produce is well-formed,
/// so this holds of every ended call.
pub proof fn lemma_done_releases_once(s: FetchSession)
    requires
        s.wf(),
        !s.state.in_progress(),
    ensures
        !s.permit_held,
        s.releases == 1,
{
}

} // verus!
