//! The two persisted entities of the verification service, as plain values:
//! the roster record of one email address and the session of one pending
//! verification attempt.

use crate::discord::{is_member, is_user_in_guild, Member, MemberView};
use vstd::prelude::*;

verus! {

/// Seconds after which a verification session no longer counts.
pub const SESSION_EXPIRATION_SECONDS: u64 = 300;

/// One roster entry, keyed by its email address.
#[derive(Debug, PartialEq, Eq)]
pub struct Verification {
    pub email: String,
    pub name: Option<String>,
    pub in_gryphlife: Option<bool>,
    pub has_paid: Option<bool>,
    pub discord_id: Option<u64>,
}

/// What a [`Verification`] holds, as mathematical values.
pub ghost struct VerificationView {
    pub email: Seq<char>,
    pub name: Option<Seq<char>>,
    pub in_gryphlife: Option<bool>,
    pub has_paid: Option<bool>,
    pub discord_id: Option<u64>,
}

impl VerificationView {
    /// The record names an account: the identifier is present and not zero.
    pub open spec fn is_linked(self) -> bool {
        self.discord_id is Some && self.discord_id != Some(0u64)
    }

    /// The record names exactly the account `id`, which is not zero.
    pub open spec fn is_linked_to(self, id: u64) -> bool {
        id != 0 && self.discord_id == Some(id)
    }

    /// The three criteria that the roster itself decides: a name is set, the
    /// member is in the roster, the dues are paid.
    pub open spec fn meets_roster_criteria(self) -> bool {
        self.name is Some && self.in_gryphlife == Some(true) && self.has_paid == Some(true)
    }

    /// The desired role state: the member should hold the verified role.
    /// With `link_required` false the account link is waived.
    pub open spec fn is_verified(self, link_required: bool) -> bool {
        self.meets_roster_criteria() && (self.is_linked() || !link_required)
    }

    /// The record names an account that is among `members`.
    pub open spec fn is_in_server(self, members: Seq<MemberView>) -> bool {
        self.discord_id matches Some(id) && is_member(members, id)
    }

    /// The same record with another account link.
    pub open spec fn with_link(self, discord_id: Option<u64>) -> VerificationView {
        VerificationView { discord_id, ..self }
    }
}

impl View for Verification {
    type V = VerificationView;

    open spec fn view(&self) -> VerificationView {
        VerificationView {
            email: self.email@,
            name: match self.name {
                Some(n) => Some(n@),
                None => None,
            },
            in_gryphlife: self.in_gryphlife,
            has_paid: self.has_paid,
            discord_id: self.discord_id,
        }
    }
}

impl DeepView for Verification {
    type V = VerificationView;

    open spec fn deep_view(&self) -> VerificationView {
        self@
    }
}

impl Clone for Verification {
    fn clone(&self) -> (copy: Self)
        ensures
            copy@ == self@,
    {
        let name = match &self.name {
            Some(n) => Some(n.clone()),
            None => None,
        };
        Verification {
            email: self.email.clone(),
            name,
            in_gryphlife: self.in_gryphlife,
            has_paid: self.has_paid,
            discord_id: self.discord_id,
        }
    }
}

impl Verification {
    /// Whether the record names an account.
    pub fn is_linked(&self) -> (linked: bool)
        ensures
            linked == self@.is_linked(),
    {
        match self.discord_id {
            Some(id) => id != 0,
            None => false,
        }
    }

    /// Will check if the user is in the server still: whether the account that
    /// the record names is among the members.
    pub fn is_in_server(&self, members: &Vec<Member>) -> (found: bool)
        ensures
            found == self@.is_in_server(members.deep_view()),
    {
        match self.discord_id {
            Some(id) => is_user_in_guild(members, id),
            None => false,
        }
    }

    /// Whether the record passes the three roster criteria.
    pub fn meets_roster_criteria(&self) -> (met: bool)
        ensures
            met == self@.meets_roster_criteria(),
    {
        self.name.is_some() && self.in_gryphlife == Some(true) && self.has_paid == Some(true)
    }

    /// Whether the member behind this record should hold the verified role.
    ///
    /// True exactly when a name is set, the member is in the roster, the dues
    /// are paid, and either an account other than zero is linked or the link
    /// is not required.
    pub fn is_verified(&self, link_required: bool) -> (verified: bool)
        ensures
            verified == self@.is_verified(link_required),
            verified == (self.name is Some && self.in_gryphlife == Some(true) && self.has_paid
                == Some(true) && ((self.discord_id is Some && self.discord_id != Some(0u64))
                || !link_required)),
    {
        self.meets_roster_criteria() && (self.is_linked() || !link_required)
    }
}

/// Whether a session issued at `issued_at` has expired when the clock reads `now`.
pub open spec fn expired_at(issued_at: int, now: int) -> bool {
    now - issued_at > 300
}

/// One pending verification attempt, keyed by its email address.
#[derive(Debug, PartialEq, Eq)]
pub struct VerificationSession {
    pub email: String,
    pub discord_id: u64,
    pub code: u64,
    pub timestamp: u64,
}

/// What a [`VerificationSession`] holds, as mathematical values.
pub ghost struct VerificationSessionView {
    pub email: Seq<char>,
    pub discord_id: u64,
    pub code: u64,
    pub timestamp: u64,
}

impl VerificationSessionView {
    /// The session's age at `now` exceeds the time to live.
    pub open spec fn is_expired(self, now: u64) -> bool {
        expired_at(self.timestamp as int, now as int)
    }
}

impl View for VerificationSession {
    type V = VerificationSessionView;

    open spec fn view(&self) -> VerificationSessionView {
        VerificationSessionView {
            email: self.email@,
            discord_id: self.discord_id,
            code: self.code,
            timestamp: self.timestamp,
        }
    }
}

impl DeepView for VerificationSession {
    type V = VerificationSessionView;

    open spec fn deep_view(&self) -> VerificationSessionView {
        self@
    }
}

impl Clone for VerificationSession {
    fn clone(&self) -> (copy: Self)
        ensures
            copy@ == self@,
    {
        VerificationSession {
            email: self.email.clone(),
            discord_id: self.discord_id,
            code: self.code,
            timestamp: self.timestamp,
        }
    }
}

/// Reads the clock with `chrono::Utc::now` and takes its `timestamp`: whole
/// seconds since the Unix epoch. `now` fails on a clock set before the epoch,
/// so a reading that comes back is not negative; nothing else is claimed of it.
#[verifier::external_body]
pub(crate) fn utc_now_seconds() -> (seconds: i64)
    ensures
        seconds >= 0,
{
    chrono::Utc::now().timestamp()
}

/// The clock's reading, never negative, taken unchanged as the unsigned seconds of a session's stamp.
pub(crate) fn current_timestamp() -> (timestamp: u64)
    ensures
        timestamp <= i64::MAX,
{
    let seconds = utc_now_seconds();
    seconds as u64
}

impl VerificationSession {
    /// Get the timestamp when the verification session started.
    pub fn get_timestamp(&self) -> (timestamp: u64)
        ensures
            timestamp == self@.timestamp,
    {
        self.timestamp
    }

    /// Whether the session is expired when the clock reads `now`: its age is
    /// more than 300 seconds. A session stamped in the future is not expired.
    pub fn is_expired_at(&self, now: u64) -> (expired: bool)
        ensures
            expired == self@.is_expired(now),
            expired == (now as int - self@.timestamp as int > 300),
    {
        now > self.timestamp && now - self.timestamp > SESSION_EXPIRATION_SECONDS
    }

    /// Whether the session is expired by the clock's present reading.
    pub fn is_expired(&self) -> (expired: bool)
        ensures
            exists|now: u64| expired == self@.is_expired(now),
    {
        let now = current_timestamp();
        self.is_expired_at(now)
    }

    /// A session issued at `now`.
    pub fn new_at(email: String, discord_id: u64, code: u64, now: u64) -> (session: Self)
        ensures
            session@ == (VerificationSessionView {
                email: email@,
                discord_id,
                code,
                timestamp: now,
            }),
    {
        VerificationSession { email, discord_id, code, timestamp: now }
    }

    /// Creates a new verification session, stamped with the clock's present
    /// reading.
    pub fn new(email: String, discord_id: u64, code: u64) -> (session: Self)
        ensures
            session@.email == email@,
            session@.discord_id == discord_id,
            session@.code == code,
    {
        let now = current_timestamp();
        VerificationSession::new_at(email, discord_id, code, now)
    }
}

/// Whether the session still counts when the clock reads `now`.
pub fn valid_verification_session_at(session: &VerificationSession, now: u64) -> (valid: bool)
    ensures
        valid == !session@.is_expired(now),
{
    !session.is_expired_at(now)
}

/// If there is a valid verification session: one that the clock's present
/// reading has not expired.
pub fn valid_verification_session(session: &VerificationSession) -> (valid: bool)
    ensures
        exists|now: u64| valid == !session@.is_expired(now),
{
    let now = current_timestamp();
    valid_verification_session_at(session, now)
}

} // verus!
