//! The life of a verification attempt, driven by the direct messages of one
//! account.
//!
//! A session is absent, then pending, and ends verified, expired or
//! cancelled; each ending removes it. The service reaches its store and the
//! community platform only between decisions, so every decision here is one
//! step: from where a conversation stands and what was just learned
//! ([`Event`]) to where it stands next and what to do ([`Next`]): ask a
//! [`Query`], or finish with an [`Outcome`] that the caller carries out.

use crate::text::{parse_u64, parse_unsigned};
use crate::verification_db::{
    current_timestamp, Verification, VerificationSession, VerificationSessionView,
    VerificationView,
};
use crate::verification_discord::{missing_criteria, MissingCriteria, Notice, NoticeView};
use crate::verification_email::{address_verdict, generate_code, validate_address};
use vstd::prelude::*;

verus! {

/// A message that an account sent.
#[derive(Debug, PartialEq, Eq)]
pub struct IncomingMessage {
    pub author_id: u64,
    pub author_is_bot: bool,
    /// The message stands in a channel of the community, not in a private one.
    pub in_guild: bool,
    pub content: String,
}

/// What an [`IncomingMessage`] holds, as mathematical values.
pub ghost struct IncomingMessageView {
    pub author_id: u64,
    pub author_is_bot: bool,
    pub in_guild: bool,
    pub content: Seq<char>,
}

impl View for IncomingMessage {
    type V = IncomingMessageView;

    open spec fn view(&self) -> IncomingMessageView {
        IncomingMessageView {
            author_id: self.author_id,
            author_is_bot: self.author_is_bot,
            in_guild: self.in_guild,
            content: self.content@,
        }
    }
}

/// What a conversation needs to learn before it can go on.
#[derive(Debug, PartialEq, Eq)]
pub enum Query {
    /// Is the account a member of the community?
    IsMember { user_id: u64 },
    /// Which session does the account hold?
    SessionOf { user_id: u64 },
    /// Which record does the roster hold of the email?
    RecordOf { email: String },
    /// Is the account a member, and does it hold the verified role?
    MemberRole { user_id: u64 },
}

/// What a [`Query`] holds, as mathematical values.
pub ghost enum QueryView {
    IsMember { user_id: u64 },
    SessionOf { user_id: u64 },
    RecordOf { email: Seq<char> },
    MemberRole { user_id: u64 },
}

impl View for Query {
    type V = QueryView;

    open spec fn view(&self) -> QueryView {
        match self {
            Query::IsMember { user_id } => QueryView::IsMember { user_id: *user_id },
            Query::SessionOf { user_id } => QueryView::SessionOf { user_id: *user_id },
            Query::RecordOf { email } => QueryView::RecordOf { email: email@ },
            Query::MemberRole { user_id } => QueryView::MemberRole { user_id: *user_id },
        }
    }
}

/// What a conversation has just learned.
#[derive(Debug, PartialEq, Eq)]
pub enum Event {
    /// The message arrived; nothing was asked yet.
    Start,
    /// The answer to [`Query::IsMember`].
    IsMember(bool),
    /// The answer to [`Query::SessionOf`].
    Session(Option<VerificationSession>),
    /// The answer to [`Query::RecordOf`].
    Record(Option<Verification>),
    /// The answer to [`Query::MemberRole`]: nothing for an account that is no
    /// member, else whether the member holds the verified role.
    MemberRole(Option<bool>),
}

/// What an [`Event`] holds, as mathematical values.
pub ghost enum EventView {
    Start,
    IsMember(bool),
    Session(Option<VerificationSessionView>),
    Record(Option<VerificationView>),
    MemberRole(Option<bool>),
}

impl View for Event {
    type V = EventView;

    open spec fn view(&self) -> EventView {
        match self {
            Event::Start => EventView::Start,
            Event::IsMember(member) => EventView::IsMember(*member),
            Event::Session(session) => EventView::Session(session.deep_view()),
            Event::Record(record) => EventView::Record(record.deep_view()),
            Event::MemberRole(role) => EventView::MemberRole(*role),
        }
    }
}

/// How a conversation ends, and with it what the caller has to carry out.
#[derive(Debug, PartialEq, Eq)]
pub enum Outcome {
    /// Nothing is done and nobody is told.
    Ignored,
    /// The member is told; nothing changes.
    Rejected(Notice),
    /// A session is issued: write it over any session of the same email, then
    /// send its code to its email, then tell the member that the code is out.
    /// A code that could not be sent is reported and leaves the session written.
    Issue { session: VerificationSession },
    /// The session is cancelled: delete the account's session and tell the
    /// member.
    Cancelled { user_id: u64 },
    /// The session is too old: delete the session of this email and tell the
    /// member.
    Expired { email: String },
    /// The code was right: in one transaction delete the session of this
    /// email, link the account to the record of this email and, where
    /// `grant_role` holds, grant the account the verified role; then tell the
    /// member.
    Verified { email: String, user_id: u64, grant_role: bool },
    /// The event does not answer what the conversation had asked: nothing is
    /// done.
    Aborted,
}

/// What an [`Outcome`] holds, as mathematical values.
pub ghost enum OutcomeView {
    Ignored,
    Rejected(NoticeView),
    Issue { session: VerificationSessionView },
    Cancelled { user_id: u64 },
    Expired { email: Seq<char> },
    Verified { email: Seq<char>, user_id: u64, grant_role: bool },
    Aborted,
}

impl OutcomeView {
    /// What the member is told at this ending.
    pub open spec fn notice(self) -> Option<NoticeView> {
        match self {
            OutcomeView::Ignored => None,
            OutcomeView::Rejected(notice) => Some(notice),
            OutcomeView::Issue { session } => Some(NoticeView::CodeSent { email: session.email }),
            OutcomeView::Cancelled { .. } => Some(NoticeView::Stopped),
            OutcomeView::Expired { .. } => Some(NoticeView::SessionExpired),
            OutcomeView::Verified { .. } => Some(NoticeView::Verified),
            OutcomeView::Aborted => None,
        }
    }
}

impl View for Outcome {
    type V = OutcomeView;

    open spec fn view(&self) -> OutcomeView {
        match self {
            Outcome::Ignored => OutcomeView::Ignored,
            Outcome::Rejected(notice) => OutcomeView::Rejected(notice@),
            Outcome::Issue { session } => OutcomeView::Issue { session: session@ },
            Outcome::Cancelled { user_id } => OutcomeView::Cancelled { user_id: *user_id },
            Outcome::Expired { email } => OutcomeView::Expired { email: email@ },
            Outcome::Verified { email, user_id, grant_role } => OutcomeView::Verified {
                email: email@,
                user_id: *user_id,
                grant_role: *grant_role,
            },
            Outcome::Aborted => OutcomeView::Aborted,
        }
    }
}

impl Outcome {
    /// What the member is told at this ending, if anything.
    pub fn notice(&self) -> (notice: Option<Notice>)
        ensures
            notice.deep_view() == self@.notice(),
    {
        match self {
            Outcome::Ignored => None,
            Outcome::Rejected(notice) => Some(notice.clone()),
            Outcome::Issue { session } => Some(Notice::CodeSent { email: session.email.clone() }),
            Outcome::Cancelled { .. } => Some(Notice::Stopped),
            Outcome::Expired { .. } => Some(Notice::SessionExpired),
            Outcome::Verified { .. } => Some(Notice::Verified),
            Outcome::Aborted => None,
        }
    }
}

/// What the caller does next.
#[derive(Debug, PartialEq, Eq)]
pub enum Next {
    /// Find the answer and hand it to the next step.
    Ask(Query),
    /// Carry out the outcome; the conversation is over.
    Done(Outcome),
}

/// What a [`Next`] holds, as mathematical values.
pub ghost enum NextView {
    Ask(QueryView),
    Done(OutcomeView),
}

impl View for Next {
    type V = NextView;

    open spec fn view(&self) -> NextView {
        match self {
            Next::Ask(query) => NextView::Ask(query@),
            Next::Done(outcome) => NextView::Done(outcome@),
        }
    }
}

/// Where a conversation stands: what it has asked and waits to learn.
#[derive(Debug, PartialEq, Eq)]
pub enum Stage {
    /// A message arrived and nothing was asked.
    Received,
    /// Asked whether the author is a member.
    AwaitMembership,
    /// Asked for the author's session.
    AwaitSession,
    /// An email is to be registered and nothing was asked.
    IssueReceived,
    /// Asked for the record of the email.
    IssueAwaitRecord { email: String },
    /// Asked whether the account that the record is linked to is still a member.
    IssueAwaitLinked { email: String },
    /// A code is to be confirmed and nothing was asked.
    ConfirmReceived,
    /// Asked for the author's session.
    ConfirmAwaitSession,
    /// Asked for the record of the session's email.
    ConfirmAwaitRecord { email: String },
    /// Asked for the author's membership and role.
    ConfirmAwaitMember { email: String },
    /// The conversation is over.
    Closed,
}

/// What a [`Stage`] holds, as mathematical values.
pub ghost enum StageView {
    Received,
    AwaitMembership,
    AwaitSession,
    IssueReceived,
    IssueAwaitRecord { email: Seq<char> },
    IssueAwaitLinked { email: Seq<char> },
    ConfirmReceived,
    ConfirmAwaitSession,
    ConfirmAwaitRecord { email: Seq<char> },
    ConfirmAwaitMember { email: Seq<char> },
    Closed,
}

impl View for Stage {
    type V = StageView;

    open spec fn view(&self) -> StageView {
        match self {
            Stage::Received => StageView::Received,
            Stage::AwaitMembership => StageView::AwaitMembership,
            Stage::AwaitSession => StageView::AwaitSession,
            Stage::IssueReceived => StageView::IssueReceived,
            Stage::IssueAwaitRecord { email } => StageView::IssueAwaitRecord { email: email@ },
            Stage::IssueAwaitLinked { email } => StageView::IssueAwaitLinked { email: email@ },
            Stage::ConfirmReceived => StageView::ConfirmReceived,
            Stage::ConfirmAwaitSession => StageView::ConfirmAwaitSession,
            Stage::ConfirmAwaitRecord { email } => StageView::ConfirmAwaitRecord { email: email@ },
            Stage::ConfirmAwaitMember { email } => StageView::ConfirmAwaitMember { email: email@ },
            Stage::Closed => StageView::Closed,
        }
    }
}

/// One account's message on its way through the service.
#[derive(Debug, PartialEq, Eq)]
pub struct Conversation {
    pub message: IncomingMessage,
    pub stage: Stage,
}

/// What a [`Conversation`] holds, as mathematical values.
pub ghost struct ConversationView {
    pub message: IncomingMessageView,
    pub stage: StageView,
}

impl View for Conversation {
    type V = ConversationView;

    open spec fn view(&self) -> ConversationView {
        ConversationView { message: self.message@, stage: self.stage@ }
    }
}

/// A step's result: where the conversation stands and what to do.
pub type Step = (ConversationView, NextView);

impl ConversationView {
    /// The conversation moved to `stage`, asking `query`.
    pub open spec fn ask(self, stage: StageView, query: QueryView) -> Step {
        (ConversationView { stage, ..self }, NextView::Ask(query))
    }

    /// The conversation closed with `outcome`.
    pub open spec fn finish(self, outcome: OutcomeView) -> Step {
        (ConversationView { stage: StageView::Closed, ..self }, NextView::Done(outcome))
    }

    /// The same conversation at another stage.
    pub open spec fn at(self, stage: StageView) -> ConversationView {
        ConversationView { stage, ..self }
    }

    /// The session that the author is issued for `email`.
    pub open spec fn issue(self, email: Seq<char>, now: u64, code: u64) -> Step {
        self.finish(
            OutcomeView::Issue {
                session: VerificationSessionView {
                    email,
                    discord_id: self.message.author_id,
                    code,
                    timestamp: now,
                },
            },
        )
    }
}

/// One step of registering an email.
///
/// The message must lower-case and parse to a bare mailbox address under the
/// organization's domain. The roster must hold a record of that email, and the
/// record must not be linked to another account that is still a member. Then
/// a session is issued to the author, with the code `code`, stamped `now`.
pub open spec fn issue_step(conv: ConversationView, event: EventView, now: u64, code: u64) -> Step {
    match (conv.stage, event) {
        (StageView::IssueReceived, EventView::Start) => match address_verdict(
            conv.message.content,
        ) {
            Err(notice) => conv.finish(OutcomeView::Rejected(notice)),
            Ok(email) => conv.ask(
                StageView::IssueAwaitRecord { email },
                QueryView::RecordOf { email },
            ),
        },
        (StageView::IssueAwaitRecord { email }, EventView::Record(None)) => conv.finish(
            OutcomeView::Rejected(NoticeView::NotRegistered),
        ),
        (StageView::IssueAwaitRecord { email }, EventView::Record(Some(record))) => if record.is_linked()
            && record.discord_id != Some(conv.message.author_id) {
            conv.ask(
                StageView::IssueAwaitLinked { email },
                QueryView::IsMember { user_id: record.discord_id->0 },
            )
        } else {
            conv.issue(email, now, code)
        },
        (StageView::IssueAwaitLinked { email }, EventView::IsMember(still_member)) => if still_member {
            conv.finish(OutcomeView::Rejected(NoticeView::AlreadyRegistered))
        } else {
            conv.issue(email, now, code)
        },
        _ => conv.finish(OutcomeView::Aborted),
    }
}

/// One step of confirming a code.
///
/// The author must hold a session. A session older than its time to live at
/// `now` ends expired, whatever the message says. Else the message must spell
/// the session's code; the record of the session's email must meet the roster
/// criteria; and the author must be a member. Then the attempt ends verified,
/// and the role is granted unless the member holds it.
pub open spec fn confirm_step(conv: ConversationView, event: EventView, now: u64) -> Step {
    match (conv.stage, event) {
        (StageView::ConfirmReceived, EventView::Start) => conv.ask(
            StageView::ConfirmAwaitSession,
            QueryView::SessionOf { user_id: conv.message.author_id },
        ),
        (StageView::ConfirmAwaitSession, EventView::Session(None)) => conv.finish(
            OutcomeView::Rejected(NoticeView::NoActiveSession),
        ),
        (StageView::ConfirmAwaitSession, EventView::Session(Some(session))) => if session.discord_id
            != conv.message.author_id {
            conv.finish(OutcomeView::Aborted)
        } else if session.is_expired(now) {
            conv.finish(OutcomeView::Expired { email: session.email })
        } else {
            match parse_unsigned(conv.message.content) {
                None => conv.finish(OutcomeView::Rejected(NoticeView::InvalidCode)),
                Some(number) => if number != session.code {
                    conv.finish(OutcomeView::Rejected(NoticeView::IncorrectCode))
                } else {
                    conv.ask(
                        StageView::ConfirmAwaitRecord { email: session.email },
                        QueryView::RecordOf { email: session.email },
                    )
                },
            }
        },
        (StageView::ConfirmAwaitRecord { email }, EventView::Record(None)) => conv.finish(
            OutcomeView::Rejected(NoticeView::NotRegistered),
        ),
        (StageView::ConfirmAwaitRecord { email }, EventView::Record(Some(record))) => if MissingCriteria::of(
            record,
        ).any() {
            conv.finish(
                OutcomeView::Rejected(NoticeView::CriteriaUnmet(MissingCriteria::of(record))),
            )
        } else {
            conv.ask(
                StageView::ConfirmAwaitMember { email },
                QueryView::MemberRole { user_id: conv.message.author_id },
            )
        },
        (StageView::ConfirmAwaitMember { email }, EventView::MemberRole(None)) => conv.finish(
            OutcomeView::Rejected(NoticeView::NotInServer),
        ),
        (StageView::ConfirmAwaitMember { email }, EventView::MemberRole(Some(has_role))) => conv.finish(
            OutcomeView::Verified {
                email,
                user_id: conv.message.author_id,
                grant_role: !has_role,
            },
        ),
        _ => conv.finish(OutcomeView::Aborted),
    }
}

/// One step of handling a message.
///
/// Messages of bots, messages in the community's channels and messages of
/// accounts that are no members are ignored. An author without a session is
/// registering an email. An author with a session cancels it with the message
/// `quit`, and with any other message confirms a code.
pub open spec fn message_step(conv: ConversationView, event: EventView, now: u64, code: u64) -> Step {
    match (conv.stage, event) {
        (StageView::Received, EventView::Start) => if conv.message.author_is_bot
            || conv.message.in_guild {
            conv.finish(OutcomeView::Ignored)
        } else {
            conv.ask(
                StageView::AwaitMembership,
                QueryView::IsMember { user_id: conv.message.author_id },
            )
        },
        (StageView::AwaitMembership, EventView::IsMember(member)) => if member {
            conv.ask(
                StageView::AwaitSession,
                QueryView::SessionOf { user_id: conv.message.author_id },
            )
        } else {
            conv.finish(OutcomeView::Ignored)
        },
        (StageView::AwaitSession, EventView::Session(None)) => issue_step(
            conv.at(StageView::IssueReceived),
            EventView::Start,
            now,
            code,
        ),
        (StageView::AwaitSession, EventView::Session(Some(session))) => if conv.message.content
            == "quit"@ {
            conv.finish(OutcomeView::Cancelled { user_id: conv.message.author_id })
        } else {
            confirm_step(conv.at(StageView::ConfirmReceived), EventView::Start, now)
        },
        (StageView::IssueReceived, _) => issue_step(conv, event, now, code),
        (StageView::IssueAwaitRecord { .. }, _) => issue_step(conv, event, now, code),
        (StageView::IssueAwaitLinked { .. }, _) => issue_step(conv, event, now, code),
        (StageView::ConfirmReceived, _) => confirm_step(conv, event, now),
        (StageView::ConfirmAwaitSession, _) => confirm_step(conv, event, now),
        (StageView::ConfirmAwaitRecord { .. }, _) => confirm_step(conv, event, now),
        (StageView::ConfirmAwaitMember { .. }, _) => confirm_step(conv, event, now),
        _ => conv.finish(OutcomeView::Aborted),
    }
}

impl Conversation {
    /// A conversation about a message that just arrived.
    pub fn new(message: IncomingMessage) -> (conv: Conversation)
        ensures
            conv@ == (ConversationView { message: message@, stage: StageView::Received }),
    {
        Conversation { message, stage: Stage::Received }
    }

    /// A conversation that registers the message as an email.
    pub fn issuing(message: IncomingMessage) -> (conv: Conversation)
        ensures
            conv@ == (ConversationView { message: message@, stage: StageView::IssueReceived }),
    {
        Conversation { message, stage: Stage::IssueReceived }
    }

    /// A conversation that confirms the message as a code.
    pub fn confirming(message: IncomingMessage) -> (conv: Conversation)
        ensures
            conv@ == (ConversationView { message: message@, stage: StageView::ConfirmReceived }),
    {
        Conversation { message, stage: Stage::ConfirmReceived }
    }
}

/// The conversation about `message` moved to `stage`, asking `query`.
fn ask(message: IncomingMessage, stage: Stage, query: Query) -> (step: (Conversation, Next))
    ensures
        step.0@ == (ConversationView { message: message@, stage: stage@ }),
        step.1@ == NextView::Ask(query@),
{
    (Conversation { message, stage }, Next::Ask(query))
}

/// The conversation about `message` closed with `outcome`.
fn finish(message: IncomingMessage, outcome: Outcome) -> (step: (Conversation, Next))
    ensures
        step.0@ == (ConversationView { message: message@, stage: StageView::Closed }),
        step.1@ == NextView::Done(outcome@),
{
    (Conversation { message, stage: Stage::Closed }, Next::Done(outcome))
}

/// The author of `message` is issued a session for `email`.
fn issue(message: IncomingMessage, email: String, now: u64, code: u64) -> (step: (
    Conversation,
    Next,
))
    ensures
        forall|stage: StageView|
            (step.0@, step.1@) == (#[trigger] ConversationView { message: message@, stage }.issue(
                email@,
                now,
                code,
            )),
{
    let session = VerificationSession::new_at(email, message.author_id, code, now);
    finish(message, Outcome::Issue { session })
}

/// A new verification was requested: one step of registering the message as
/// an email, where a session that is issued gets the code `code` and the
/// stamp `now`.
pub fn new_verification_at(conv: Conversation, event: Event, now: u64, code: u64) -> (step: (
    Conversation,
    Next,
))
    ensures
        (step.0@, step.1@) == issue_step(conv@, event@, now, code),
{
    let Conversation { message, stage } = conv;
    match (stage, event) {
        (Stage::IssueReceived, Event::Start) => match validate_address(message.content.as_str()) {
            Err(notice) => finish(message, Outcome::Rejected(notice)),
            Ok(email) => {
                let asked = email.clone();
                ask(message, Stage::IssueAwaitRecord { email }, Query::RecordOf { email: asked })
            },
        },
        (Stage::IssueAwaitRecord { email }, Event::Record(None)) => finish(
            message,
            Outcome::Rejected(Notice::NotRegistered),
        ),
        (Stage::IssueAwaitRecord { email }, Event::Record(Some(record))) => {
            match record.discord_id {
                Some(linked) if linked != 0 && linked != message.author_id => ask(
                    message,
                    Stage::IssueAwaitLinked { email },
                    Query::IsMember { user_id: linked },
                ),
                _ => issue(message, email, now, code),
            }
        },
        (Stage::IssueAwaitLinked { email }, Event::IsMember(still_member)) => {
            if still_member {
                finish(message, Outcome::Rejected(Notice::AlreadyRegistered))
            } else {
                issue(message, email, now, code)
            }
        },
        (_, _) => finish(message, Outcome::Aborted),
    }
}

/// Handles existing verification sessions: one step of confirming the message
/// as a code, with the clock reading `now`.
pub fn handle_verification_code_at(conv: Conversation, event: Event, now: u64) -> (step: (
    Conversation,
    Next,
))
    ensures
        (step.0@, step.1@) == confirm_step(conv@, event@, now),
{
    let Conversation { message, stage } = conv;
    let author = message.author_id;
    match (stage, event) {
        (Stage::ConfirmReceived, Event::Start) => ask(
            message,
            Stage::ConfirmAwaitSession,
            Query::SessionOf { user_id: author },
        ),
        (Stage::ConfirmAwaitSession, Event::Session(None)) => finish(
            message,
            Outcome::Rejected(Notice::NoActiveSession),
        ),
        (Stage::ConfirmAwaitSession, Event::Session(Some(session))) => {
            if session.discord_id != author {
                finish(message, Outcome::Aborted)
            } else if session.is_expired_at(now) {
                finish(message, Outcome::Expired { email: session.email })
            } else {
                match parse_u64(message.content.as_str()) {
                    None => finish(message, Outcome::Rejected(Notice::InvalidCode)),
                    Some(number) => {
                        if number != session.code {
                            finish(message, Outcome::Rejected(Notice::IncorrectCode))
                        } else {
                            let asked = session.email.clone();
                            ask(
                                message,
                                Stage::ConfirmAwaitRecord { email: session.email },
                                Query::RecordOf { email: asked },
                            )
                        }
                    },
                }
            }
        },
        (Stage::ConfirmAwaitRecord { email }, Event::Record(None)) => finish(
            message,
            Outcome::Rejected(Notice::NotRegistered),
        ),
        (Stage::ConfirmAwaitRecord { email }, Event::Record(Some(record))) => {
            let missing = missing_criteria(&record);
            if missing.is_any() {
                finish(message, Outcome::Rejected(Notice::CriteriaUnmet(missing)))
            } else {
                ask(
                    message,
                    Stage::ConfirmAwaitMember { email },
                    Query::MemberRole { user_id: author },
                )
            }
        },
        (Stage::ConfirmAwaitMember { email }, Event::MemberRole(None)) => finish(
            message,
            Outcome::Rejected(Notice::NotInServer),
        ),
        (Stage::ConfirmAwaitMember { email }, Event::MemberRole(Some(has_role))) => finish(
            message,
            Outcome::Verified { email, user_id: author, grant_role: !has_role },
        ),
        (_, _) => finish(message, Outcome::Aborted),
    }
}

/// Handles the incoming message: one step of its conversation, with the clock
/// reading `now`, and `code` for a session that the step issues.
pub fn handle_verification_message_at(conv: Conversation, event: Event, now: u64, code: u64) -> (step: (
    Conversation,
    Next,
))
    ensures
        (step.0@, step.1@) == message_step(conv@, event@, now, code),
{
    let Conversation { message, stage } = conv;
    let author = message.author_id;
    match (stage, event) {
        (Stage::Received, Event::Start) => {
            if message.author_is_bot || message.in_guild {
                finish(message, Outcome::Ignored)
            } else {
                ask(message, Stage::AwaitMembership, Query::IsMember { user_id: author })
            }
        },
        (Stage::AwaitMembership, Event::IsMember(member)) => {
            if member {
                ask(message, Stage::AwaitSession, Query::SessionOf { user_id: author })
            } else {
                finish(message, Outcome::Ignored)
            }
        },
        (Stage::AwaitSession, Event::Session(None)) => new_verification_at(
            Conversation { message, stage: Stage::IssueReceived },
            Event::Start,
            now,
            code,
        ),
        (Stage::AwaitSession, Event::Session(Some(session))) => {
            let quit = "quit".to_owned();
            if message.content == quit {
                finish(message, Outcome::Cancelled { user_id: author })
            } else {
                handle_verification_code_at(
                    Conversation { message, stage: Stage::ConfirmReceived },
                    Event::Start,
                    now,
                )
            }
        },
        (Stage::IssueReceived, event) => new_verification_at(
            Conversation { message, stage: Stage::IssueReceived },
            event,
            now,
            code,
        ),
        (Stage::IssueAwaitRecord { email }, event) => new_verification_at(
            Conversation { message, stage: Stage::IssueAwaitRecord { email } },
            event,
            now,
            code,
        ),
        (Stage::IssueAwaitLinked { email }, event) => new_verification_at(
            Conversation { message, stage: Stage::IssueAwaitLinked { email } },
            event,
            now,
            code,
        ),
        (Stage::ConfirmReceived, event) => handle_verification_code_at(
            Conversation { message, stage: Stage::ConfirmReceived },
            event,
            now,
        ),
        (Stage::ConfirmAwaitSession, event) => handle_verification_code_at(
            Conversation { message, stage: Stage::ConfirmAwaitSession },
            event,
            now,
        ),
        (Stage::ConfirmAwaitRecord { email }, event) => handle_verification_code_at(
            Conversation { message, stage: Stage::ConfirmAwaitRecord { email } },
            event,
            now,
        ),
        (Stage::ConfirmAwaitMember { email }, event) => handle_verification_code_at(
            Conversation { message, stage: Stage::ConfirmAwaitMember { email } },
            event,
            now,
        ),
        (_, _) => finish(message, Outcome::Aborted),
    }
}

/// A new verification was requested: one step of registering the message as an
/// email. A session that is issued carries a freshly drawn code and the
/// clock's present reading.
pub fn new_verification(conv: Conversation, event: Event) -> (step: (Conversation, Next))
    ensures
        exists|now: u64, code: u64|
            crate::verification_email::is_seven_digit_code(code) && (step.0@, step.1@)
                == #[trigger] issue_step(conv@, event@, now, code),
{
    let now = current_timestamp();
    let code = generate_code();
    new_verification_at(conv, event, now, code)
}

/// Handles existing verification sessions: one step of confirming the message
/// as a code, judged by the clock's present reading.
pub fn handle_verification_code(conv: Conversation, event: Event) -> (step: (Conversation, Next))
    ensures
        exists|now: u64| (step.0@, step.1@) == #[trigger] confirm_step(conv@, event@, now),
{
    let now = current_timestamp();
    handle_verification_code_at(conv, event, now)
}

/// Handles the incoming message: one step of its conversation. Expiry is
/// judged by the clock's present reading; a session that is issued carries a
/// freshly drawn code and that reading.
pub fn handle_verification_message(conv: Conversation, event: Event) -> (step: (Conversation, Next))
    ensures
        exists|now: u64, code: u64|
            crate::verification_email::is_seven_digit_code(code) && (step.0@, step.1@)
                == #[trigger] message_step(conv@, event@, now, code),
{
    let now = current_timestamp();
    let code = generate_code();
    handle_verification_message_at(conv, event, now, code)
}

} // verus!
