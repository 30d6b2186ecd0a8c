//! The service's whole state in one value: the roster records, the sessions,
//! and the community's members. A [`Community`] answers the questions that a
//! conversation asks and carries out the outcome that it ends with, so that a
//! message can be seen through from arrival to effect.

use crate::discord::{
    first_member, get_guild_member_from_user, is_member, is_user_in_guild,
    lemma_first_member, lemma_first_member_is, lemma_granted_and_revoked, member_of, Member,
    MemberView,
};
use crate::error::FailureKind;
use crate::reconciliation::{decide, ReconcilePolicy, RoleDecision};
use crate::record_store::{record_at, VerificationTable};
use crate::session_store::{
    free_for, holds_session, lemma_with_session, lemma_without_keeps_keys, session_of,
    well_keyed, with_session, without, SessionTable, Sessions,
};
use crate::text::parse_unsigned;
use crate::verification_db::{current_timestamp, VerificationView};
use crate::verification_discord::{MissingCriteria, NoticeView};
use crate::verification_email::{address_verdict, generate_code, is_seven_digit_code};
use crate::verification_event::{
    handle_verification_message_at, message_step, Conversation, ConversationView, Event,
    EventView, IncomingMessage, IncomingMessageView, Next, NextView, Outcome, OutcomeView, Query,
    QueryView, Stage, StageView,
};
use vstd::prelude::*;

verus! {

/// The state of the service.
#[derive(Debug)]
pub struct Community {
    pub records: VerificationTable,
    pub sessions: SessionTable,
    pub members: Vec<Member>,
    pub verified_role: u64,
}

/// What a [`Community`] holds, as mathematical values.
pub ghost struct CommunityView {
    pub records: Map<Seq<char>, VerificationView>,
    pub sessions: Sessions,
    pub members: Seq<MemberView>,
    pub verified_role: u64,
}

impl View for Community {
    type V = CommunityView;

    open spec fn view(&self) -> CommunityView {
        CommunityView {
            records: self.records@,
            sessions: self.sessions@,
            members: self.members.deep_view(),
            verified_role: self.verified_role,
        }
    }
}

/// The members after the role was granted to every entry of the account.
pub open spec fn granted_to(members: Seq<MemberView>, user_id: u64, role: u64) -> Seq<MemberView> {
    Seq::new(
        members.len(),
        |i: int|
            if members[i].user_id == user_id {
                members[i].granted(role)
            } else {
                members[i]
            },
    )
}

/// The records after the record of the email, if there is one, was linked to
/// the account.
pub open spec fn linked(
    records: Map<Seq<char>, VerificationView>,
    email: Seq<char>,
    user_id: u64,
) -> Map<Seq<char>, VerificationView> {
    if records.contains_key(email) {
        records.insert(email, records[email].with_link(Some(user_id)))
    } else {
        records
    }
}

impl CommunityView {
    /// The answer that the state gives to a question.
    pub open spec fn answer(self, query: QueryView) -> EventView {
        match query {
            QueryView::IsMember { user_id } => EventView::IsMember(is_member(self.members, user_id)),
            QueryView::SessionOf { user_id } => EventView::Session(
                session_of(self.sessions, user_id),
            ),
            QueryView::RecordOf { email } => EventView::Record(record_at(self.records, email)),
            QueryView::MemberRole { user_id } => EventView::MemberRole(
                match member_of(self.members, user_id) {
                    Some(member) => Some(member.has_role(self.verified_role)),
                    None => None,
                },
            ),
        }
    }

    /// The state can take the outcome and keep one session to an account: a
    /// session that is issued goes to an account that holds none under
    /// another email.
    pub open spec fn admits(self, outcome: OutcomeView) -> bool {
        outcome matches OutcomeView::Issue { session } ==> free_for(
            self.sessions,
            session.discord_id,
            session.email,
        )
    }

    /// The state after an outcome was carried out.
    pub open spec fn carried_out(self, outcome: OutcomeView) -> CommunityView {
        match outcome {
            OutcomeView::Issue { session } => CommunityView {
                sessions: with_session(self.sessions, session),
                ..self
            },
            OutcomeView::Cancelled { user_id } => CommunityView {
                sessions: without(self.sessions, None, Some(user_id)),
                ..self
            },
            OutcomeView::Expired { email } => CommunityView {
                sessions: self.sessions.remove(email),
                ..self
            },
            OutcomeView::Verified { email, user_id, grant_role } => CommunityView {
                sessions: self.sessions.remove(email),
                records: linked(self.records, email, user_id),
                members: if grant_role {
                    granted_to(self.members, user_id, self.verified_role)
                } else {
                    self.members
                },
                ..self
            },
            _ => self,
        }
    }

    /// The outcome that a conversation comes to when every question it asks
    /// is answered by this state, within `fuel` questions.
    pub open spec fn run(
        self,
        conv: ConversationView,
        next: NextView,
        now: u64,
        code: u64,
        fuel: nat,
    ) -> OutcomeView
        decreases fuel,
    {
        match next {
            NextView::Done(outcome) => outcome,
            NextView::Ask(query) => if fuel == 0 {
                OutcomeView::Aborted
            } else {
                let step = message_step(conv, self.answer(query), now, code);
                self.run(step.0, step.1, now, code, (fuel - 1) as nat)
            },
        }
    }

    /// The outcome of a conversation that starts at `stage`. No conversation
    /// asks more than five questions.
    pub open spec fn outcome(
        self,
        message: IncomingMessageView,
        stage: StageView,
        now: u64,
        code: u64,
    ) -> OutcomeView {
        let step = message_step(ConversationView { message, stage }, EventView::Start, now, code);
        self.run(step.0, step.1, now, code, 6)
    }

    /// The outcome of a message that arrives.
    pub open spec fn delivered(self, message: IncomingMessageView, now: u64, code: u64) -> OutcomeView {
        self.outcome(message, StageView::Received, now, code)
    }

    /// The outcome of a message that is taken as a code to confirm.
    pub open spec fn confirmed(self, message: IncomingMessageView, now: u64) -> OutcomeView {
        self.outcome(message, StageView::ConfirmReceived, now, 0)
    }

    /// The outcome of a message that is taken as an email to register.
    pub open spec fn issued(self, message: IncomingMessageView, now: u64, code: u64) -> OutcomeView {
        self.outcome(message, StageView::IssueReceived, now, code)
    }
}

impl Community {
    /// The state is well formed: every session stands under its own email,
    /// and no account holds two sessions.
    pub open spec fn wf(&self) -> bool {
        well_keyed(self@.sessions)
    }

    /// A community with these members, without records and sessions.
    pub fn new(members: Vec<Member>, verified_role: u64) -> (community: Community)
        ensures
            community@ == (CommunityView {
                records: Map::empty(),
                sessions: Map::empty(),
                members: members.deep_view(),
                verified_role,
            }),
            community.wf(),
    {
        Community {
            records: VerificationTable::new(),
            sessions: SessionTable::new(),
            members,
            verified_role,
        }
    }

    /// Answers a question from the state.
    pub fn answer(&self, query: &Query) -> (event: Event)
        requires
            self.wf(),
        ensures
            event@ == self@.answer(query@),
    {
        match query {
            Query::IsMember { user_id } => Event::IsMember(
                is_user_in_guild(&self.members, *user_id),
            ),
            Query::SessionOf { user_id } => Event::Session(self.sessions.get_by_account(*user_id)),
            Query::RecordOf { email } => Event::Record(self.records.get(email.as_str())),
            Query::MemberRole { user_id } => Event::MemberRole(
                match get_guild_member_from_user(&self.members, *user_id) {
                    Some(member) => Some(member.has_role(self.verified_role)),
                    None => None,
                },
            ),
        }
    }

    /// Grants the verified role to every entry of the account.
    fn grant_verified_role(&mut self, user_id: u64)
        ensures
            final(self).members.deep_view() == granted_to(
                old(self).members.deep_view(),
                user_id,
                old(self).verified_role,
            ),
            final(self).records == old(self).records,
            final(self).sessions == old(self).sessions,
            final(self).verified_role == old(self).verified_role,
    {
        let ghost before = self.members.deep_view();
        let ghost wanted = granted_to(before, user_id, self.verified_role);
        let mut updated: Vec<Member> = Vec::new();
        let mut i: usize = 0;
        assert(updated.deep_view() =~= wanted.take(0));
        while i < self.members.len()
            invariant
                i <= self.members.len(),
                self.members.deep_view() == before,
                self.records == old(self).records,
                self.sessions == old(self).sessions,
                self.verified_role == old(self).verified_role,
                wanted == granted_to(before, user_id, self.verified_role),
                updated.deep_view() == wanted.take(i as int),
            decreases self.members.len() - i,
        {
            let mut member = self.members[i].clone();
            assert(member@ == before[i as int]);
            let ghost so_far = updated.deep_view();
            if member.user_id == user_id {
                member.grant(self.verified_role);
            }
            updated.push(member);
            i = i + 1;
            assert(updated.deep_view() =~= so_far.push(member@));
            assert(updated.deep_view() =~= wanted.take(i as int));
        }
        assert(wanted.take(self.members.len() as int) =~= wanted);
        self.members = updated;
    }

    /// Carries an outcome out on the state. The state stays well formed
    /// where it admits the outcome.
    pub fn carry_out(&mut self, outcome: &Outcome)
        ensures
            final(self)@ == old(self)@.carried_out(outcome@),
            old(self).wf() && old(self)@.admits(outcome@) ==> final(self).wf(),
    {
        proof {
            if old(self).wf() {
                lemma_without_keeps_keys(old(self)@.sessions, None, None);
                if outcome@ is Cancelled {
                    lemma_without_keeps_keys(
                        old(self)@.sessions,
                        None,
                        Some(outcome@->Cancelled_user_id),
                    );
                }
                if outcome@ is Issue && old(self)@.admits(outcome@) {
                    lemma_with_session(old(self)@.sessions, outcome@->Issue_session);
                }
            }
        }
        match outcome {
            Outcome::Issue { session } => {
                self.sessions.upsert(session.clone());
            },
            Outcome::Cancelled { user_id } => {
                let _ = self.sessions.delete_by_account(*user_id);
            },
            Outcome::Expired { email } => {
                let _ = self.sessions.delete(email.as_str());
            },
            Outcome::Verified { email, user_id, grant_role } => {
                let _ = self.sessions.delete(email.as_str());
                let _ = self.records.set_account_link(email.as_str(), Some(*user_id));
                if *grant_role {
                    self.grant_verified_role(*user_id);
                }
            },
            _ => {},
        }
    }

    /// Sees a conversation through: answers what it asks until it is done.
    fn run(&self, conv: Conversation, next: Next, now: u64, code: u64, fuel: u8) -> (outcome: Outcome)
        requires
            self.wf(),
        ensures
            outcome@ == self@.run(conv@, next@, now, code, fuel as nat),
    {
        let mut current = conv;
        let mut pending = next;
        let mut left = fuel;
        loop
            invariant
                self.wf(),
                self@.run(current@, pending@, now, code, left as nat) == self@.run(
                    conv@,
                    next@,
                    now,
                    code,
                    fuel as nat,
                ),
            decreases left,
        {
            match pending {
                Next::Done(outcome) => {
                    return outcome;
                },
                Next::Ask(query) => {
                    if left == 0 {
                        return Outcome::Aborted;
                    }
                    let event = self.answer(&query);
                    let step = handle_verification_message_at(current, event, now, code);
                    current = step.0;
                    pending = step.1;
                    left = left - 1;
                },
            }
        }
    }

    /// Starts a conversation at a stage, sees it through and carries out its
    /// outcome.
    fn process(&mut self, message: IncomingMessage, stage: Stage, now: u64, code: u64) -> (outcome:
        Outcome)
        requires
            old(self).wf(),
        ensures
            outcome@ == old(self)@.outcome(message@, stage@, now, code),
            final(self)@ == old(self)@.carried_out(outcome@),
            old(self)@.admits(outcome@) ==> final(self).wf(),
    {
        let conv = Conversation { message, stage };
        let step = handle_verification_message_at(conv, Event::Start, now, code);
        let outcome = self.run(step.0, step.1, now, code, 6);
        self.carry_out(&outcome);
        outcome
    }

    /// Handles a message that arrives when the clock reads `now`, with `code`
    /// for a session that it issues. Returns what came of it; the state has
    /// then changed accordingly.
    pub fn deliver_at(&mut self, message: IncomingMessage, now: u64, code: u64) -> (outcome: Outcome)
        requires
            old(self).wf(),
        ensures
            outcome@ == old(self)@.delivered(message@, now, code),
            final(self)@ == old(self)@.carried_out(outcome@),
            final(self).wf(),
    {
        proof {
            lemma_flow_keeps_one_session_per_account(self@, message@, now, code);
        }
        self.process(message, Stage::Received, now, code)
    }

    /// Takes a message as a code to confirm, when the clock reads `now`.
    pub fn confirm_at(&mut self, message: IncomingMessage, now: u64) -> (outcome: Outcome)
        requires
            old(self).wf(),
        ensures
            outcome@ == old(self)@.confirmed(message@, now),
            final(self)@ == old(self)@.carried_out(outcome@),
            final(self).wf(),
    {
        proof {
            lemma_flow_keeps_one_session_per_account(self@, message@, now, 0);
        }
        self.process(message, Stage::ConfirmReceived, now, 0)
    }

    /// Takes a message as an email to register, when the clock reads `now`,
    /// with `code` for the session. Whether the author holds a session is not
    /// looked up here: the state stays well formed where the author holds
    /// none.
    pub fn issue_at(&mut self, message: IncomingMessage, now: u64, code: u64) -> (outcome: Outcome)
        requires
            old(self).wf(),
        ensures
            outcome@ == old(self)@.issued(message@, now, code),
            final(self)@ == old(self)@.carried_out(outcome@),
            !holds_session(old(self)@.sessions, message@.author_id) ==> final(self).wf(),
    {
        proof {
            lemma_flow_keeps_one_session_per_account(self@, message@, now, code);
        }
        self.process(message, Stage::IssueReceived, now, code)
    }

    /// Handles a message that arrives now: the clock is read, and a code is
    /// drawn for a session that the message may start.
    pub fn deliver(&mut self, message: IncomingMessage) -> (outcome: Outcome)
        requires
            old(self).wf(),
        ensures
            exists|now: u64, code: u64|
                is_seven_digit_code(code) && outcome@ == #[trigger] old(self)@.delivered(
                    message@,
                    now,
                    code,
                ),
            final(self)@ == old(self)@.carried_out(outcome@),
            final(self).wf(),
    {
        let now = current_timestamp();
        let code = generate_code();
        self.deliver_at(message, now, code)
    }
}

/// The most questions that a conversation at a stage can still ask.
pub open spec fn questions_left(stage: StageView) -> nat {
    match stage {
        StageView::Received => 5,
        StageView::AwaitMembership => 4,
        StageView::AwaitSession => 3,
        StageView::IssueReceived => 2,
        StageView::IssueAwaitRecord { .. } => 1,
        StageView::IssueAwaitLinked { .. } => 0,
        StageView::ConfirmReceived => 3,
        StageView::ConfirmAwaitSession => 2,
        StageView::ConfirmAwaitRecord { .. } => 1,
        StageView::ConfirmAwaitMember { .. } => 0,
        StageView::Closed => 0,
    }
}

/// A step that asks a question leaves fewer questions to ask.
pub proof fn lemma_step_uses_a_question(
    conv: ConversationView,
    event: EventView,
    now: u64,
    code: u64,
)
    ensures
        message_step(conv, event, now, code).1 is Ask ==> questions_left(
            message_step(conv, event, now, code).0.stage,
        ) < questions_left(conv.stage),
{
}

/// A conversation comes to its outcome within as many answers as its stage
/// has questions left, and one more for a question that is open: more fuel
/// than that changes nothing.
pub proof fn lemma_run_ends(
    world: CommunityView,
    conv: ConversationView,
    next: NextView,
    now: u64,
    code: u64,
    fuel: nat,
    more: nat,
)
    requires
        fuel > questions_left(conv.stage),
        more >= fuel,
    ensures
        world.run(conv, next, now, code, more) == world.run(conv, next, now, code, fuel),
    decreases fuel,
{
    match next {
        NextView::Done(_) => {},
        NextView::Ask(query) => {
            let step = message_step(conv, world.answer(query), now, code);
            lemma_step_uses_a_question(conv, world.answer(query), now, code);
            if step.1 is Ask {
                lemma_run_ends(
                    world,
                    step.0,
                    step.1,
                    now,
                    code,
                    (fuel - 1) as nat,
                    (more - 1) as nat,
                );
            } else {
                assert(world.run(step.0, step.1, now, code, (fuel - 1) as nat) == world.run(
                    step.0,
                    step.1,
                    now,
                    code,
                    (more - 1) as nat,
                ));
            }
        },
    }
}

/// No conversation asks more than five questions: the outcome of a message
/// is the one that any longer patience comes to.
pub proof fn lemma_outcome_is_final(
    world: CommunityView,
    message: IncomingMessageView,
    stage: StageView,
    now: u64,
    code: u64,
    patience: nat,
)
    requires
        patience >= 6,
    ensures
        ({
            let step = message_step(
                ConversationView { message, stage },
                EventView::Start,
                now,
                code,
            );
            world.run(step.0, step.1, now, code, patience) == world.outcome(
                message,
                stage,
                now,
                code,
            )
        }),
{
    let conv = ConversationView { message, stage };
    let step = message_step(conv, EventView::Start, now, code);
    lemma_step_uses_a_question(conv, EventView::Start, now, code);
    if step.1 is Ask {
        lemma_run_ends(world, step.0, step.1, now, code, 6, patience);
    } else {
        assert(world.run(step.0, step.1, now, code, patience) == world.run(
            step.0,
            step.1,
            now,
            code,
            6,
        ));
    }
}

/// A session that is issued is then the one pending session of its account:
/// the account held none before, and the session carries the account, the
/// code and the stamp that the step was given.
pub proof fn lemma_issue_starts_a_session(
    world: CommunityView,
    message: IncomingMessageView,
    now: u64,
    code: u64,
)
    requires
        well_keyed(world.sessions),
        world.delivered(message, now, code) is Issue,
    ensures
        ({
            let session = world.delivered(message, now, code)->Issue_session;
            let after = world.carried_out(world.delivered(message, now, code));
            &&& !holds_session(world.sessions, message.author_id)
            &&& address_verdict(message.content) == Ok::<Seq<char>, NoticeView>(session.email)
            &&& session.discord_id == message.author_id
            &&& session.code == code
            &&& session.timestamp == now
            &&& session_of(after.sessions, message.author_id) == Some(session)
            &&& well_keyed(after.sessions)
            &&& after.records == world.records
            &&& after.members == world.members
        }),
{
    reveal_with_fuel(CommunityView::run, 7);
    let session = world.delivered(message, now, code)->Issue_session;
    lemma_with_session(world.sessions, session);
}

/// The message flow keeps one session to an account: after a message that
/// arrives, and after a message taken as a code, the sessions are well keyed
/// as they were before; so they are after a message taken as an email, where
/// its author held no session. For each of these ends in an outcome that the
/// state admits, and an admitted outcome, carried out, leaves the sessions
/// well keyed.
pub proof fn lemma_flow_keeps_one_session_per_account(
    world: CommunityView,
    message: IncomingMessageView,
    now: u64,
    code: u64,
)
    requires
        well_keyed(world.sessions),
    ensures
        well_keyed(world.carried_out(world.delivered(message, now, code)).sessions),
        well_keyed(world.carried_out(world.confirmed(message, now)).sessions),
        !holds_session(world.sessions, message.author_id) ==> well_keyed(
            world.carried_out(world.issued(message, now, code)).sessions,
        ),
        world.admits(world.delivered(message, now, code)),
        world.admits(world.confirmed(message, now)),
        !holds_session(world.sessions, message.author_id) ==> world.admits(
            world.issued(message, now, code),
        ),
        forall|outcome: OutcomeView| #[trigger]
            world.admits(outcome) ==> well_keyed(world.carried_out(outcome).sessions),
{
    reveal_with_fuel(CommunityView::run, 7);
    assert forall|outcome: OutcomeView| #[trigger] world.admits(outcome) implies well_keyed(
        world.carried_out(outcome).sessions,
    ) by {
        lemma_without_keeps_keys(world.sessions, None, None);
        match outcome {
            OutcomeView::Issue { session } => {
                lemma_with_session(world.sessions, session);
            },
            OutcomeView::Cancelled { user_id } => {
                lemma_without_keeps_keys(world.sessions, None, Some(user_id));
            },
            _ => {},
        }
    }
}

/// The message `quit` of a member who holds a session cancels the session,
/// expired or not: the account then holds none, and nothing else changes.
pub proof fn lemma_quit_cancels(
    world: CommunityView,
    message: IncomingMessageView,
    now: u64,
    code: u64,
)
    requires
        well_keyed(world.sessions),
        !message.author_is_bot,
        !message.in_guild,
        is_member(world.members, message.author_id),
        holds_session(world.sessions, message.author_id),
        message.content == "quit"@,
    ensures
        ({
            let outcome = world.delivered(message, now, code);
            let after = world.carried_out(outcome);
            &&& outcome == OutcomeView::Cancelled { user_id: message.author_id }
            &&& !holds_session(after.sessions, message.author_id)
            &&& after.records == world.records
            &&& after.members == world.members
        }),
{
    reveal_with_fuel(CommunityView::run, 7);
    let email = choose|email: Seq<char>| #[trigger]
        world.sessions.contains_key(email) && world.sessions[email].discord_id
            == message.author_id;
    lemma_session_gone(world.sessions, email);
}

/// An outcome that turns a message away, ignores it or aborts leaves the
/// state as it is.
pub proof fn lemma_rejection_changes_nothing(world: CommunityView, outcome: OutcomeView)
    requires
        outcome is Rejected || outcome is Ignored || outcome is Aborted,
    ensures
        world.carried_out(outcome) == world,
{
}

/// Granting a role to an account keeps every member's place, and the
/// account's first member then holds the role.
pub proof fn lemma_granted_to(members: Seq<MemberView>, user_id: u64, role: u64)
    ensures
        forall|other: u64|
            first_member(granted_to(members, user_id, role), other) == #[trigger] first_member(
                members,
                other,
            ),
        is_member(members, user_id) ==> (member_of(granted_to(members, user_id, role), user_id)
            matches Some(member) && member.has_role(role)),
{
    let after = granted_to(members, user_id, role);
    assert forall|other: u64|
        first_member(after, other) == #[trigger] first_member(members, other) by {
        lemma_first_member(members, other);
        let place = first_member(members, other);
        assert forall|j: int| 0 <= j < place implies (#[trigger] after[j]).user_id != other by {
            assert(members[j].user_id != other);
        }
        lemma_first_member_is(after, other, place);
    }
    if is_member(members, user_id) {
        lemma_first_member(members, user_id);
        lemma_granted_and_revoked(members[first_member(members, user_id)], role);
    }
}

/// A session is issued only for an email that the roster holds a record of:
/// whatever a message says, in whatever state it arrives.
pub proof fn lemma_issue_needs_record(
    world: CommunityView,
    message: IncomingMessageView,
    now: u64,
    code: u64,
)
    ensures
        world.issued(message, now, code) matches OutcomeView::Issue { session }
            ==> world.records.contains_key(session.email),
        world.delivered(message, now, code) matches OutcomeView::Issue { session }
            ==> world.records.contains_key(session.email),
{
    reveal_with_fuel(CommunityView::run, 7);
}

/// Registering an email that the roster holds no record of fails validation,
/// with the notice that the email is not registered, and changes nothing: no
/// session is created.
pub proof fn lemma_unknown_email_creates_no_session(
    world: CommunityView,
    message: IncomingMessageView,
    now: u64,
    code: u64,
)
    requires
        address_verdict(message.content) matches Ok(email) && !world.records.contains_key(email),
    ensures
        world.issued(message, now, code) == OutcomeView::Rejected(NoticeView::NotRegistered),
        NoticeView::NotRegistered.failure_kind() == Some(FailureKind::ValidationFailure),
        world.carried_out(world.issued(message, now, code)) == world,
        !message.author_is_bot && !message.in_guild && is_member(world.members, message.author_id)
            && !holds_session(world.sessions, message.author_id) ==> world.delivered(
            message,
            now,
            code,
        ) == OutcomeView::Rejected(NoticeView::NotRegistered),
{
    reveal_with_fuel(CommunityView::run, 7);
}

/// A session whose age exceeds its time to live ends expired when its account
/// confirms a code, whatever the message says, and is then gone; the records
/// and the members stay as they are. A private message of a member does the
/// same, unless it is `quit`, which cancels the session: the session is gone
/// either way.
pub proof fn lemma_expired_session_is_purged(
    world: CommunityView,
    message: IncomingMessageView,
    now: u64,
    code: u64,
)
    requires
        well_keyed(world.sessions),
        session_of(world.sessions, message.author_id) matches Some(session) && session.is_expired(
            now,
        ),
    ensures
        ({
            let session = session_of(world.sessions, message.author_id)->0;
            let outcome = world.confirmed(message, now);
            let after = world.carried_out(outcome);
            &&& outcome == OutcomeView::Expired { email: session.email }
            &&& !after.sessions.contains_key(session.email)
            &&& session_of(after.sessions, message.author_id) is None
            &&& after.records == world.records
            &&& after.members == world.members
        }),
        !message.author_is_bot && !message.in_guild && is_member(world.members, message.author_id)
            ==> ({
            let session = session_of(world.sessions, message.author_id)->0;
            let outcome = world.delivered(message, now, code);
            let after = world.carried_out(outcome);
            &&& outcome == (if message.content == "quit"@ {
                OutcomeView::Cancelled { user_id: message.author_id }
            } else {
                OutcomeView::Expired { email: session.email }
            })
            &&& !after.sessions.contains_key(session.email)
            &&& session_of(after.sessions, message.author_id) is None
        }),
{
    reveal_with_fuel(CommunityView::run, 7);
    let author = message.author_id;
    let session = session_of(world.sessions, author)->0;
    let email = choose|email: Seq<char>| #[trigger]
        world.sessions.contains_key(email) && world.sessions[email].discord_id == author;
    assert(session.email == email);
    lemma_session_gone(world.sessions, email);
}

/// In a well-keyed table, the account of a session holds no session once that
/// session is deleted, by its email or by its account.
pub proof fn lemma_session_gone(sessions: Sessions, email: Seq<char>)
    requires
        well_keyed(sessions),
        sessions.contains_key(email),
    ensures
        !holds_session(sessions.remove(email), sessions[email].discord_id),
        !holds_session(
            without(sessions, None, Some(sessions[email].discord_id)),
            sessions[email].discord_id,
        ),
        !without(sessions, None, Some(sessions[email].discord_id)).contains_key(email),
{
    let id = sessions[email].discord_id;
    if holds_session(sessions.remove(email), id) {
        let other = choose|e: Seq<char>| #[trigger]
            sessions.remove(email).contains_key(e) && sessions.remove(email)[e].discord_id == id;
        assert(sessions.contains_key(other));
    }
}

/// Confirmation and reconciliation agree: for a member who has just been
/// verified, a reconciliation pass has nothing to correct, whatever the policy
/// allows.
pub proof fn lemma_verified_member_is_kept(
    world: CommunityView,
    message: IncomingMessageView,
    now: u64,
    policy: ReconcilePolicy,
)
    requires
        message.author_id != 0,
        world.confirmed(message, now) is Verified,
        member_of(world.members, message.author_id) matches Some(member) && !member.bot,
    ensures
        ({
            let outcome = world.confirmed(message, now);
            let after = world.carried_out(outcome);
            let member = member_of(after.members, message.author_id);
            let record = record_at(after.records, outcome->Verified_email);
            &&& member is Some
            &&& record is Some
            &&& record->0.is_verified(policy.link_required)
            &&& decide(member->0, after.verified_role, record, policy) == RoleDecision::Keep
        }),
{
    reveal_with_fuel(CommunityView::run, 7);
    lemma_granted_to(world.members, message.author_id, world.verified_role);
    lemma_first_member(world.members, message.author_id);
}

/// A session confirmed with its code before it expires ends verified: the
/// session is deleted, the record of its email is linked to the account, and
/// the account's member holds the verified role. Confirming again, at any
/// time after, reports that there is no active session and changes nothing.
pub proof fn lemma_confirm_then_confirm_again(
    world: CommunityView,
    message: IncomingMessageView,
    now: u64,
    later: u64,
)
    requires
        well_keyed(world.sessions),
        session_of(world.sessions, message.author_id) matches Some(session) && !session.is_expired(
            now,
        ) && parse_unsigned(message.content) == Some(session.code) && (record_at(
            world.records,
            session.email,
        ) matches Some(record) && record.meets_roster_criteria()),
        is_member(world.members, message.author_id),
    ensures
        ({
            let author = message.author_id;
            let session = session_of(world.sessions, author)->0;
            let first = world.confirmed(message, now);
            let after = world.carried_out(first);
            let second = after.confirmed(message, later);
            &&& first is Verified
            &&& first->Verified_email == session.email
            &&& first->Verified_user_id == author
            &&& first->Verified_grant_role == !(member_of(world.members, author)->0).has_role(
                world.verified_role,
            )
            &&& !after.sessions.contains_key(session.email)
            &&& session_of(after.sessions, author) is None
            &&& record_at(after.records, session.email) == Some(
                world.records[session.email].with_link(Some(author)),
            )
            &&& (member_of(after.members, author) matches Some(member) && member.has_role(
                after.verified_role,
            ))
            &&& second == OutcomeView::Rejected(NoticeView::NoActiveSession)
            &&& after.carried_out(second) == after
        }),
{
    reveal_with_fuel(CommunityView::run, 7);
    let author = message.author_id;
    let session = session_of(world.sessions, author)->0;
    let email = choose|email: Seq<char>| #[trigger]
        world.sessions.contains_key(email) && world.sessions[email].discord_id == author;
    assert(session.email == email);
    lemma_session_gone(world.sessions, email);
    lemma_granted_to(world.members, author, world.verified_role);
    lemma_first_member(world.members, author);
    let record = world.records[session.email];
    assert(!MissingCriteria::of(record).any());
}

} // verus!
