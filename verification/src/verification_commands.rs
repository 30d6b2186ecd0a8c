//! The operators' and members' commands on account links: relinking an email
//! by hand, unlinking one's own account, asking for a member's status, and
//! starting a reconciliation pass.
//!
//! A command reaches the store and the platform between its decisions, as a
//! message does: relinking is a conversation of its own, in steps from a
//! stage and an event to the next stage and what to do.

use crate::embeds::{default_embed, default_embed_view, Embed, EmbedView, GuelphColors};
use crate::verification_db::{Verification, VerificationView};
use crate::verification_discord::{
    add_error_fields, embed_error_view, generate_embed_error, missing_criteria,
    with_error_fields, MissingCriteria,
};
use vstd::prelude::*;
use vstd::string::*;

verus! {

/// What the operator answered when asked to confirm a relink.
#[derive(Clone, Copy, Debug, PartialEq, Eq, Structural)]
pub enum LinkChoice {
    Yes,
    No,
    /// Any other answer.
    Other,
}

/// Where a relink stands.
#[derive(Clone, Copy, Debug, PartialEq, Eq, Structural)]
pub enum LinkStage {
    /// The command arrived and nothing was asked.
    Received,
    /// Asked for the record of the email.
    AwaitRecord,
    /// Asked the operator to confirm; `previous` is the account that the
    /// record is linked to so far.
    AwaitChoice { previous: Option<u64> },
    /// Asked whether the account linked so far is still a member.
    AwaitPrevious { previous: u64 },
    /// The relink is over.
    Closed,
}

/// A relink of one email: to the account `target`, or to none.
#[derive(Clone, Copy, Debug, PartialEq, Eq, Structural)]
pub struct LinkCommand {
    pub target: Option<u64>,
    pub stage: LinkStage,
}

/// What a relink needs to learn before it can go on.
#[derive(Clone, Copy, Debug, PartialEq, Eq, Structural)]
pub enum LinkQuery {
    /// Which record does the roster hold of the command's email?
    Record,
    /// Does the operator confirm? With `replaces`, the operator is warned
    /// that the link to that account will be replaced.
    Confirm { replaces: Option<u64> },
    /// Is the account a member of the community?
    IsMember { user_id: u64 },
}

/// What a relink has just learned.
#[derive(Debug, PartialEq, Eq)]
pub enum LinkEvent {
    /// The command arrived. `permitted`: the operator holds one of the roles
    /// that may relink. `has_verified_role`: the community has a verified
    /// role.
    Start { permitted: bool, has_verified_role: bool },
    /// The answer to [`LinkQuery::Record`].
    Record(Option<Verification>),
    /// The answer to [`LinkQuery::Confirm`]: nothing where the operator did
    /// not answer in time.
    Choice(Option<LinkChoice>),
    /// The answer to [`LinkQuery::IsMember`].
    IsMember(bool),
}

/// What a [`LinkEvent`] holds, as mathematical values.
pub ghost enum LinkEventView {
    Start { permitted: bool, has_verified_role: bool },
    Record(Option<VerificationView>),
    Choice(Option<LinkChoice>),
    IsMember(bool),
}

impl View for LinkEvent {
    type V = LinkEventView;

    open spec fn view(&self) -> LinkEventView {
        match self {
            LinkEvent::Start { permitted, has_verified_role } => LinkEventView::Start {
                permitted: *permitted,
                has_verified_role: *has_verified_role,
            },
            LinkEvent::Record(record) => LinkEventView::Record(record.deep_view()),
            LinkEvent::Choice(choice) => LinkEventView::Choice(*choice),
            LinkEvent::IsMember(member) => LinkEventView::IsMember(*member),
        }
    }
}

/// How a relink ends.
#[derive(Clone, Copy, Debug, PartialEq, Eq, Structural)]
pub enum LinkOutcome {
    /// The operator may not relink, or the community has no verified role, or
    /// the answer was not understood: nothing is done and nobody is told.
    Ignored,
    /// The roster holds no record of the email: the operator is told.
    UnknownEmail,
    /// The operator did not answer in time: the operator is told.
    Expired,
    /// The operator declined: the operator is told.
    Cancelled,
    /// The operator confirmed: set the account link of the email's record to
    /// `target`, then reconcile the roles of the accounts `target` and
    /// `previous`, as far as they are named, and tell the operator.
    /// `previous` is the account linked before, where it is still a member
    /// and another than `target`.
    Linked { target: Option<u64>, previous: Option<u64> },
    /// The event does not answer what the relink had asked: nothing is done.
    Aborted,
}

/// What the caller does next.
#[derive(Clone, Copy, Debug, PartialEq, Eq, Structural)]
pub enum LinkNext {
    Ask(LinkQuery),
    Done(LinkOutcome),
}

/// The relink moved to `stage`, asking `query`.
pub open spec fn link_ask(command: LinkCommand, stage: LinkStage, query: LinkQuery) -> (
    LinkCommand,
    LinkNext,
) {
    (LinkCommand { stage, ..command }, LinkNext::Ask(query))
}

/// The relink closed with `outcome`.
pub open spec fn link_done(command: LinkCommand, outcome: LinkOutcome) -> (LinkCommand, LinkNext) {
    (LinkCommand { stage: LinkStage::Closed, ..command }, LinkNext::Done(outcome))
}

/// The account that a record is linked to, where it names one.
pub open spec fn linked_account(record: VerificationView) -> Option<u64> {
    if record.is_linked() {
        record.discord_id
    } else {
        None
    }
}

/// One step of a relink.
///
/// Only an operator who is permitted relinks, and only in a community with a
/// verified role. The roster must hold a record of the email. The operator is
/// asked to confirm, with a warning where the record is linked already. On
/// `Yes` the link is set, and the roles of the new account and of the account
/// linked before are to be reconciled, the latter only while it is a member.
pub open spec fn link_step(command: LinkCommand, event: LinkEventView) -> (LinkCommand, LinkNext) {
    match (command.stage, event) {
        (LinkStage::Received, LinkEventView::Start { permitted, has_verified_role }) => if permitted
            && has_verified_role {
            link_ask(command, LinkStage::AwaitRecord, LinkQuery::Record)
        } else {
            link_done(command, LinkOutcome::Ignored)
        },
        (LinkStage::AwaitRecord, LinkEventView::Record(None)) => link_done(
            command,
            LinkOutcome::UnknownEmail,
        ),
        (LinkStage::AwaitRecord, LinkEventView::Record(Some(record))) => link_ask(
            command,
            LinkStage::AwaitChoice { previous: linked_account(record) },
            LinkQuery::Confirm { replaces: linked_account(record) },
        ),
        (LinkStage::AwaitChoice { previous }, LinkEventView::Choice(None)) => link_done(
            command,
            LinkOutcome::Expired,
        ),
        (LinkStage::AwaitChoice { previous }, LinkEventView::Choice(Some(choice))) => match choice {
            LinkChoice::No => link_done(command, LinkOutcome::Cancelled),
            LinkChoice::Other => link_done(command, LinkOutcome::Ignored),
            LinkChoice::Yes => match previous {
                Some(linked) => if Some(linked) == command.target {
                    link_done(
                        command,
                        LinkOutcome::Linked { target: command.target, previous: None },
                    )
                } else {
                    link_ask(
                        command,
                        LinkStage::AwaitPrevious { previous: linked },
                        LinkQuery::IsMember { user_id: linked },
                    )
                },
                None => link_done(
                    command,
                    LinkOutcome::Linked { target: command.target, previous: None },
                ),
            },
        },
        (LinkStage::AwaitPrevious { previous }, LinkEventView::IsMember(still_member)) => link_done(
            command,
            LinkOutcome::Linked {
                target: command.target,
                previous: if still_member {
                    Some(previous)
                } else {
                    None
                },
            },
        ),
        _ => link_done(command, LinkOutcome::Aborted),
    }
}

impl LinkCommand {
    /// A relink that just arrived.
    pub fn new(target: Option<u64>) -> (command: LinkCommand)
        ensures
            command == (LinkCommand { target, stage: LinkStage::Received }),
    {
        LinkCommand { target, stage: LinkStage::Received }
    }
}

/// Changes the account that an email is linked to: one step of the relink.
pub fn link(command: LinkCommand, event: LinkEvent) -> (step: (LinkCommand, LinkNext))
    ensures
        step == link_step(command, event@),
{
    let target = command.target;
    let closed = LinkCommand { target, stage: LinkStage::Closed };
    match (command.stage, event) {
        (LinkStage::Received, LinkEvent::Start { permitted, has_verified_role }) => {
            if permitted && has_verified_role {
                (LinkCommand { target, stage: LinkStage::AwaitRecord }, LinkNext::Ask(LinkQuery::Record))
            } else {
                (closed, LinkNext::Done(LinkOutcome::Ignored))
            }
        },
        (LinkStage::AwaitRecord, LinkEvent::Record(None)) => (
            closed,
            LinkNext::Done(LinkOutcome::UnknownEmail),
        ),
        (LinkStage::AwaitRecord, LinkEvent::Record(Some(record))) => {
            let previous = if record.is_linked() {
                record.discord_id
            } else {
                None
            };
            (
                LinkCommand { target, stage: LinkStage::AwaitChoice { previous } },
                LinkNext::Ask(LinkQuery::Confirm { replaces: previous }),
            )
        },
        (LinkStage::AwaitChoice { previous }, LinkEvent::Choice(None)) => (
            closed,
            LinkNext::Done(LinkOutcome::Expired),
        ),
        (LinkStage::AwaitChoice { previous }, LinkEvent::Choice(Some(choice))) => match choice {
            LinkChoice::No => (closed, LinkNext::Done(LinkOutcome::Cancelled)),
            LinkChoice::Other => (closed, LinkNext::Done(LinkOutcome::Ignored)),
            LinkChoice::Yes => match previous {
                Some(linked) => {
                    if Some(linked) == target {
                        (closed, LinkNext::Done(LinkOutcome::Linked { target, previous: None }))
                    } else {
                        (
                            LinkCommand { target, stage: LinkStage::AwaitPrevious { previous: linked } },
                            LinkNext::Ask(LinkQuery::IsMember { user_id: linked }),
                        )
                    }
                },
                None => (closed, LinkNext::Done(LinkOutcome::Linked { target, previous: None })),
            },
        },
        (LinkStage::AwaitPrevious { previous }, LinkEvent::IsMember(still_member)) => {
            let previous = if still_member {
                Some(previous)
            } else {
                None
            };
            (closed, LinkNext::Done(LinkOutcome::Linked { target, previous }))
        },
        (_, _) => (closed, LinkNext::Done(LinkOutcome::Aborted)),
    }
}

/// The accounts whose roles a relink leaves to reconcile: the new account and
/// the one linked before, each once.
pub open spec fn accounts_to_reconcile(target: Option<u64>, previous: Option<u64>) -> Seq<u64> {
    let first = match target {
        Some(account) => seq![account],
        None => Seq::empty(),
    };
    match previous {
        Some(account) => if target == Some(account) {
            first
        } else {
            first.push(account)
        },
        None => first,
    }
}

impl LinkOutcome {
    /// The accounts whose roles are to be reconciled after this outcome.
    pub fn changed_accounts(&self) -> (accounts: Vec<u64>)
        ensures
            accounts@ == (match *self {
                LinkOutcome::Linked { target, previous } => accounts_to_reconcile(target, previous),
                _ => Seq::empty(),
            }),
    {
        let mut accounts: Vec<u64> = Vec::new();
        match *self {
            LinkOutcome::Linked { target, previous } => {
                match target {
                    Some(account) => {
                        accounts.push(account);
                    },
                    None => {},
                }
                match previous {
                    Some(account) => {
                        if target != Some(account) {
                            accounts.push(account);
                        }
                    },
                    None => {},
                }
                assert(accounts@ =~= accounts_to_reconcile(target, previous));
            },
            _ => {},
        }
        accounts
    }
}

/// The question that an operator is asked before a relink, with a warning
/// where a link is replaced. `replaced` describes the account linked so far.
pub open spec fn link_prompt_view(replaced: Option<Seq<char>>) -> EmbedView {
    let question = default_embed_view(GuelphColors::Blue).described(
        "Are you sure you want to do this?"@,
    );
    match replaced {
        Some(who) => question.with_field(
            "WARNING"@,
            "You will be replacing an existing link to user: "@ + who,
            false,
        ).coloured(GuelphColors::Red),
        None => question,
    }
}

/// The question that an operator is asked before a relink.
pub fn link_prompt(replaced: Option<&str>) -> (embed: Embed)
    ensures
        embed@ == link_prompt_view(
            match replaced {
                Some(who) => Some(who@),
                None => None,
            },
        ),
{
    let question = default_embed(GuelphColors::Blue).description("Are you sure you want to do this?");
    match replaced {
        Some(who) => {
            let mut warning = "You will be replacing an existing link to user: ".to_owned();
            warning.append(who);
            question.field("WARNING", warning.as_str(), false).colour(GuelphColors::Red)
        },
        None => question,
    }
}

/// How a member's request to unlink the own account ends.
#[derive(Clone, Copy, Debug, PartialEq, Eq, Structural)]
pub enum UnlinkOutcome {
    /// A record was unlinked. With `reconcile` the member's roles are to be
    /// reconciled and the member is told; without it the account is no
    /// member any more, and nothing else is done.
    Unlinked { reconcile: bool },
    /// No record was linked to the account: the member is told.
    NothingLinked,
    /// The store failed: the member is told of an internal error.
    InternalError,
}

/// Whether a command given in the guild `command_guild` is one of the home
/// community `home_guild`: unlinking is taken from there only.
pub fn unlink_allowed(command_guild: Option<u64>, home_guild: u64) -> (allowed: bool)
    ensures
        allowed == (command_guild == Some(home_guild)),
{
    match command_guild {
        Some(guild) => guild == home_guild,
        None => false,
    }
}

/// Unlink your account from your email: what follows once the store was told
/// to unlink the account. `updated` is the number of records that the store
/// unlinked, or nothing where the store failed; `author_is_member` says
/// whether the account is still a member.
pub fn unlink(updated: Option<usize>, author_is_member: bool) -> (outcome: UnlinkOutcome)
    ensures
        outcome == (match updated {
            None => UnlinkOutcome::InternalError,
            Some(amount) => if amount > 0 {
                UnlinkOutcome::Unlinked { reconcile: author_is_member }
            } else {
                UnlinkOutcome::NothingLinked
            },
        }),
{
    match updated {
        None => UnlinkOutcome::InternalError,
        Some(amount) => {
            if amount > 0 {
                UnlinkOutcome::Unlinked { reconcile: author_is_member }
            } else {
                UnlinkOutcome::NothingLinked
            }
        },
    }
}

/// What the roster says of one member.
#[derive(Clone, Copy, Debug, PartialEq, Eq, Structural)]
pub enum Status {
    /// No record is linked to the member's account.
    NotLinked,
    /// The member's record fails these roster criteria.
    Unmet(MissingCriteria),
    /// The member's record meets the roster criteria.
    Verified,
}

/// The status that a record gives, or the lack of one.
pub open spec fn status_of(record: Option<VerificationView>) -> Status {
    match record {
        None => Status::NotLinked,
        Some(r) => if r.meets_roster_criteria() {
            Status::Verified
        } else {
            Status::Unmet(MissingCriteria::of(r))
        },
    }
}

/// Get the verification status of a member, from the record that is linked to
/// the member's account.
pub fn status(record: Option<&Verification>) -> (status: Status)
    ensures
        status == status_of(record.deep_view()),
{
    match record {
        None => Status::NotLinked,
        Some(r) => {
            let missing = missing_criteria(r);
            if missing.is_any() {
                Status::Unmet(missing)
            } else {
                Status::Verified
            }
        },
    }
}

/// The embed that tells a status. `who` names the member.
pub open spec fn status_embed_view(status: Status, who: Seq<char>) -> EmbedView {
    let unverified = embed_error_view().described(who + " is not verified in our system."@).with_field(
        "Does not exist"@,
        "User has not yet linked their discord account to their UofG email"@,
        false,
    );
    match status {
        Status::Verified => default_embed_view(GuelphColors::Blue).described(
            who + " is verified in our system."@,
        ),
        Status::Unmet(missing) => with_error_fields(unverified, missing),
        Status::NotLinked => unverified,
    }
}

/// The embed that tells a status. `who` names the member.
pub fn status_embed(status: Status, who: &str) -> (embed: Embed)
    ensures
        embed@ == status_embed_view(status, who@),
{
    match status {
        Status::Verified => {
            let mut text = who.to_owned();
            text.append(" is verified in our system.");
            default_embed(GuelphColors::Blue).description(text.as_str())
        },
        _ => {
            let mut text = who.to_owned();
            text.append(" is not verified in our system.");
            let unverified = generate_embed_error().description(text.as_str()).field(
                "Does not exist",
                "User has not yet linked their discord account to their UofG email",
                false,
            );
            match status {
                Status::Unmet(missing) => add_error_fields(unverified, missing),
                _ => unverified,
            }
        },
    }
}

/// How an operator's request for a full reconciliation pass is taken.
#[derive(Clone, Copy, Debug, PartialEq, Eq, Structural)]
pub enum UpdateRequest {
    /// The operator may not ask for it: nothing is done and nobody is told.
    Ignored,
    /// The community has no verified role: the operator is told.
    NoVerifiedRole,
    /// Run the pass for this verified role, and tell the operator how it went.
    Run { verified_role: u64 },
}

/// Updates the entire community's verification status: whether the pass is
/// run at all.
pub fn update(permitted: bool, verified_role: Option<u64>) -> (request: UpdateRequest)
    ensures
        request == (if !permitted {
            UpdateRequest::Ignored
        } else {
            match verified_role {
                Some(role) => UpdateRequest::Run { verified_role: role },
                None => UpdateRequest::NoVerifiedRole,
            }
        }),
{
    if !permitted {
        UpdateRequest::Ignored
    } else {
        match verified_role {
            Some(role) => UpdateRequest::Run { verified_role: role },
            None => UpdateRequest::NoVerifiedRole,
        }
    }
}

} // verus!
