//! What the service tells a member, first as a meaning ([`Notice`]) and then
//! as the embed that is sent. The unmet roster criteria are composed in one
//! place, so that every path shows a member the same diagnostic text.

use crate::embeds::{default_embed, default_embed_view, Embed, EmbedView, GuelphColors};
use crate::error::FailureKind;
use crate::verification_db::{Verification, VerificationView};
use vstd::prelude::*;
use vstd::string::*;

verus! {

/// Where members confirm their roster membership.
pub const GRYPHLIFE_LINK: &'static str =
    "https://gryphlife.uoguelph.ca/organization/gryphonracing";

/// The roster criteria that a record fails.
#[derive(Clone, Copy, Debug, PartialEq, Eq, Structural)]
pub struct MissingCriteria {
    pub unpaid: bool,
    pub not_in_roster: bool,
    pub no_name: bool,
}

impl MissingCriteria {
    /// The criteria that `record` fails.
    pub open spec fn of(record: VerificationView) -> MissingCriteria {
        MissingCriteria {
            unpaid: record.has_paid != Some(true),
            not_in_roster: record.in_gryphlife != Some(true),
            no_name: record.name is None,
        }
    }

    /// At least one criterion is unmet.
    pub open spec fn any(self) -> bool {
        self.unpaid || self.not_in_roster || self.no_name
    }

    /// Whether at least one criterion is unmet.
    pub fn is_any(&self) -> (any: bool)
        ensures
            any == self.any(),
    {
        self.unpaid || self.not_in_roster || self.no_name
    }
}

/// The roster criteria that `record` fails: dues not paid, not in the roster,
/// no name. None is unmet exactly when the record meets the roster criteria.
pub fn missing_criteria(record: &Verification) -> (missing: MissingCriteria)
    ensures
        missing == MissingCriteria::of(record@),
        missing.any() <==> !record@.meets_roster_criteria(),
{
    MissingCriteria {
        unpaid: record.has_paid != Some(true),
        not_in_roster: record.in_gryphlife != Some(true),
        no_name: record.name.is_none(),
    }
}

/// A record fails some roster criterion exactly when it does not meet the
/// roster criteria; and a record that names an account, or whose link is
/// waived, is verified exactly when no criterion is unmet.
pub proof fn lemma_missing_criteria_match_predicate(record: VerificationView, link_required: bool)
    ensures
        MissingCriteria::of(record).any() <==> !record.meets_roster_criteria(),
        record.is_linked() || !link_required ==> (record.is_verified(link_required)
            <==> !MissingCriteria::of(record).any()),
{
}

/// The embed that [`generate_embed_error`] returns.
pub open spec fn embed_error_view() -> EmbedView {
    default_embed_view(GuelphColors::Red).described(
        "If any of the below issues have not been resolved within 48 hours, please contact a `@Bot Developer`."@,
    )
}

/// Generates a basic embed error for verification.
pub fn generate_embed_error() -> (embed: Embed)
    ensures
        embed@ == embed_error_view(),
{
    default_embed(GuelphColors::Red).description(
        "If any of the below issues have not been resolved within 48 hours, please contact a `@Bot Developer`.",
    )
}

/// `base` with one field for each unmet criterion, in the order dues, roster,
/// name.
pub open spec fn with_error_fields(base: EmbedView, missing: MissingCriteria) -> EmbedView {
    let paid = if missing.unpaid {
        base.with_field("Not paid"@, "You have not paid the club fee."@, true)
    } else {
        base
    };
    let roster = if missing.not_in_roster {
        paid.with_field(
            "Not in GryphLife"@,
            "You are not in the [GryphLife](<https://gryphlife.uoguelph.ca/organization/gryphonracing>)."@,
            true,
        )
    } else {
        paid
    };
    if missing.no_name {
        roster.with_field(
            "No name"@,
            "Your name for whatever reason has not been registered yet."@,
            true,
        )
    } else {
        roster
    }
}

/// Adds one field for each unmet criterion to `embed`.
pub fn add_error_fields(embed: Embed, missing: MissingCriteria) -> (out: Embed)
    ensures
        out@ == with_error_fields(embed@, missing),
{
    let mut embed = embed;
    if missing.unpaid {
        embed = embed.field("Not paid", "You have not paid the club fee.", true);
    }
    if missing.not_in_roster {
        embed = embed.field(
            "Not in GryphLife",
            "You are not in the [GryphLife](<https://gryphlife.uoguelph.ca/organization/gryphonracing>).",
            true,
        );
    }
    if missing.no_name {
        embed = embed.field(
            "No name",
            "Your name for whatever reason has not been registered yet.",
            true,
        );
    }
    embed
}

/// Adds fields to any optionally pre-existing embed, one for each roster
/// criterion that the record fails.
///
/// If no embed is given, it starts from [`generate_embed_error`]. The result
/// is `None` exactly when the record meets the roster criteria.
pub fn add_verification_error_fields(
    embed: Option<Embed>,
    verification_entry: &Verification,
) -> (out: Option<Embed>)
    ensures
        out is Some <==> !verification_entry@.meets_roster_criteria(),
        out matches Some(e) ==> e@ == with_error_fields(
            match embed {
                Some(given) => given@,
                None => embed_error_view(),
            },
            MissingCriteria::of(verification_entry@),
        ),
{
    let missing = missing_criteria(verification_entry);
    if missing.is_any() {
        let base = match embed {
            Some(given) => given,
            None => generate_embed_error(),
        };
        Some(add_error_fields(base, missing))
    } else {
        None
    }
}

/// What a member is told.
#[derive(Debug, PartialEq, Eq)]
pub enum Notice {
    /// The message is no mailbox address.
    InvalidEmail,
    /// The address is not under the organization's domain.
    WrongDomain { address: String },
    /// The email is linked to another account that is still a member.
    AlreadyRegistered,
    /// The roster holds no record of the email.
    NotRegistered,
    /// A code went out to the email.
    CodeSent { email: String },
    /// The message is no unsigned number.
    InvalidCode,
    /// The account has no session.
    NoActiveSession,
    /// The session was older than its time to live and is gone.
    SessionExpired,
    /// The number is not the session's code.
    IncorrectCode,
    /// The code was right, but the record fails these roster criteria.
    CriteriaUnmet(MissingCriteria),
    /// The account is not a member of the community.
    NotInServer,
    /// The account is linked and verified.
    Verified,
    /// The session was cancelled.
    Stopped,
    /// The verified role was removed: for these unmet criteria, or, with
    /// `None`, because no record names the account.
    RoleRemoved(Option<MissingCriteria>),
    /// The verified role was granted.
    RoleAdded,
}

/// What a [`Notice`] holds, as mathematical values.
pub ghost enum NoticeView {
    InvalidEmail,
    WrongDomain { address: Seq<char> },
    AlreadyRegistered,
    NotRegistered,
    CodeSent { email: Seq<char> },
    InvalidCode,
    NoActiveSession,
    SessionExpired,
    IncorrectCode,
    CriteriaUnmet(MissingCriteria),
    NotInServer,
    Verified,
    Stopped,
    RoleRemoved(Option<MissingCriteria>),
    RoleAdded,
}

impl View for Notice {
    type V = NoticeView;

    open spec fn view(&self) -> NoticeView {
        match self {
            Notice::InvalidEmail => NoticeView::InvalidEmail,
            Notice::WrongDomain { address } => NoticeView::WrongDomain { address: address@ },
            Notice::AlreadyRegistered => NoticeView::AlreadyRegistered,
            Notice::NotRegistered => NoticeView::NotRegistered,
            Notice::CodeSent { email } => NoticeView::CodeSent { email: email@ },
            Notice::InvalidCode => NoticeView::InvalidCode,
            Notice::NoActiveSession => NoticeView::NoActiveSession,
            Notice::SessionExpired => NoticeView::SessionExpired,
            Notice::IncorrectCode => NoticeView::IncorrectCode,
            Notice::CriteriaUnmet(missing) => NoticeView::CriteriaUnmet(*missing),
            Notice::NotInServer => NoticeView::NotInServer,
            Notice::Verified => NoticeView::Verified,
            Notice::Stopped => NoticeView::Stopped,
            Notice::RoleRemoved(missing) => NoticeView::RoleRemoved(*missing),
            Notice::RoleAdded => NoticeView::RoleAdded,
        }
    }
}

impl DeepView for Notice {
    type V = NoticeView;

    open spec fn deep_view(&self) -> NoticeView {
        self@
    }
}

impl NoticeView {
    /// The kind of failure that the notice tells of, if it tells of one. What
    /// a member sent and the service cannot accept is a validation failure;
    /// a session that is not there is a row not found.
    pub open spec fn failure_kind(self) -> Option<FailureKind> {
        match self {
            NoticeView::InvalidEmail => Some(FailureKind::ValidationFailure),
            NoticeView::WrongDomain { .. } => Some(FailureKind::ValidationFailure),
            NoticeView::AlreadyRegistered => Some(FailureKind::ValidationFailure),
            NoticeView::NotRegistered => Some(FailureKind::ValidationFailure),
            NoticeView::InvalidCode => Some(FailureKind::ValidationFailure),
            NoticeView::IncorrectCode => Some(FailureKind::ValidationFailure),
            NoticeView::CriteriaUnmet(_) => Some(FailureKind::ValidationFailure),
            NoticeView::NotInServer => Some(FailureKind::ValidationFailure),
            NoticeView::NoActiveSession => Some(FailureKind::NotFound),
            _ => None,
        }
    }

    /// The embed that tells a member this notice.
    pub open spec fn embed(self) -> EmbedView {
        match self {
            NoticeView::InvalidEmail => default_embed_view(GuelphColors::Red).described(
                "Invalid email sent."@,
            ),
            NoticeView::WrongDomain { address } => default_embed_view(GuelphColors::Red).described(
                "Expected a `@uoguelph.ca` email address, got: "@ + address,
            ),
            NoticeView::AlreadyRegistered => default_embed_view(GuelphColors::Red).described(
                "This email is already registered."@,
            ),
            NoticeView::NotRegistered => default_embed_view(GuelphColors::Red).described(
                "This email is not registered yet. If this problem persists beyond 48 hours, please contact anyone with `@Bot Developer`"@,
            ),
            NoticeView::CodeSent { email } => default_embed_view(GuelphColors::Blue).described(
                "We have sent an email to you at `"@ + email
                    + "` containing your **7 digit** verification code. Please respond back with the code. **Do not share this code with anyone else.**"@,
            ).with_field(
                "Cancelling verification session"@,
                "To cancel the current verification session, type `quit`."@,
                false,
            ),
            NoticeView::InvalidCode => default_embed_view(GuelphColors::Red).described(
                "Please submit a valid verification code."@,
            ),
            NoticeView::NoActiveSession => default_embed_view(GuelphColors::Red).described(
                "No active verification session found."@,
            ),
            NoticeView::SessionExpired => default_embed_view(GuelphColors::Red).described(
                "Expired verification session. Please try re-submit your email."@,
            ),
            NoticeView::IncorrectCode => default_embed_view(GuelphColors::Red).described(
                "Incorrect code."@,
            ),
            NoticeView::CriteriaUnmet(missing) => with_error_fields(embed_error_view(), missing),
            NoticeView::NotInServer => default_embed_view(GuelphColors::Red).described(
                "You are not in the Gryphon FSAE discord server."@,
            ),
            NoticeView::Verified => default_embed_view(GuelphColors::Gold).described(
                "You have been verified successfully. Welcome to Gryphon FSAE!"@,
            ),
            NoticeView::Stopped => default_embed_view(GuelphColors::Blue).described(
                "Stopped verification session."@,
            ),
            NoticeView::RoleRemoved(reason) => {
                let removed = embed_error_view().with_field(
                    "Role removed"@,
                    "Your verification role is now removed."@,
                    false,
                );
                match reason {
                    Some(missing) => with_error_fields(removed, missing),
                    None => removed.with_field(
                        "Not in system"@,
                        "You are not registered in our verification system."@,
                        false,
                    ),
                }
            },
            NoticeView::RoleAdded => default_embed_view(GuelphColors::Blue).with_field(
                "Role added"@,
                "Your verification role is now added. Welcome to the server."@,
                false,
            ),
        }
    }
}

impl Notice {
    /// The kind of failure that the notice tells of, if it tells of one.
    pub fn failure_kind(&self) -> (kind: Option<FailureKind>)
        ensures
            kind == self@.failure_kind(),
    {
        match self {
            Notice::InvalidEmail => Some(FailureKind::ValidationFailure),
            Notice::WrongDomain { .. } => Some(FailureKind::ValidationFailure),
            Notice::AlreadyRegistered => Some(FailureKind::ValidationFailure),
            Notice::NotRegistered => Some(FailureKind::ValidationFailure),
            Notice::InvalidCode => Some(FailureKind::ValidationFailure),
            Notice::IncorrectCode => Some(FailureKind::ValidationFailure),
            Notice::CriteriaUnmet(_) => Some(FailureKind::ValidationFailure),
            Notice::NotInServer => Some(FailureKind::ValidationFailure),
            Notice::NoActiveSession => Some(FailureKind::NotFound),
            _ => None,
        }
    }

    /// The embed that tells a member this notice.
    pub fn to_embed(&self) -> (embed: Embed)
        ensures
            embed@ == self@.embed(),
    {
        match self {
            Notice::InvalidEmail => default_embed(GuelphColors::Red).description(
                "Invalid email sent.",
            ),
            Notice::WrongDomain { address } => {
                let mut text = "Expected a `@uoguelph.ca` email address, got: ".to_owned();
                text.append(address.as_str());
                default_embed(GuelphColors::Red).description(text.as_str())
            },
            Notice::AlreadyRegistered => default_embed(GuelphColors::Red).description(
                "This email is already registered.",
            ),
            Notice::NotRegistered => default_embed(GuelphColors::Red).description(
                "This email is not registered yet. If this problem persists beyond 48 hours, please contact anyone with `@Bot Developer`",
            ),
            Notice::CodeSent { email } => {
                let mut text = "We have sent an email to you at `".to_owned();
                text.append(email.as_str());
                text.append(
                    "` containing your **7 digit** verification code. Please respond back with the code. **Do not share this code with anyone else.**",
                );
                default_embed(GuelphColors::Blue).description(text.as_str()).field(
                    "Cancelling verification session",
                    "To cancel the current verification session, type `quit`.",
                    false,
                )
            },
            Notice::InvalidCode => default_embed(GuelphColors::Red).description(
                "Please submit a valid verification code.",
            ),
            Notice::NoActiveSession => default_embed(GuelphColors::Red).description(
                "No active verification session found.",
            ),
            Notice::SessionExpired => default_embed(GuelphColors::Red).description(
                "Expired verification session. Please try re-submit your email.",
            ),
            Notice::IncorrectCode => default_embed(GuelphColors::Red).description(
                "Incorrect code.",
            ),
            Notice::CriteriaUnmet(missing) => add_error_fields(generate_embed_error(), *missing),
            Notice::NotInServer => default_embed(GuelphColors::Red).description(
                "You are not in the Gryphon FSAE discord server.",
            ),
            Notice::Verified => default_embed(GuelphColors::Gold).description(
                "You have been verified successfully. Welcome to Gryphon FSAE!",
            ),
            Notice::Stopped => default_embed(GuelphColors::Blue).description(
                "Stopped verification session.",
            ),
            Notice::RoleRemoved(reason) => {
                let removed = generate_embed_error().field(
                    "Role removed",
                    "Your verification role is now removed.",
                    false,
                );
                match reason {
                    Some(missing) => add_error_fields(removed, *missing),
                    None => removed.field(
                        "Not in system",
                        "You are not registered in our verification system.",
                        false,
                    ),
                }
            },
            Notice::RoleAdded => default_embed(GuelphColors::Blue).field(
                "Role added",
                "Your verification role is now added. Welcome to the server.",
                false,
            ),
        }
    }
}

impl Clone for Notice {
    fn clone(&self) -> (copy: Self)
        ensures
            copy@ == self@,
    {
        match self {
            Notice::InvalidEmail => Notice::InvalidEmail,
            Notice::WrongDomain { address } => Notice::WrongDomain { address: address.clone() },
            Notice::AlreadyRegistered => Notice::AlreadyRegistered,
            Notice::NotRegistered => Notice::NotRegistered,
            Notice::CodeSent { email } => Notice::CodeSent { email: email.clone() },
            Notice::InvalidCode => Notice::InvalidCode,
            Notice::NoActiveSession => Notice::NoActiveSession,
            Notice::SessionExpired => Notice::SessionExpired,
            Notice::IncorrectCode => Notice::IncorrectCode,
            Notice::CriteriaUnmet(missing) => Notice::CriteriaUnmet(*missing),
            Notice::NotInServer => Notice::NotInServer,
            Notice::Verified => Notice::Verified,
            Notice::Stopped => Notice::Stopped,
            Notice::RoleRemoved(reason) => Notice::RoleRemoved(*reason),
            Notice::RoleAdded => Notice::RoleAdded,
        }
    }
}

} // verus!
