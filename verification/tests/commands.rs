use gryphon_verification::countdowns::{
    day_suffix, delete, format_naive_datetime, needs_message_count, update_channel_message,
    Refresh, Selection,
};
use gryphon_verification::discord::{Member, Role};
use gryphon_verification::embeds::GuelphColors;
use gryphon_verification::error::BotError;
use gryphon_verification::feature_flags::{
    link_required, policy_from_flags, FeatureFlag, FeatureFlagBoolean, FeatureFlagModel,
    LINK_REQUIRED_FLAG, ROLE_ADDITION_FLAG, ROLE_REMOVAL_FLAG,
};
use gryphon_verification::reconciliation::ReconcilePolicy;
use gryphon_verification::sections::{
    decide_section, update_member_section_role, SectionAction, SectionUpdate,
};
use gryphon_verification::verification_commands::{
    link, link_prompt, status, status_embed, unlink, unlink_allowed, update, LinkChoice,
    LinkCommand, LinkEvent, LinkNext, LinkOutcome, LinkQuery, LinkStage, Status, UnlinkOutcome,
    UpdateRequest,
};
use gryphon_verification::verification_db::Verification;
use gryphon_verification::verification_discord::MissingCriteria;

fn record(discord_id: Option<u64>) -> Verification {
    Verification {
        email: "a@uoguelph.ca".to_string(),
        name: Some("Jane Doe".to_string()),
        in_gryphlife: Some(true),
        has_paid: Some(true),
        discord_id,
    }
}

fn start() -> LinkEvent {
    LinkEvent::Start { permitted: true, has_verified_role: true }
}

// --- link ---

#[test]
fn link_is_ignored_without_permission_or_role() {
    for (permitted, has_verified_role) in [(false, true), (true, false), (false, false)] {
        let (command, next) =
            link(LinkCommand::new(Some(42)), LinkEvent::Start { permitted, has_verified_role });
        assert_eq!(next, LinkNext::Done(LinkOutcome::Ignored));
        assert_eq!(command.stage, LinkStage::Closed);
    }
}

#[test]
fn link_of_an_unknown_email_is_reported() {
    let (command, next) = link(LinkCommand::new(Some(42)), start());
    assert_eq!(next, LinkNext::Ask(LinkQuery::Record));
    let (_, next) = link(command, LinkEvent::Record(None));
    assert_eq!(next, LinkNext::Done(LinkOutcome::UnknownEmail));
}

#[test]
fn link_of_an_unlinked_record_needs_no_second_question() {
    for previous in [None, Some(0)] {
        let (command, _) = link(LinkCommand::new(Some(42)), start());
        let (command, next) = link(command, LinkEvent::Record(Some(record(previous))));
        assert_eq!(next, LinkNext::Ask(LinkQuery::Confirm { replaces: None }));
        let (command, next) = link(command, LinkEvent::Choice(Some(LinkChoice::Yes)));
        assert_eq!(
            next,
            LinkNext::Done(LinkOutcome::Linked { target: Some(42), previous: None })
        );
        assert_eq!(command.stage, LinkStage::Closed);
    }
}

#[test]
fn link_over_an_existing_link_warns_and_reconciles_both() {
    let (command, _) = link(LinkCommand::new(Some(42)), start());
    let (command, next) = link(command, LinkEvent::Record(Some(record(Some(7)))));
    assert_eq!(next, LinkNext::Ask(LinkQuery::Confirm { replaces: Some(7) }));
    let (command, next) = link(command, LinkEvent::Choice(Some(LinkChoice::Yes)));
    assert_eq!(next, LinkNext::Ask(LinkQuery::IsMember { user_id: 7 }));
    let (_, next) = link(command, LinkEvent::IsMember(true));
    let outcome = LinkOutcome::Linked { target: Some(42), previous: Some(7) };
    assert_eq!(next, LinkNext::Done(outcome));
    assert_eq!(outcome.changed_accounts(), vec![42, 7]);
    let (_, next) = link(command, LinkEvent::IsMember(false));
    let outcome = LinkOutcome::Linked { target: Some(42), previous: None };
    assert_eq!(next, LinkNext::Done(outcome));
    assert_eq!(outcome.changed_accounts(), vec![42]);
}

#[test]
fn link_to_nobody_unlinks_and_reconciles_the_previous_account() {
    let (command, _) = link(LinkCommand::new(None), start());
    let (command, _) = link(command, LinkEvent::Record(Some(record(Some(7)))));
    let (command, _) = link(command, LinkEvent::Choice(Some(LinkChoice::Yes)));
    let (_, next) = link(command, LinkEvent::IsMember(true));
    let outcome = LinkOutcome::Linked { target: None, previous: Some(7) };
    assert_eq!(next, LinkNext::Done(outcome));
    assert_eq!(outcome.changed_accounts(), vec![7]);
    assert!(LinkOutcome::Linked { target: None, previous: None }.changed_accounts().is_empty());
    assert!(LinkOutcome::Cancelled.changed_accounts().is_empty());
}

#[test]
fn link_to_the_account_already_linked_reconciles_it_once() {
    let (command, _) = link(LinkCommand::new(Some(7)), start());
    let (command, _) = link(command, LinkEvent::Record(Some(record(Some(7)))));
    let (_, next) = link(command, LinkEvent::Choice(Some(LinkChoice::Yes)));
    let outcome = LinkOutcome::Linked { target: Some(7), previous: None };
    assert_eq!(next, LinkNext::Done(outcome));
    assert_eq!(outcome.changed_accounts(), vec![7]);
    assert_eq!(
        LinkOutcome::Linked { target: Some(7), previous: Some(7) }.changed_accounts(),
        vec![7]
    );
}

#[test]
fn link_can_be_declined_or_time_out() {
    let (command, _) = link(LinkCommand::new(Some(42)), start());
    let (command, _) = link(command, LinkEvent::Record(Some(record(Some(7)))));
    assert_eq!(
        link(command, LinkEvent::Choice(Some(LinkChoice::No))).1,
        LinkNext::Done(LinkOutcome::Cancelled)
    );
    assert_eq!(link(command, LinkEvent::Choice(None)).1, LinkNext::Done(LinkOutcome::Expired));
    assert_eq!(
        link(command, LinkEvent::Choice(Some(LinkChoice::Other))).1,
        LinkNext::Done(LinkOutcome::Ignored)
    );
}

#[test]
fn link_step_with_an_event_that_does_not_fit_is_aborted() {
    assert_eq!(
        link(LinkCommand::new(Some(42)), LinkEvent::IsMember(true)).1,
        LinkNext::Done(LinkOutcome::Aborted)
    );
    let closed = LinkCommand { target: Some(42), stage: LinkStage::Closed };
    assert_eq!(link(closed, start()).1, LinkNext::Done(LinkOutcome::Aborted));
}

#[test]
fn link_prompt_warns_when_a_link_is_replaced() {
    let plain = link_prompt(None);
    assert_eq!(plain.colour, GuelphColors::Blue);
    assert_eq!(plain.description.as_deref(), Some("Are you sure you want to do this?"));
    assert!(plain.fields.is_empty());
    let warning = link_prompt(Some("jane (7)"));
    assert_eq!(warning.colour, GuelphColors::Red);
    assert_eq!(warning.fields.len(), 1);
    assert_eq!(warning.fields[0].name, "WARNING");
    assert_eq!(
        warning.fields[0].value,
        "You will be replacing an existing link to user: jane (7)"
    );
}

// --- unlink, status, update ---

#[test]
fn unlink_is_taken_in_the_home_guild_only() {
    assert!(unlink_allowed(Some(5), 5));
    assert!(!unlink_allowed(Some(6), 5));
    assert!(!unlink_allowed(None, 5));
}

#[test]
fn unlink_outcomes() {
    assert_eq!(unlink(Some(1), true), UnlinkOutcome::Unlinked { reconcile: true });
    assert_eq!(unlink(Some(3), false), UnlinkOutcome::Unlinked { reconcile: false });
    assert_eq!(unlink(Some(0), true), UnlinkOutcome::NothingLinked);
    assert_eq!(unlink(None, true), UnlinkOutcome::InternalError);
}

#[test]
fn status_of_a_member() {
    assert_eq!(status(None), Status::NotLinked);
    assert_eq!(status(Some(&record(Some(42)))), Status::Verified);
    let mut unpaid = record(Some(42));
    unpaid.has_paid = None;
    assert_eq!(
        status(Some(&unpaid)),
        Status::Unmet(MissingCriteria { unpaid: true, not_in_roster: false, no_name: false })
    );
}

#[test]
fn status_embeds() {
    let e = status_embed(Status::Verified, "jane (42)");
    assert_eq!(e.colour, GuelphColors::Blue);
    assert_eq!(e.description.as_deref(), Some("jane (42) is verified in our system."));
    let e = status_embed(Status::NotLinked, "jane (42)");
    assert_eq!(e.colour, GuelphColors::Red);
    assert_eq!(e.description.as_deref(), Some("jane (42) is not verified in our system."));
    assert_eq!(e.fields.len(), 1);
    assert_eq!(e.fields[0].name, "Does not exist");
    let e = status_embed(
        Status::Unmet(MissingCriteria { unpaid: true, not_in_roster: true, no_name: false }),
        "jane (42)",
    );
    let names: Vec<&str> = e.fields.iter().map(|f| f.name.as_str()).collect();
    assert_eq!(names, vec!["Does not exist", "Not paid", "Not in GryphLife"]);
}

#[test]
fn update_requests() {
    assert_eq!(update(false, Some(9)), UpdateRequest::Ignored);
    assert_eq!(update(false, None), UpdateRequest::Ignored);
    assert_eq!(update(true, None), UpdateRequest::NoVerifiedRole);
    assert_eq!(update(true, Some(9)), UpdateRequest::Run { verified_role: 9 });
}

// --- feature flags ---

fn model(value: Option<&str>, flag_type: &str) -> FeatureFlagModel {
    FeatureFlagModel {
        name: "flag".to_string(),
        value: value.map(|v| v.to_string()),
        flag_type: flag_type.to_string(),
    }
}

#[test]
fn flag_names() {
    assert_eq!(ROLE_REMOVAL_FLAG, "verification_role_removal");
    assert_eq!(ROLE_ADDITION_FLAG, "verification_role_addition");
    assert_eq!(LINK_REQUIRED_FLAG, "verification_verified_requires_paid");
}

#[test]
fn new_flag_encodes_its_value() {
    let flag = FeatureFlagBoolean::new("flag", Some(true));
    assert_eq!(flag.model(), &model(Some("1"), "BOOLEAN"));
    assert_eq!(flag.value(), Some(true));
    assert_eq!(flag.name(), "flag");
    let flag = FeatureFlagBoolean::new("flag", Some(false));
    assert_eq!(flag.model(), &model(Some("0"), "BOOLEAN"));
    assert_eq!(flag.value(), Some(false));
    let flag = FeatureFlagBoolean::new("flag", None);
    assert_eq!(flag.model(), &model(None, "BOOLEAN"));
    assert_eq!(flag.value(), None);
}

#[test]
fn fetched_row_must_be_boolean() {
    assert_eq!(FeatureFlagBoolean::fetch(None), Ok(None));
    let flag = FeatureFlagBoolean::fetch(Some(model(Some("1"), "BOOLEAN"))).unwrap().unwrap();
    assert!(flag.is_well_formed());
    assert_eq!(flag.value(), Some(true));
    assert_eq!(
        FeatureFlagBoolean::fetch(Some(model(Some("1"), "TEXT"))),
        Err(BotError::WrongFlagType)
    );
    assert_eq!(
        FeatureFlagBoolean::fetch(Some(model(None, "boolean"))),
        Err(BotError::WrongFlagType)
    );
    let odd = FeatureFlagBoolean::fetch(Some(model(Some("yes"), "BOOLEAN"))).unwrap().unwrap();
    assert!(!odd.is_well_formed());
}

#[test]
fn fetch_or_default_creates_a_missing_flag() {
    let (flag, created) = FeatureFlagBoolean::fetch_or_default(None, "flag", Some(true));
    assert!(created);
    assert_eq!(flag.model(), &model(Some("1"), "BOOLEAN"));
    let existing = FeatureFlagBoolean::new("flag", Some(false));
    let (flag, created) = FeatureFlagBoolean::fetch_or_default(Some(existing), "flag", Some(true));
    assert!(!created);
    assert_eq!(flag.value(), Some(false));
}

#[test]
fn flag_value_can_be_set_and_fetched() {
    let mut flag = FeatureFlagBoolean::new("flag", None);
    flag.set_value(Some(true));
    assert_eq!(flag.value(), Some(true));
    assert_eq!(flag.model().value.as_deref(), Some("1"));
    flag.set_value(Some(false));
    assert_eq!(flag.value(), Some(false));
    flag.set_value(None);
    assert_eq!(flag.value(), None);
    assert_eq!(flag.fetch_value(Some("1".to_string())), Some(true));
    assert_eq!(flag.model().value.as_deref(), Some("1"));
    assert_eq!(flag.fetch_value(None), None);
    assert_eq!(flag.fetch_value(Some("0".to_string())), Some(false));
}

#[test]
fn policy_is_read_from_the_flags() {
    let on = FeatureFlagBoolean::new("x", Some(true));
    let off = FeatureFlagBoolean::new("x", Some(false));
    let unset = FeatureFlagBoolean::new("x", None);
    assert_eq!(
        policy_from_flags(&off, &on, true),
        ReconcilePolicy { allow_role_addition: true, allow_role_removal: false, link_required: true }
    );
    assert_eq!(policy_from_flags(&off, &on, true), ReconcilePolicy::default());
    assert_eq!(
        policy_from_flags(&on, &off, false),
        ReconcilePolicy { allow_role_addition: false, allow_role_removal: true, link_required: false }
    );
    assert_eq!(
        policy_from_flags(&unset, &unset, true),
        ReconcilePolicy { allow_role_addition: false, allow_role_removal: false, link_required: true }
    );
}

#[test]
fn link_is_required_unless_the_flag_says_no() {
    let on = FeatureFlagBoolean::new("x", Some(true));
    let off = FeatureFlagBoolean::new("x", Some(false));
    let unset = FeatureFlagBoolean::new("x", None);
    assert!(link_required(None));
    assert!(link_required(Some(&on)));
    assert!(link_required(Some(&unset)));
    assert!(!link_required(Some(&off)));
}

// --- sections ---

fn roles() -> Vec<Role> {
    [(1, "Dynamics"), (2, "Frame"), (3, "Brakes"), (4, "Electrical"), (5, "Embedded"), (6, "Marketing")]
        .iter()
        .map(|(id, name)| Role { id: *id, name: name.to_string() })
        .collect()
}

#[test]
fn section_role_follows_the_subsections() {
    let member = Member { user_id: 1, bot: false, roles: vec![3, 4] };
    assert_eq!(
        update_member_section_role(&member, &roles()),
        vec![
            SectionUpdate { role: 1, action: SectionAction::Add },
            SectionUpdate { role: 4, action: SectionAction::Remove },
        ]
    );
    let settled = Member { user_id: 1, bot: false, roles: vec![1, 2, 4, 5] };
    assert!(update_member_section_role(&settled, &roles()).is_empty());
    let marketer = Member { user_id: 1, bot: false, roles: vec![6] };
    assert!(update_member_section_role(&marketer, &roles()).is_empty());
}

#[test]
fn one_section_is_decided_from_its_subsections() {
    let subs = vec!["Frame".to_string(), "Brakes".to_string()];
    let with_sub = Member { user_id: 1, bot: false, roles: vec![3] };
    let with_both = Member { user_id: 1, bot: false, roles: vec![1, 2] };
    let with_section = Member { user_id: 1, bot: false, roles: vec![1] };
    assert_eq!(
        decide_section(&with_sub, &roles(), "Dynamics", &subs),
        Some(SectionUpdate { role: 1, action: SectionAction::Add })
    );
    assert_eq!(decide_section(&with_both, &roles(), "Dynamics", &subs), None);
    assert_eq!(
        decide_section(&with_section, &roles(), "Dynamics", &subs),
        Some(SectionUpdate { role: 1, action: SectionAction::Remove })
    );
    assert_eq!(decide_section(&with_sub, &roles(), "Business", &subs), None);
}

// --- countdowns ---

#[test]
fn day_suffixes() {
    let expected = [
        (1, "st"), (2, "nd"), (3, "rd"), (4, "th"), (11, "th"), (12, "th"), (13, "th"),
        (21, "st"), (22, "nd"), (23, "rd"), (24, "th"), (30, "th"), (31, "st"), (0, "th"),
    ];
    for (day, suffix) in expected {
        assert_eq!(day_suffix(day), suffix, "{}", day);
    }
}

#[test]
fn date_line() {
    assert_eq!(format_naive_datetime("January", "1", 1, "2025"), "January 1st, 2025");
    assert_eq!(format_naive_datetime("March", "22", 22, "2024"), "March 22nd, 2024");
    assert_eq!(format_naive_datetime("May", "13", 13, "1999"), "May 13th, 1999");
}

#[test]
fn countdown_message_refresh() {
    let week = 604800;
    assert_eq!(update_channel_message(0, true, None, None), Refresh::Nothing);
    assert_eq!(update_channel_message(5, true, Some(10), Some(100)), Refresh::Delete);
    assert_eq!(update_channel_message(0, false, None, None), Refresh::NewMessage);
    assert_eq!(update_channel_message(5, false, None, None), Refresh::NewMessage);
    assert_eq!(update_channel_message(5, false, Some(week - 1), None), Refresh::Edit);
    assert_eq!(update_channel_message(5, false, Some(-5), Some(1000)), Refresh::Edit);
    assert_eq!(update_channel_message(5, false, Some(week), Some(47)), Refresh::Edit);
    assert_eq!(update_channel_message(5, false, Some(week), Some(48)), Refresh::NewMessage);
    assert_eq!(update_channel_message(5, false, Some(week), None), Refresh::NewMessage);
    assert!(needs_message_count(Some(week)));
    assert!(!needs_message_count(Some(week - 1)));
    assert!(!needs_message_count(None));
}

#[test]
fn countdown_selection() {
    assert_eq!(delete(3, 0), Selection::Found(0));
    assert_eq!(delete(3, 2), Selection::Found(2));
    assert_eq!(delete(3, 3), Selection::InvalidIndex { last: 2 });
    assert_eq!(delete(0, 0), Selection::NoCountdown);
    assert_eq!(delete(1, u64::MAX), Selection::InvalidIndex { last: 0 });
}
