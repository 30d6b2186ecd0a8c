use gryphon_verification::discord::{
    get_guild_member_from_user, get_role_id_from_name, holds_role, is_user_in_guild,
    member_has_role, user_has_roles_or, Member, Role,
};
use gryphon_verification::error::FailureKind;
use gryphon_verification::reconciliation::{
    apply_role_updates, decide_member, index_by_account, records_of_members,
    update_verification_roles, update_verification_roles_from_hashmap,
    update_verification_roles_from_members, ReconcilePolicy, RoleDecision, RoleUpdate,
};
use gryphon_verification::verification_db::Verification;
use gryphon_verification::verification_discord::{MissingCriteria, Notice};
use std::collections::HashMap;

const ROLE: u64 = 900;

fn record(email: &str, paid: bool, discord_id: Option<u64>) -> Verification {
    Verification {
        email: email.to_string(),
        name: Some("Name".to_string()),
        in_gryphlife: Some(true),
        has_paid: Some(paid),
        discord_id,
    }
}

fn member(user_id: u64, roles: Vec<u64>) -> Member {
    Member { user_id, bot: false, roles }
}

fn policy(add: bool, remove: bool) -> ReconcilePolicy {
    ReconcilePolicy { allow_role_addition: add, allow_role_removal: remove, link_required: true }
}

fn decisions(plan: &[RoleUpdate]) -> Vec<RoleDecision> {
    plan.iter().map(|u| u.decision).collect()
}

const UNPAID: MissingCriteria = MissingCriteria { unpaid: true, not_in_roster: false, no_name: false };

#[test]
fn default_policy_adds_and_does_not_remove() {
    let p = ReconcilePolicy::default();
    assert!(p.allow_role_addition);
    assert!(!p.allow_role_removal);
    assert!(p.link_required);
}

#[test]
fn decision_table() {
    let verified = record("a@uoguelph.ca", true, Some(1));
    let unpaid = record("b@uoguelph.ca", false, Some(1));
    let with_role = member(1, vec![5, ROLE]);
    let without_role = member(1, vec![5]);
    let all = policy(true, true);
    let none = policy(false, false);
    assert_eq!(decide_member(&with_role, ROLE, Some(&verified), &all), RoleDecision::Keep);
    assert_eq!(decide_member(&without_role, ROLE, Some(&unpaid), &all), RoleDecision::Keep);
    assert_eq!(decide_member(&without_role, ROLE, None, &all), RoleDecision::Keep);
    assert_eq!(decide_member(&without_role, ROLE, Some(&verified), &all), RoleDecision::Add);
    assert_eq!(
        decide_member(&without_role, ROLE, Some(&verified), &none),
        RoleDecision::AdditionBlocked
    );
    assert_eq!(
        decide_member(&with_role, ROLE, Some(&unpaid), &all),
        RoleDecision::Remove(Some(UNPAID))
    );
    assert_eq!(decide_member(&with_role, ROLE, None, &all), RoleDecision::Remove(None));
    assert_eq!(decide_member(&with_role, ROLE, Some(&unpaid), &none), RoleDecision::RemovalBlocked);
    assert_eq!(decide_member(&with_role, ROLE, None, &none), RoleDecision::RemovalBlocked);
}

#[test]
fn bots_are_skipped() {
    let bot = Member { user_id: 1, bot: true, roles: vec![ROLE] };
    assert_eq!(decide_member(&bot, ROLE, None, &policy(true, true)), RoleDecision::Skip);
    let bot = Member { user_id: 1, bot: true, roles: vec![] };
    let verified = record("a@uoguelph.ca", true, Some(1));
    assert_eq!(decide_member(&bot, ROLE, Some(&verified), &policy(true, true)), RoleDecision::Skip);
}

#[test]
fn waived_link_verifies_an_unlinked_record() {
    let unlinked = record("a@uoguelph.ca", true, None);
    let waived = ReconcilePolicy { allow_role_addition: true, allow_role_removal: true, link_required: false };
    assert_eq!(decide_member(&member(1, vec![]), ROLE, Some(&unlinked), &waived), RoleDecision::Add);
    assert_eq!(
        decide_member(&member(1, vec![ROLE]), ROLE, Some(&unlinked), &policy(true, true)),
        RoleDecision::Remove(Some(MissingCriteria { unpaid: false, not_in_roster: false, no_name: false }))
    );
}

#[test]
fn decisions_tell_their_notices_and_kinds() {
    assert_eq!(RoleDecision::Add.to_notice(), Some(Notice::RoleAdded));
    assert_eq!(RoleDecision::Remove(None).to_notice(), Some(Notice::RoleRemoved(None)));
    assert_eq!(
        RoleDecision::Remove(Some(UNPAID)).to_notice(),
        Some(Notice::RoleRemoved(Some(UNPAID)))
    );
    for quiet in [
        RoleDecision::Skip,
        RoleDecision::Keep,
        RoleDecision::RemovalBlocked,
        RoleDecision::AdditionBlocked,
    ] {
        assert_eq!(quiet.to_notice(), None);
    }
    assert_eq!(RoleDecision::RemovalBlocked.failure_kind(), Some(FailureKind::PolicyBlocked));
    assert_eq!(RoleDecision::AdditionBlocked.failure_kind(), Some(FailureKind::PolicyBlocked));
    assert_eq!(RoleDecision::Add.failure_kind(), None);
    assert_eq!(RoleDecision::Keep.failure_kind(), None);
}

#[test]
fn index_keeps_the_last_record_of_an_account() {
    let records = vec![
        record("a@uoguelph.ca", true, Some(1)),
        record("b@uoguelph.ca", true, None),
        record("c@uoguelph.ca", false, Some(1)),
        record("d@uoguelph.ca", true, Some(0)),
        record("e@uoguelph.ca", true, Some(2)),
    ];
    let index = index_by_account(&records);
    assert_eq!(index.len(), 2);
    assert_eq!(index[&1].email, "c@uoguelph.ca");
    assert_eq!(index[&2].email, "e@uoguelph.ca");
    assert!(!index.contains_key(&0));
}

#[test]
fn plan_has_one_entry_per_member_in_order() {
    let members = vec![
        member(1, vec![]),
        Member { user_id: 9, bot: true, roles: vec![] },
        member(2, vec![ROLE]),
        member(3, vec![ROLE]),
        member(4, vec![ROLE]),
    ];
    let records = vec![
        record("a@uoguelph.ca", true, Some(1)),
        record("b@uoguelph.ca", false, Some(2)),
        record("d@uoguelph.ca", true, Some(4)),
    ];
    let plan = update_verification_roles(ROLE, &members, &records, &policy(true, true));
    assert_eq!(
        plan,
        vec![
            RoleUpdate { user_id: 1, decision: RoleDecision::Add },
            RoleUpdate { user_id: 9, decision: RoleDecision::Skip },
            RoleUpdate { user_id: 2, decision: RoleDecision::Remove(Some(UNPAID)) },
            RoleUpdate { user_id: 3, decision: RoleDecision::Remove(None) },
            RoleUpdate { user_id: 4, decision: RoleDecision::Keep },
        ]
    );
}

#[test]
fn plan_from_a_hashmap_reads_the_given_table() {
    let members = vec![member(1, vec![]), member(2, vec![])];
    let mut table: HashMap<u64, Verification> = HashMap::new();
    table.insert(2, record("b@uoguelph.ca", true, Some(2)));
    let plan = update_verification_roles_from_hashmap(ROLE, &members, &table, &policy(true, false));
    assert_eq!(decisions(&plan), vec![RoleDecision::Keep, RoleDecision::Add]);
    let empty: Vec<Member> = vec![];
    assert!(update_verification_roles_from_hashmap(ROLE, &empty, &table, &policy(true, false)).is_empty());
}

#[test]
fn subset_pass_reads_only_the_members_records() {
    let members = vec![member(2, vec![]), member(3, vec![ROLE])];
    let records = vec![
        record("a@uoguelph.ca", true, Some(1)),
        record("b@uoguelph.ca", true, Some(2)),
        record("c@uoguelph.ca", true, None),
    ];
    let chosen = records_of_members(&records, &members);
    assert_eq!(chosen.len(), 1);
    assert_eq!(chosen[0].email, "b@uoguelph.ca");
    let subset = update_verification_roles_from_members(ROLE, &members, &records, &policy(true, true));
    let full = update_verification_roles(ROLE, &members, &records, &policy(true, true));
    assert_eq!(subset, full);
    assert_eq!(decisions(&subset), vec![RoleDecision::Add, RoleDecision::Remove(None)]);
}

#[test]
fn reconciliation_run_twice_changes_nothing_the_second_time() {
    let records = vec![
        record("a@uoguelph.ca", true, Some(1)),
        record("b@uoguelph.ca", false, Some(2)),
        record("c@uoguelph.ca", true, Some(5)),
    ];
    for (add, remove) in [(true, true), (true, false), (false, true), (false, false)] {
        let mut members = vec![
            member(1, vec![7]),
            member(2, vec![ROLE, 7]),
            member(3, vec![7, ROLE, ROLE]),
            member(5, vec![ROLE]),
            Member { user_id: 6, bot: true, roles: vec![ROLE] },
        ];
        let p = policy(add, remove);
        let first = update_verification_roles(ROLE, &members, &records, &p);
        apply_role_updates(&mut members, ROLE, &first);
        let after_first: Vec<Vec<u64>> = members.iter().map(|m| m.roles.clone()).collect();
        let second = update_verification_roles(ROLE, &members, &records, &p);
        for update in &second {
            assert!(!matches!(update.decision, RoleDecision::Add | RoleDecision::Remove(_)));
            assert_eq!(update.decision.to_notice(), None);
        }
        apply_role_updates(&mut members, ROLE, &second);
        let after_second: Vec<Vec<u64>> = members.iter().map(|m| m.roles.clone()).collect();
        assert_eq!(after_first, after_second);
    }
}

#[test]
fn applied_plan_grants_and_removes() {
    let records = vec![record("a@uoguelph.ca", true, Some(1))];
    let mut members = vec![member(1, vec![7]), member(2, vec![ROLE, 7, ROLE])];
    let plan = update_verification_roles(ROLE, &members, &records, &policy(true, true));
    apply_role_updates(&mut members, ROLE, &plan);
    assert_eq!(members[0].roles, vec![7, ROLE]);
    assert_eq!(members[1].roles, vec![7]);
    let short = vec![RoleUpdate { user_id: 1, decision: RoleDecision::Remove(None) }];
    apply_role_updates(&mut members, ROLE, &short);
    assert_eq!(members[0].roles, vec![7]);
    assert_eq!(members[1].roles, vec![7]);
}

#[test]
fn removal_waits_for_the_flag() {
    let records = vec![record("b@uoguelph.ca", false, Some(2))];
    let mut members = vec![member(2, vec![ROLE])];
    let blocked = update_verification_roles(ROLE, &members, &records, &policy(true, false));
    assert_eq!(decisions(&blocked), vec![RoleDecision::RemovalBlocked]);
    assert_eq!(blocked[0].decision.to_notice(), None);
    apply_role_updates(&mut members, ROLE, &blocked);
    assert_eq!(members[0].roles, vec![ROLE]);

    let plan = update_verification_roles(ROLE, &members, &records, &policy(true, true));
    assert_eq!(decisions(&plan), vec![RoleDecision::Remove(Some(UNPAID))]);
    let notices: Vec<Notice> = plan.iter().filter_map(|u| u.decision.to_notice()).collect();
    assert_eq!(notices, vec![Notice::RoleRemoved(Some(UNPAID))]);
    apply_role_updates(&mut members, ROLE, &plan);
    assert!(members[0].roles.is_empty());
    let again = update_verification_roles(ROLE, &members, &records, &policy(true, true));
    assert_eq!(decisions(&again), vec![RoleDecision::Keep]);
}

#[test]
fn stale_duplicate_link_is_tolerated() {
    let records = vec![
        record("old@uoguelph.ca", false, Some(1)),
        record("new@uoguelph.ca", true, Some(1)),
    ];
    let members = vec![member(1, vec![])];
    let plan = update_verification_roles(ROLE, &members, &records, &policy(true, true));
    assert_eq!(decisions(&plan), vec![RoleDecision::Add]);
}

// --- members and roles ---

#[test]
fn member_grant_and_revoke() {
    let mut m = member(1, vec![3, 4]);
    assert!(!m.has_role(5));
    m.grant(5);
    assert_eq!(m.roles, vec![3, 4, 5]);
    m.grant(5);
    assert_eq!(m.roles, vec![3, 4, 5]);
    m.revoke(4);
    assert_eq!(m.roles, vec![3, 5]);
    m.revoke(4);
    assert_eq!(m.roles, vec![3, 5]);
    assert!(holds_role(&m.roles, 3));
    assert!(!holds_role(&m.roles, 4));
    assert_eq!(m.clone(), m);
}

#[test]
fn member_searches() {
    let members = vec![member(1, vec![]), member(2, vec![9]), member(2, vec![8])];
    assert!(is_user_in_guild(&members, 2));
    assert!(!is_user_in_guild(&members, 3));
    assert!(!is_user_in_guild(&vec![], 1));
    assert_eq!(get_guild_member_from_user(&members, 2), Some(member(2, vec![9])));
    assert_eq!(get_guild_member_from_user(&members, 7), None);
}

#[test]
fn role_searches() {
    let roles = vec![
        Role { id: 10, name: "Verified".to_string() },
        Role { id: 11, name: "Leads".to_string() },
        Role { id: 12, name: "Verified".to_string() },
    ];
    assert_eq!(get_role_id_from_name(&roles, "Verified"), Some(10));
    assert_eq!(get_role_id_from_name(&roles, "Leads"), Some(11));
    assert_eq!(get_role_id_from_name(&roles, "verified"), None);
    assert_eq!(get_role_id_from_name(&vec![], "Verified"), None);
    let lead = member(1, vec![11]);
    assert!(member_has_role(&lead, &roles, "Leads"));
    assert!(!member_has_role(&lead, &roles, "Verified"));
    assert!(!member_has_role(&lead, &roles, "Nobody"));
    let names = vec!["Bot Developer".to_string(), "Leads".to_string()];
    assert!(user_has_roles_or(Some(&lead), &roles, &names));
    assert!(!user_has_roles_or(Some(&member(2, vec![10])), &roles, &names));
    assert!(!user_has_roles_or(None, &roles, &names));
    assert!(!user_has_roles_or(Some(&lead), &roles, &vec![]));
}
