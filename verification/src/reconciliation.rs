//! Role reconciliation: for each member, compare whether the roster wants the
//! member verified with whether the member holds the verified role, and decide
//! the correction that the policy allows.
//!
//! The decisions are a plan, one entry per member in the members' order. The
//! caller carries the plan out member by member; a failure on one member does
//! not keep it from the next.

use crate::discord::{
    is_member, is_user_in_guild, lemma_entry_is_member, lemma_granted_and_revoked, Member,
    MemberView,
};
use crate::error::FailureKind;
use crate::verification_db::{Verification, VerificationView};
use crate::verification_discord::{missing_criteria, MissingCriteria, Notice, NoticeView};
use std::collections::HashMap;
use vstd::prelude::*;

verus! {

broadcast use vstd::std_specs::hash::group_hash_axioms;

/// What an operator allows a reconciliation pass to do, and whether a record
/// needs an account link to count as verified.
#[derive(Clone, Copy, Debug, PartialEq, Eq, Structural)]
pub struct ReconcilePolicy {
    pub allow_role_addition: bool,
    pub allow_role_removal: bool,
    pub link_required: bool,
}

impl Default for ReconcilePolicy {
    /// Additions are allowed, removals are not, and the link is required.
    fn default() -> (policy: Self)
        ensures
            policy == (ReconcilePolicy {
                allow_role_addition: true,
                allow_role_removal: false,
                link_required: true,
            }),
    {
        ReconcilePolicy { allow_role_addition: true, allow_role_removal: false, link_required: true }
    }
}

/// What a reconciliation pass decides for one member.
#[derive(Clone, Copy, Debug, PartialEq, Eq, Structural)]
pub enum RoleDecision {
    /// The member is a bot or service account: left alone.
    Skip,
    /// The member's role is as the roster wants it: no action.
    Keep,
    /// The role should go, but removals are switched off: no change and no
    /// notice.
    RemovalBlocked,
    /// Remove the role and tell the member why: the unmet criteria of the
    /// member's record, or nothing where no record names the member.
    Remove(Option<MissingCriteria>),
    /// The role should be granted, but additions are switched off: no change
    /// and no notice.
    AdditionBlocked,
    /// Grant the role and welcome the member.
    Add,
}

impl RoleDecision {
    /// The decision changes who holds the role.
    pub open spec fn changes_role(self) -> bool {
        self is Add || self is Remove
    }

    /// What the member is told with this decision.
    pub open spec fn notice(self) -> Option<NoticeView> {
        match self {
            RoleDecision::Remove(reason) => Some(NoticeView::RoleRemoved(reason)),
            RoleDecision::Add => Some(NoticeView::RoleAdded),
            _ => None,
        }
    }

    /// The kind of failure that the decision is: a change that the policy
    /// holds back is blocked by policy, and nothing else is a failure.
    pub fn failure_kind(&self) -> (kind: Option<FailureKind>)
        ensures
            kind == (if *self == RoleDecision::RemovalBlocked || *self
                == RoleDecision::AdditionBlocked {
                Some(FailureKind::PolicyBlocked)
            } else {
                None
            }),
    {
        match self {
            RoleDecision::RemovalBlocked => Some(FailureKind::PolicyBlocked),
            RoleDecision::AdditionBlocked => Some(FailureKind::PolicyBlocked),
            _ => None,
        }
    }

    /// What the member is told with this decision, if anything.
    pub fn to_notice(&self) -> (notice: Option<Notice>)
        ensures
            notice.deep_view() == self.notice(),
    {
        match self {
            RoleDecision::Remove(reason) => Some(Notice::RoleRemoved(*reason)),
            RoleDecision::Add => Some(Notice::RoleAdded),
            _ => None,
        }
    }
}

/// The decision for the member with the account `user_id`.
#[derive(Clone, Copy, Debug, PartialEq, Eq, Structural)]
pub struct RoleUpdate {
    pub user_id: u64,
    pub decision: RoleDecision,
}

/// Whether the roster wants the member verified: a member without a record is
/// not wanted verified.
pub open spec fn desired(record: Option<VerificationView>, link_required: bool) -> bool {
    match record {
        Some(r) => r.is_verified(link_required),
        None => false,
    }
}

/// The decision for one member, from the member's record, if there is one.
pub open spec fn decide(
    member: MemberView,
    verified_role: u64,
    record: Option<VerificationView>,
    policy: ReconcilePolicy,
) -> RoleDecision {
    let has_role = member.has_role(verified_role);
    let wanted = desired(record, policy.link_required);
    if member.bot {
        RoleDecision::Skip
    } else if !wanted && has_role {
        if policy.allow_role_removal {
            RoleDecision::Remove(
                match record {
                    Some(r) => Some(MissingCriteria::of(r)),
                    None => None,
                },
            )
        } else {
            RoleDecision::RemovalBlocked
        }
    } else if wanted && !has_role {
        if policy.allow_role_addition {
            RoleDecision::Add
        } else {
            RoleDecision::AdditionBlocked
        }
    } else {
        RoleDecision::Keep
    }
}

/// Decides for one member.
pub fn decide_member(
    member: &Member,
    verified_role: u64,
    record: Option<&Verification>,
    policy: &ReconcilePolicy,
) -> (decision: RoleDecision)
    ensures
        decision == decide(member@, verified_role, record.deep_view(), *policy),
{
    if member.bot {
        return RoleDecision::Skip;
    }
    let has_role = member.has_role(verified_role);
    let wanted = match record {
        Some(r) => r.is_verified(policy.link_required),
        None => false,
    };
    if !wanted && has_role {
        if policy.allow_role_removal {
            RoleDecision::Remove(
                match record {
                    Some(r) => Some(missing_criteria(r)),
                    None => None,
                },
            )
        } else {
            RoleDecision::RemovalBlocked
        }
    } else if wanted && !has_role {
        if policy.allow_role_addition {
            RoleDecision::Add
        } else {
            RoleDecision::AdditionBlocked
        }
    } else {
        RoleDecision::Keep
    }
}

/// The records of a table of records by account, as mathematical values.
pub open spec fn record_views(table: Map<u64, Verification>) -> Map<u64, VerificationView> {
    Map::new(|id: u64| table.contains_key(id), |id: u64| table[id]@)
}

/// The record that a table holds of an account.
pub open spec fn record_of(table: Map<u64, VerificationView>, user_id: u64) -> Option<
    VerificationView,
> {
    if table.contains_key(user_id) {
        Some(table[user_id])
    } else {
        None
    }
}

/// The plan of a pass: for each member, in the members' order, the decision
/// from the record that the table holds of the member's account.
pub open spec fn reconcile_plan(
    members: Seq<MemberView>,
    verified_role: u64,
    table: Map<u64, VerificationView>,
    policy: ReconcilePolicy,
) -> Seq<RoleUpdate> {
    Seq::new(
        members.len(),
        |i: int|
            RoleUpdate {
                user_id: members[i].user_id,
                decision: decide(
                    members[i],
                    verified_role,
                    record_of(table, members[i].user_id),
                    policy,
                ),
            },
    )
}

/// Updates verification per members using a hashmap as a truth table: the
/// plan of role corrections for `members`, from the records that
/// `verified_members` holds by account.
pub fn update_verification_roles_from_hashmap(
    verified_role: u64,
    members: &Vec<Member>,
    verified_members: &HashMap<u64, Verification>,
    policy: &ReconcilePolicy,
) -> (plan: Vec<RoleUpdate>)
    ensures
        plan@ == reconcile_plan(
            members.deep_view(),
            verified_role,
            record_views(verified_members@),
            *policy,
        ),
{
    let ghost wanted = reconcile_plan(
        members.deep_view(),
        verified_role,
        record_views(verified_members@),
        *policy,
    );
    let mut plan: Vec<RoleUpdate> = Vec::new();
    let mut i: usize = 0;
    while i < members.len()
        invariant
            i <= members.len(),
            wanted == reconcile_plan(
                members.deep_view(),
                verified_role,
                record_views(verified_members@),
                *policy,
            ),
            plan@ == wanted.take(i as int),
        decreases members.len() - i,
    {
        let member = &members[i];
        assert(members.deep_view()[i as int] == member@);
        let record = verified_members.get(&member.user_id);
        assert(record.deep_view() == record_of(record_views(verified_members@), member.user_id));
        let decision = decide_member(member, verified_role, record, policy);
        plan.push(RoleUpdate { user_id: member.user_id, decision });
        i = i + 1;
        assert(plan@ =~= wanted.take(i as int));
    }
    assert(wanted.take(members.len() as int) =~= wanted);
    plan
}

/// The table of records by account that a list of records makes: each record
/// that names an account stands under that account, a later record in place
/// of an earlier one of the same account.
pub open spec fn account_index(records: Seq<VerificationView>) -> Map<u64, VerificationView>
    decreases records.len(),
{
    if records.len() == 0 {
        Map::empty()
    } else {
        let earlier = account_index(records.drop_last());
        let last = records.last();
        if last.is_linked() {
            earlier.insert(last.discord_id->0, last)
        } else {
            earlier
        }
    }
}

/// Makes the table of records by account.
pub fn index_by_account(records: &Vec<Verification>) -> (table: HashMap<u64, Verification>)
    ensures
        record_views(table@) == account_index(records.deep_view()),
{
    let mut table: HashMap<u64, Verification> = HashMap::new();
    let mut i: usize = 0;
    assert(records.deep_view().take(0) =~= Seq::<VerificationView>::empty());
    assert(record_views(table@) =~= Map::<u64, VerificationView>::empty());
    while i < records.len()
        invariant
            i <= records.len(),
            record_views(table@) == account_index(records.deep_view().take(i as int)),
        decreases records.len() - i,
    {
        let record = &records[i];
        let ghost before = table@;
        let ghost longer = records.deep_view().take(i + 1);
        assert(longer.drop_last() =~= records.deep_view().take(i as int));
        assert(longer.last() == record@);
        match record.discord_id {
            Some(id) if id != 0 => {
                table.insert(id, record.clone());
                assert(record_views(table@) =~= record_views(before).insert(id, record@));
            },
            _ => {},
        }
        i = i + 1;
    }
    assert(records.deep_view().take(records.len() as int) =~= records.deep_view());
    table
}

/// Updates verification roles based off of the roster: the plan of role
/// corrections for `members`, from the records that name an account.
pub fn update_verification_roles(
    verified_role: u64,
    members: &Vec<Member>,
    records: &Vec<Verification>,
    policy: &ReconcilePolicy,
) -> (plan: Vec<RoleUpdate>)
    ensures
        plan@ == reconcile_plan(
            members.deep_view(),
            verified_role,
            account_index(records.deep_view()),
            *policy,
        ),
{
    let table = index_by_account(records);
    update_verification_roles_from_hashmap(verified_role, members, &table, policy)
}

/// The test that a record names the account of one of `members`.
pub open spec fn names_one_of(members: Seq<MemberView>) -> spec_fn(VerificationView) -> bool {
    |record: VerificationView| record.is_linked() && is_member(members, record.discord_id->0)
}

/// The records that name the account of one of `members`, in their order.
pub fn records_of_members(records: &Vec<Verification>, members: &Vec<Member>) -> (chosen: Vec<
    Verification,
>)
    ensures
        chosen.deep_view() == records.deep_view().filter(names_one_of(members.deep_view())),
{
    let ghost test = names_one_of(members.deep_view());
    let mut chosen: Vec<Verification> = Vec::new();
    let mut i: usize = 0;
    assert(records.deep_view().take(0).filter(test) =~= Seq::<VerificationView>::empty()) by {
        reveal(Seq::filter);
    }
    assert(chosen.deep_view() =~= Seq::<VerificationView>::empty());
    while i < records.len()
        invariant
            i <= records.len(),
            test == names_one_of(members.deep_view()),
            chosen.deep_view() == records.deep_view().take(i as int).filter(test),
        decreases records.len() - i,
    {
        let record = &records[i];
        let ghost before = chosen.deep_view();
        proof {
            let longer = records.deep_view().take(i + 1);
            assert(longer.drop_last() =~= records.deep_view().take(i as int));
            assert(longer.last() == record@);
            reveal(Seq::filter);
        }
        let named = match record.discord_id {
            Some(id) => id != 0 && is_user_in_guild(members, id),
            None => false,
        };
        if named {
            chosen.push(record.clone());
            assert(chosen.deep_view() =~= before.push(record@));
        }
        i = i + 1;
    }
    assert(records.deep_view().take(records.len() as int) =~= records.deep_view());
    chosen
}

/// For an account of one of `members`, the records that name one of the
/// members give the same record as all records do.
pub proof fn lemma_record_among_members(
    records: Seq<VerificationView>,
    members: Seq<MemberView>,
    user_id: u64,
)
    requires
        is_member(members, user_id),
    ensures
        record_of(account_index(records.filter(names_one_of(members))), user_id) == record_of(
            account_index(records),
            user_id,
        ),
    decreases records.len(),
{
    reveal(Seq::filter);
    if records.len() > 0 {
        let earlier = records.drop_last();
        let last = records.last();
        lemma_record_among_members(earlier, members, user_id);
        let chosen = earlier.filter(names_one_of(members));
        if names_one_of(members)(last) {
            assert(chosen.push(last).drop_last() =~= chosen);
        }
    }
}

/// A pass over a few members reads only the records that name one of them:
/// from those records it makes the same plan as from all records.
pub proof fn lemma_plan_reads_members_records(
    members: Seq<MemberView>,
    verified_role: u64,
    records: Seq<VerificationView>,
    policy: ReconcilePolicy,
)
    ensures
        reconcile_plan(
            members,
            verified_role,
            account_index(records.filter(names_one_of(members))),
            policy,
        ) == reconcile_plan(members, verified_role, account_index(records), policy),
{
    let chosen = account_index(records.filter(names_one_of(members)));
    let all = account_index(records);
    assert forall|i: int| 0 <= i < members.len() implies record_of(chosen, members[i].user_id)
        == record_of(all, members[i].user_id) by {
        lemma_entry_is_member(members, i);
        lemma_record_among_members(records, members, members[i].user_id);
    }
    assert(reconcile_plan(members, verified_role, chosen, policy) =~= reconcile_plan(
        members,
        verified_role,
        all,
        policy,
    ));
}

/// Updates the verification roles of a few members: the plan of role
/// corrections for `members`, from those of `records` that name one of them.
/// The plan is the one that all of `records` give for these members.
pub fn update_verification_roles_from_members(
    verified_role: u64,
    members: &Vec<Member>,
    records: &Vec<Verification>,
    policy: &ReconcilePolicy,
) -> (plan: Vec<RoleUpdate>)
    ensures
        plan@ == reconcile_plan(
            members.deep_view(),
            verified_role,
            account_index(records.deep_view().filter(names_one_of(members.deep_view()))),
            *policy,
        ),
        plan@ == reconcile_plan(
            members.deep_view(),
            verified_role,
            account_index(records.deep_view()),
            *policy,
        ),
{
    proof {
        lemma_plan_reads_members_records(
            members.deep_view(),
            verified_role,
            records.deep_view(),
            *policy,
        );
    }
    let chosen = records_of_members(records, members);
    let table = index_by_account(&chosen);
    update_verification_roles_from_hashmap(verified_role, members, &table, policy)
}

/// The member after a decision was carried out.
pub open spec fn apply_decision(member: MemberView, verified_role: u64, decision: RoleDecision) -> MemberView {
    match decision {
        RoleDecision::Add => member.granted(verified_role),
        RoleDecision::Remove(_) => member.revoked(verified_role),
        _ => member,
    }
}

/// The members after a plan was carried out, entry by entry; members beyond
/// the plan's end stay as they are.
pub open spec fn apply_plan(members: Seq<MemberView>, verified_role: u64, plan: Seq<RoleUpdate>) -> Seq<
    MemberView,
> {
    Seq::new(
        members.len(),
        |i: int|
            if i < plan.len() {
                apply_decision(members[i], verified_role, plan[i].decision)
            } else {
                members[i]
            },
    )
}

/// Carries a plan out on a list of members, entry by entry.
pub fn apply_role_updates(members: &mut Vec<Member>, verified_role: u64, plan: &Vec<RoleUpdate>)
    ensures
        final(members).deep_view() == apply_plan(old(members).deep_view(), verified_role, plan@),
{
    let ghost before = members.deep_view();
    let mut updated: Vec<Member> = Vec::new();
    let mut i: usize = 0;
    assert(updated.deep_view() =~= apply_plan(before, verified_role, plan@).take(0));
    while i < members.len()
        invariant
            i <= members.len(),
            members.deep_view() == before,
            updated.deep_view() == apply_plan(before, verified_role, plan@).take(i as int),
        decreases members.len() - i,
    {
        let mut member = members[i].clone();
        assert(member@ == before[i as int]);
        let ghost so_far = updated.deep_view();
        if i < plan.len() {
            match plan[i].decision {
                RoleDecision::Add => {
                    member.grant(verified_role);
                },
                RoleDecision::Remove(_) => {
                    member.revoke(verified_role);
                },
                _ => {},
            }
        }
        updated.push(member);
        i = i + 1;
        assert(updated.deep_view() =~= so_far.push(member@));
        assert(updated.deep_view() =~= apply_plan(before, verified_role, plan@).take(i as int));
    }
    assert(apply_plan(before, verified_role, plan@).take(members.len() as int) =~= apply_plan(
        before,
        verified_role,
        plan@,
    ));
    *members = updated;
}

/// A decision that was carried out leaves nothing to decide: the member's
/// role is then as the roster wants it, or the policy still blocks the change.
pub proof fn lemma_decision_settles(
    member: MemberView,
    verified_role: u64,
    record: Option<VerificationView>,
    policy: ReconcilePolicy,
)
    ensures
        ({
            let first = decide(member, verified_role, record, policy);
            let after = apply_decision(member, verified_role, first);
            let second = decide(after, verified_role, record, policy);
            &&& !second.changes_role()
            &&& apply_decision(after, verified_role, second) == after
            &&& first.changes_role() ==> second == RoleDecision::Keep
        }),
{
    lemma_granted_and_revoked(member, verified_role);
}

/// Running reconciliation twice in a row, with the first plan carried out and
/// nothing else changed, is idempotent: the second plan changes no role and
/// tells nobody anything.
pub proof fn lemma_reconcile_twice_changes_nothing(
    members: Seq<MemberView>,
    verified_role: u64,
    table: Map<u64, VerificationView>,
    policy: ReconcilePolicy,
)
    ensures
        ({
            let first = reconcile_plan(members, verified_role, table, policy);
            let after = apply_plan(members, verified_role, first);
            let second = reconcile_plan(after, verified_role, table, policy);
            &&& second.len() == members.len()
            &&& forall|i: int|
                0 <= i < second.len() ==> !(#[trigger] second[i]).decision.changes_role()
            &&& forall|i: int| 0 <= i < second.len() ==> (#[trigger] second[i]).decision.notice() is None
            &&& apply_plan(after, verified_role, second) == after
        }),
{
    let first = reconcile_plan(members, verified_role, table, policy);
    let after = apply_plan(members, verified_role, first);
    let second = reconcile_plan(after, verified_role, table, policy);
    assert forall|i: int| 0 <= i < second.len() implies !(#[trigger] second[i]).decision.changes_role()
        && second[i].decision.notice() is None && apply_decision(
        after[i],
        verified_role,
        second[i].decision,
    ) == after[i] by {
        lemma_decision_settles(
            members[i],
            verified_role,
            record_of(table, members[i].user_id),
            policy,
        );
    }
    assert(apply_plan(after, verified_role, second) =~= after);
}

/// While removals are switched off, a member who holds the role against the
/// roster's wish is left unchanged and told nothing. With removals switched
/// on, the same pass removes the role and tells the member once; carried out,
/// it leaves the next pass nothing to do for that member.
pub proof fn lemma_removal_waits_for_the_flag(
    members: Seq<MemberView>,
    verified_role: u64,
    table: Map<u64, VerificationView>,
    policy: ReconcilePolicy,
    i: int,
)
    requires
        0 <= i < members.len(),
        !members[i].bot,
        members[i].has_role(verified_role),
        !desired(record_of(table, members[i].user_id), policy.link_required),
    ensures
        ({
            let off = ReconcilePolicy { allow_role_removal: false, ..policy };
            let blocked = reconcile_plan(members, verified_role, table, off);
            &&& blocked[i].decision == RoleDecision::RemovalBlocked
            &&& blocked[i].decision.notice() is None
            &&& apply_plan(members, verified_role, blocked)[i] == members[i]
        }),
        ({
            let on = ReconcilePolicy { allow_role_removal: true, ..policy };
            let plan = reconcile_plan(members, verified_role, table, on);
            let after = apply_plan(members, verified_role, plan);
            &&& plan[i].user_id == members[i].user_id
            &&& plan[i].decision is Remove
            &&& plan[i].decision.notice() is Some
            &&& !after[i].has_role(verified_role)
            &&& reconcile_plan(after, verified_role, table, on)[i].decision == RoleDecision::Keep
        }),
{
    let on = ReconcilePolicy { allow_role_removal: true, ..policy };
    lemma_granted_and_revoked(members[i], verified_role);
    lemma_decision_settles(members[i], verified_role, record_of(table, members[i].user_id), on);
}

} // verus!
