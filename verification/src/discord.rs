//! The community platform's members and roles as plain values, and the
//! searches that the service makes in them.

use vstd::assert_by_contradiction;
use vstd::prelude::*;

verus! {

/// A member of the community: an account, and the roles that it holds.
#[derive(Debug, PartialEq, Eq)]
pub struct Member {
    pub user_id: u64,
    pub bot: bool,
    pub roles: Vec<u64>,
}

/// What a [`Member`] holds, as mathematical values.
pub ghost struct MemberView {
    pub user_id: u64,
    pub bot: bool,
    pub roles: Seq<u64>,
}

/// The test that a role is another than `role`.
pub open spec fn other_than(role: u64) -> spec_fn(u64) -> bool {
    |held: u64| held != role
}

impl MemberView {
    /// The member holds `role`.
    pub open spec fn has_role(self, role: u64) -> bool {
        self.roles.contains(role)
    }

    /// The member after `role` was granted: unchanged where it held the role.
    pub open spec fn granted(self, role: u64) -> MemberView {
        if self.has_role(role) {
            self
        } else {
            MemberView { roles: self.roles.push(role), ..self }
        }
    }

    /// The member after `role` was taken away.
    pub open spec fn revoked(self, role: u64) -> MemberView {
        MemberView { roles: self.roles.filter(other_than(role)), ..self }
    }
}

/// A member holds a role that was granted, and does not hold one that was
/// taken away.
pub proof fn lemma_granted_and_revoked(member: MemberView, role: u64)
    ensures
        member.granted(role).has_role(role),
        !member.revoked(role).has_role(role),
        member.has_role(role) ==> member.granted(role) == member,
{
    if !member.has_role(role) {
        assert(member.roles.push(role)[member.roles.len() as int] == role);
    }
    let kept = member.roles.filter(other_than(role));
    if kept.contains(role) {
        let i = choose|i: int| 0 <= i < kept.len() && kept[i] == role;
        member.roles.lemma_filter_pred(other_than(role), i);
    }
}

impl View for Member {
    type V = MemberView;

    open spec fn view(&self) -> MemberView {
        MemberView { user_id: self.user_id, bot: self.bot, roles: self.roles@ }
    }
}

impl DeepView for Member {
    type V = MemberView;

    open spec fn deep_view(&self) -> MemberView {
        self@
    }
}

/// Copies a list of role identifiers.
fn copy_roles(roles: &Vec<u64>) -> (copy: Vec<u64>)
    ensures
        copy@ == roles@,
{
    let mut copy: Vec<u64> = Vec::new();
    let mut i: usize = 0;
    while i < roles.len()
        invariant
            i <= roles.len(),
            copy@ == roles@.take(i as int),
        decreases roles.len() - i,
    {
        copy.push(roles[i]);
        i = i + 1;
        assert(copy@ =~= roles@.take(i as int));
    }
    assert(roles@.take(roles.len() as int) =~= roles@);
    copy
}

impl Clone for Member {
    fn clone(&self) -> (copy: Self)
        ensures
            copy@ == self@,
    {
        Member { user_id: self.user_id, bot: self.bot, roles: copy_roles(&self.roles) }
    }
}

/// Whether `role` is among `roles`.
pub fn holds_role(roles: &Vec<u64>, role: u64) -> (held: bool)
    ensures
        held == roles@.contains(role),
{
    let mut i: usize = 0;
    while i < roles.len()
        invariant
            i <= roles.len(),
            forall|j: int| 0 <= j < i ==> roles@[j] != role,
        decreases roles.len() - i,
    {
        if roles[i] == role {
            return true;
        }
        i = i + 1;
    }
    false
}

impl Member {
    /// Whether the member holds `role`.
    pub fn has_role(&self, role: u64) -> (held: bool)
        ensures
            held == self@.has_role(role),
    {
        holds_role(&self.roles, role)
    }

    /// Grants the member `role`, unless it holds the role.
    pub fn grant(&mut self, role: u64)
        ensures
            final(self)@ == old(self)@.granted(role),
    {
        if !holds_role(&self.roles, role) {
            self.roles.push(role);
        }
    }

    /// Takes `role` away from the member.
    pub fn revoke(&mut self, role: u64)
        ensures
            final(self)@ == old(self)@.revoked(role),
    {
        let mut kept: Vec<u64> = Vec::new();
        let mut i: usize = 0;
        let ghost keep = other_than(role);
        assert(self.roles@.take(0).filter(keep) =~= Seq::<u64>::empty()) by {
            reveal(Seq::filter);
        }
        while i < self.roles.len()
            invariant
                i <= self.roles.len(),
                self.roles == old(self).roles,
                self.user_id == old(self).user_id,
                self.bot == old(self).bot,
                keep == other_than(role),
                kept@ == self.roles@.take(i as int).filter(keep),
            decreases self.roles.len() - i,
        {
            let held = self.roles[i];
            proof {
                let before = self.roles@.take(i as int);
                let after = self.roles@.take(i + 1);
                assert(after.drop_last() =~= before);
                assert(after =~= before.push(held));
                reveal(Seq::filter);
            }
            if held != role {
                kept.push(held);
            }
            i = i + 1;
        }
        assert(self.roles@.take(self.roles.len() as int) =~= self.roles@);
        self.roles = kept;
    }
}

/// A role of the community.
#[derive(Debug, PartialEq, Eq)]
pub struct Role {
    pub id: u64,
    pub name: String,
}

/// What a [`Role`] holds, as mathematical values.
pub ghost struct RoleView {
    pub id: u64,
    pub name: Seq<char>,
}

impl View for Role {
    type V = RoleView;

    open spec fn view(&self) -> RoleView {
        RoleView { id: self.id, name: self.name@ }
    }
}

impl DeepView for Role {
    type V = RoleView;

    open spec fn deep_view(&self) -> RoleView {
        self@
    }
}

/// The place of the first member of `members` with the account `user_id`, or
/// the length of `members` where there is none.
pub open spec fn first_member(members: Seq<MemberView>, user_id: u64) -> int
    decreases members.len(),
{
    if members.len() == 0 {
        0
    } else if members[0].user_id == user_id {
        0
    } else {
        1 + first_member(members.drop_first(), user_id)
    }
}

/// `first_member` is a place up to the length; it holds the account where it
/// is a place in the list, and no place before it does.
pub proof fn lemma_first_member(members: Seq<MemberView>, user_id: u64)
    ensures
        0 <= first_member(members, user_id) <= members.len(),
        first_member(members, user_id) < members.len() ==> members[first_member(
            members,
            user_id,
        )].user_id == user_id,
        forall|j: int|
            0 <= j < first_member(members, user_id) ==> (#[trigger] members[j]).user_id != user_id,
    decreases members.len(),
{
    if members.len() > 0 && members[0].user_id != user_id {
        let rest = members.drop_first();
        lemma_first_member(rest, user_id);
        assert forall|j: int| 0 <= j < first_member(members, user_id) implies (
        #[trigger] members[j]).user_id != user_id by {
            if j > 0 {
                assert(members[j] == rest[j - 1]);
            }
        }
    }
}

/// A place that holds the account, with none before it that does, is the
/// first member's place.
pub proof fn lemma_first_member_is(members: Seq<MemberView>, user_id: u64, place: int)
    requires
        0 <= place <= members.len(),
        place < members.len() ==> members[place].user_id == user_id,
        forall|j: int| 0 <= j < place ==> (#[trigger] members[j]).user_id != user_id,
    ensures
        first_member(members, user_id) == place,
    decreases members.len(),
{
    if members.len() > 0 && place > 0 {
        let rest = members.drop_first();
        assert(members[0].user_id != user_id);
        assert forall|j: int| 0 <= j < place - 1 implies (#[trigger] rest[j]).user_id
            != user_id by {
            assert(rest[j] == members[j + 1]);
        }
        lemma_first_member_is(rest, user_id, place - 1);
    }
}

/// The account of each entry is among the members.
pub proof fn lemma_entry_is_member(members: Seq<MemberView>, place: int)
    requires
        0 <= place < members.len(),
    ensures
        is_member(members, members[place].user_id),
{
    let user_id = members[place].user_id;
    lemma_first_member(members, user_id);
    assert_by_contradiction!(first_member(members, user_id) <= place, {
        assert(members[place].user_id != user_id);
    });
}

/// The account is among `members`.
pub open spec fn is_member(members: Seq<MemberView>, user_id: u64) -> bool {
    first_member(members, user_id) < members.len()
}

/// The first of `members` with the account `user_id`.
pub open spec fn member_of(members: Seq<MemberView>, user_id: u64) -> Option<MemberView> {
    if is_member(members, user_id) {
        Some(members[first_member(members, user_id)])
    } else {
        None
    }
}

/// The place of the first of `members` with the account `user_id`; the length
/// of `members` where there is none.
pub fn find_member(members: &Vec<Member>, user_id: u64) -> (place: usize)
    ensures
        place == first_member(members.deep_view(), user_id),
        place <= members.len(),
{
    let mut i: usize = 0;
    while i < members.len()
        invariant
            i <= members.len(),
            forall|j: int| 0 <= j < i ==> (#[trigger] members.deep_view()[j]).user_id != user_id,
        decreases members.len() - i,
    {
        if members[i].user_id == user_id {
            proof {
                assert(members.deep_view()[i as int].user_id == user_id);
                lemma_first_member_is(members.deep_view(), user_id, i as int);
            }
            return i;
        }
        assert(members.deep_view()[i as int].user_id != user_id);
        i = i + 1;
    }
    proof {
        lemma_first_member_is(members.deep_view(), user_id, i as int);
    }
    i
}

/// If the user is among the members of the community.
pub fn is_user_in_guild(members: &Vec<Member>, user_id: u64) -> (found: bool)
    ensures
        found == is_member(members.deep_view(), user_id),
        found == exists|i: int|
            0 <= i < members.len() && (#[trigger] members.deep_view()[i]).user_id == user_id,
{
    let place = find_member(members, user_id);
    proof {
        lemma_first_member(members.deep_view(), user_id);
    }
    place < members.len()
}

/// The first member of the community with the account `user`, if there is one.
pub fn get_guild_member_from_user(members: &Vec<Member>, user: u64) -> (member: Option<Member>)
    ensures
        member.deep_view() == member_of(members.deep_view(), user),
{
    let place = find_member(members, user);
    if place < members.len() {
        Some(members[place].clone())
    } else {
        None
    }
}

/// The identifier of the first of `roles` that is named `name`.
pub open spec fn role_named(roles: Seq<RoleView>, name: Seq<char>) -> Option<u64>
    decreases roles.len(),
{
    if roles.len() == 0 {
        None
    } else if roles[0].name == name {
        Some(roles[0].id)
    } else {
        role_named(roles.drop_first(), name)
    }
}

/// The identifier of the first role with the given name.
pub fn get_role_id_from_name(roles: &Vec<Role>, role_name: &str) -> (id: Option<u64>)
    ensures
        id == role_named(roles.deep_view(), role_name@),
{
    let wanted = role_name.to_owned();
    let mut i: usize = 0;
    assert(roles.deep_view().skip(0) =~= roles.deep_view());
    while i < roles.len()
        invariant
            i <= roles.len(),
            wanted@ == role_name@,
            role_named(roles.deep_view(), role_name@) == role_named(
                roles.deep_view().skip(i as int),
                role_name@,
            ),
        decreases roles.len() - i,
    {
        let ghost rest = roles.deep_view().skip(i as int);
        assert(rest[0] == roles[i as int]@);
        assert(rest.drop_first() =~= roles.deep_view().skip(i + 1));
        if roles[i].name == wanted {
            return Some(roles[i].id);
        }
        i = i + 1;
    }
    assert(roles.deep_view().skip(i as int).len() == 0);
    None
}

/// The member holds the first role that is named `name`.
pub open spec fn holds_named(member: MemberView, roles: Seq<RoleView>, name: Seq<char>) -> bool {
    match role_named(roles, name) {
        Some(role) => member.has_role(role),
        None => false,
    }
}

/// Whether the member holds the first role with the given name.
pub fn member_has_role(member: &Member, roles: &Vec<Role>, role_name: &str) -> (held: bool)
    ensures
        held == holds_named(member@, roles.deep_view(), role_name@),
{
    match get_role_id_from_name(roles, role_name) {
        Some(role) => member.has_role(role),
        None => false,
    }
}

/// One of the names is that of a role which the member holds.
pub open spec fn holds_any_named(
    member: MemberView,
    roles: Seq<RoleView>,
    role_names: Seq<Seq<char>>,
) -> bool {
    exists|k: int| 0 <= k < role_names.len() && holds_named(member, roles, #[trigger] role_names[k])
}

/// Whether the user holds a role under one of the names. A user who is no
/// member holds none.
pub fn user_has_roles_or(member: Option<&Member>, roles: &Vec<Role>, role_names: &Vec<String>) -> (held: bool)
    ensures
        held == match member {
            Some(m) => holds_any_named(m@, roles.deep_view(), role_names.deep_view()),
            None => false,
        },
{
    match member {
        None => false,
        Some(m) => {
            let mut k: usize = 0;
            while k < role_names.len()
                invariant
                    k <= role_names.len(),
                    member == Some(m),
                    forall|j: int|
                        0 <= j < k ==> !holds_named(
                            m@,
                            roles.deep_view(),
                            #[trigger] role_names.deep_view()[j],
                        ),
                decreases role_names.len() - k,
            {
                assert(role_names.deep_view()[k as int] == role_names[k as int]@);
                if member_has_role(m, roles, role_names[k].as_str()) {
                    assert(holds_named(m@, roles.deep_view(), role_names.deep_view()[k as int]));
                    return true;
                }
                k = k + 1;
            }
            false
        },
    }
}

} // verus!
