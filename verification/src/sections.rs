//! Section roles: a member holds the role of a section exactly while holding
//! the role of one of its subsections.

use crate::discord::{
    get_role_id_from_name, holds_any_named, role_named, user_has_roles_or, Member, MemberView,
    Role, RoleView,
};
use vstd::prelude::*;

verus! {

/// What is done with a section's role.
#[derive(Clone, Copy, Debug, PartialEq, Eq, Structural)]
pub enum SectionAction {
    Add,
    Remove,
}

/// A correction of one member's section role.
#[derive(Clone, Copy, Debug, PartialEq, Eq, Structural)]
pub struct SectionUpdate {
    pub role: u64,
    pub action: SectionAction,
}

/// The correction that one section asks for: none where the community has no
/// role of the section's name, or where the member holds the section's role
/// exactly as the subsections ask.
pub open spec fn section_update(
    member: MemberView,
    roles: Seq<RoleView>,
    section: Seq<char>,
    subsections: Seq<Seq<char>>,
) -> Option<SectionUpdate> {
    match role_named(roles, section) {
        None => None,
        Some(role) => {
            let in_subsection = holds_any_named(member, roles, subsections);
            if !in_subsection && member.has_role(role) {
                Some(SectionUpdate { role, action: SectionAction::Remove })
            } else if in_subsection && !member.has_role(role) {
                Some(SectionUpdate { role, action: SectionAction::Add })
            } else {
                None
            }
        },
    }
}

/// Decides on one section.
pub fn decide_section(
    member: &Member,
    roles: &Vec<Role>,
    section: &str,
    subsections: &Vec<String>,
) -> (update: Option<SectionUpdate>)
    ensures
        update == section_update(member@, roles.deep_view(), section@, subsections.deep_view()),
{
    match get_role_id_from_name(roles, section) {
        None => None,
        Some(role) => {
            let in_subsection = user_has_roles_or(Some(member), roles, subsections);
            let in_section = member.has_role(role);
            if !in_subsection && in_section {
                Some(SectionUpdate { role, action: SectionAction::Remove })
            } else if in_subsection && !in_section {
                Some(SectionUpdate { role, action: SectionAction::Add })
            } else {
                None
            }
        },
    }
}

/// The subsections of the section Dynamics.
pub open spec fn dynamics_subsections() -> Seq<Seq<char>> {
    seq!["Frame"@, "Aerodynamics"@, "Brakes"@, "Suspension"@]
}

/// The subsections of the section Electrical.
pub open spec fn electrical_subsections() -> Seq<Seq<char>> {
    seq!["Low Voltage"@, "Embedded"@, "Tractive System"@]
}

/// The subsections of the section Business.
pub open spec fn business_subsections() -> Seq<Seq<char>> {
    seq!["Marketing"@, "Purchasing"@, "Sponsorship"@]
}

/// The corrections of a member's section roles: those that the sections
/// Dynamics, Electrical and Business ask for, in this order.
pub open spec fn section_plan(member: MemberView, roles: Seq<RoleView>) -> Seq<SectionUpdate> {
    let dynamics = match section_update(member, roles, "Dynamics"@, dynamics_subsections()) {
        Some(update) => seq![update],
        None => Seq::empty(),
    };
    let electrical = match section_update(member, roles, "Electrical"@, electrical_subsections()) {
        Some(update) => dynamics.push(update),
        None => dynamics,
    };
    match section_update(member, roles, "Business"@, business_subsections()) {
        Some(update) => electrical.push(update),
        None => electrical,
    }
}

fn names_of(first: &str, second: &str, third: &str, fourth: Option<&str>) -> (names: Vec<String>)
    ensures
        names.deep_view() == (match fourth {
            Some(last) => seq![first@, second@, third@, last@],
            None => seq![first@, second@, third@],
        }),
{
    let mut names: Vec<String> = Vec::new();
    names.push(first.to_owned());
    names.push(second.to_owned());
    names.push(third.to_owned());
    match fourth {
        Some(last) => {
            names.push(last.to_owned());
            assert(names.deep_view() =~= seq![first@, second@, third@, last@]);
        },
        None => {
            assert(names.deep_view() =~= seq![first@, second@, third@]);
        },
    }
    names
}

/// Updates a member's section roles: the corrections that the member's roles
/// ask for. This is also where the sections and their subsections are named.
pub fn update_member_section_role(member: &Member, roles: &Vec<Role>) -> (updates: Vec<SectionUpdate>)
    ensures
        updates@ == section_plan(member@, roles.deep_view()),
{
    let mut updates: Vec<SectionUpdate> = Vec::new();
    let dynamics = names_of("Frame", "Aerodynamics", "Brakes", Some("Suspension"));
    match decide_section(member, roles, "Dynamics", &dynamics) {
        Some(update) => {
            updates.push(update);
        },
        None => {},
    }
    let electrical = names_of("Low Voltage", "Embedded", "Tractive System", None);
    match decide_section(member, roles, "Electrical", &electrical) {
        Some(update) => {
            updates.push(update);
        },
        None => {},
    }
    let business = names_of("Marketing", "Purchasing", "Sponsorship", None);
    match decide_section(member, roles, "Business", &business) {
        Some(update) => {
            updates.push(update);
        },
        None => {},
    }
    assert(updates@ =~= section_plan(member@, roles.deep_view()));
    updates
}

} // verus!
