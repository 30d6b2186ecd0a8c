//! The table of verification sessions, keyed by email.
//!
//! The table itself holds at most one session for an email: writing a session
//! puts it in the place of the session of the same email. That an account
//! holds at most one session is kept by whoever writes: a session is issued
//! only to an account that was looked up and found to hold none.

use crate::verification_db::{VerificationSession, VerificationSessionView};
use vstd::prelude::*;

verus! {

/// A table of sessions by email, as mathematical values.
pub type Sessions = Map<Seq<char>, VerificationSessionView>;

/// Some row of `rows` has the email.
pub open spec fn has_session_email(rows: Seq<VerificationSessionView>, email: Seq<char>) -> bool {
    exists|i: int| 0 <= i < rows.len() && (#[trigger] rows[i]).email == email
}

/// No two rows of `rows` have the same email.
pub open spec fn distinct_sessions(rows: Seq<VerificationSessionView>) -> bool {
    forall|i: int, j: int|
        0 <= i < j < rows.len() ==> (#[trigger] rows[i]).email != (#[trigger] rows[j]).email
}

/// The table that a list of sessions makes: each session stands under its
/// email, a later session in place of an earlier one of the same email.
pub open spec fn sessions_of(rows: Seq<VerificationSessionView>) -> Sessions
    decreases rows.len(),
{
    if rows.len() == 0 {
        Map::empty()
    } else {
        sessions_of(rows.drop_last()).insert(rows.last().email, rows.last())
    }
}

/// Every session of a table stands under its own email.
pub open spec fn keyed_by_email(table: Sessions) -> bool {
    forall|email: Seq<char>| #[trigger] table.contains_key(email) ==> table[email].email == email
}

/// No two sessions of the table belong to one account.
pub open spec fn one_per_account(table: Sessions) -> bool {
    forall|a: Seq<char>, b: Seq<char>|
        #[trigger] table.contains_key(a) && #[trigger] table.contains_key(b)
            && table[a].discord_id == table[b].discord_id ==> a == b
}

/// Every session of a table stands under its own email, and no two sessions
/// of the table belong to one account.
pub open spec fn well_keyed(table: Sessions) -> bool {
    keyed_by_email(table) && one_per_account(table)
}

/// The account holds a session in the table.
pub open spec fn holds_session(table: Sessions, discord_id: u64) -> bool {
    exists|email: Seq<char>| #[trigger]
        table.contains_key(email) && table[email].discord_id == discord_id
}

/// The session that the account holds in the table. Where the account holds
/// several, this is one of them.
pub open spec fn session_of(table: Sessions, discord_id: u64) -> Option<VerificationSessionView> {
    if holds_session(table, discord_id) {
        Some(
            table[choose|email: Seq<char>| #[trigger]
                table.contains_key(email) && table[email].discord_id == discord_id],
        )
    } else {
        None
    }
}

/// The account holds no session under another email than `email`.
pub open spec fn free_for(table: Sessions, discord_id: u64, email: Seq<char>) -> bool {
    forall|other: Seq<char>| #[trigger]
        table.contains_key(other) && table[other].discord_id == discord_id ==> other == email
}

/// The table without the session of an email and without the sessions of an
/// account, as far as each is asked for.
pub open spec fn without(
    table: Sessions,
    email: Option<Seq<char>>,
    discord_id: Option<u64>,
) -> Sessions {
    Map::new(
        |e: Seq<char>|
            table.contains_key(e) && email != Some(e) && discord_id != Some(table[e].discord_id),
        |e: Seq<char>| table[e],
    )
}

/// The table after a session was written: the session stands under its email,
/// in the place of the session that stood there.
pub open spec fn with_session(table: Sessions, session: VerificationSessionView) -> Sessions {
    table.insert(session.email, session)
}

/// The emails of `sessions_of(rows)` are those of the rows.
pub proof fn lemma_sessions_of_domain(rows: Seq<VerificationSessionView>)
    ensures
        forall|email: Seq<char>| #[trigger]
            sessions_of(rows).contains_key(email) <==> has_session_email(rows, email),
    decreases rows.len(),
{
    if rows.len() > 0 {
        let earlier = rows.drop_last();
        lemma_sessions_of_domain(earlier);
        assert forall|email: Seq<char>| #[trigger]
            sessions_of(rows).contains_key(email) <==> has_session_email(rows, email) by {
            if has_session_email(rows, email) {
                let i = choose|i: int| 0 <= i < rows.len() && (#[trigger] rows[i]).email == email;
                if i < rows.len() - 1 {
                    assert(earlier[i].email == email);
                }
            }
            if sessions_of(rows).contains_key(email) {
                if email == rows.last().email {
                    assert(rows[rows.len() - 1].email == email);
                } else {
                    assert(sessions_of(rows) == sessions_of(earlier).insert(
                        rows.last().email,
                        rows.last(),
                    ));
                    assert(sessions_of(earlier).contains_key(email));
                    assert(has_session_email(earlier, email));
                    let i = choose|i: int|
                        0 <= i < earlier.len() && (#[trigger] earlier[i]).email == email;
                    assert(rows[i].email == email);
                }
            }
        }
    }
}

/// Where no two rows share an email, each row is the session that the table
/// holds of the row's email.
pub proof fn lemma_sessions_of_value(rows: Seq<VerificationSessionView>, i: int)
    requires
        distinct_sessions(rows),
        0 <= i < rows.len(),
    ensures
        sessions_of(rows).contains_key(rows[i].email),
        sessions_of(rows)[rows[i].email] == rows[i],
    decreases rows.len(),
{
    let earlier = rows.drop_last();
    if i < rows.len() - 1 {
        assert(rows[i].email != rows[rows.len() - 1].email);
        assert(distinct_sessions(earlier)) by {
            assert forall|a: int, b: int| 0 <= a < b < earlier.len() implies (
            #[trigger] earlier[a]).email != (#[trigger] earlier[b]).email by {
                assert(rows[a].email != rows[b].email);
            }
        }
        lemma_sessions_of_value(earlier, i);
        assert(earlier[i] == rows[i]);
    }
}

/// In the table of rows without a shared email, every session stands under
/// its own email.
pub proof fn lemma_sessions_keyed(rows: Seq<VerificationSessionView>)
    requires
        distinct_sessions(rows),
    ensures
        keyed_by_email(sessions_of(rows)),
{
    lemma_sessions_of_domain(rows);
    let table = sessions_of(rows);
    assert forall|email: Seq<char>| #[trigger] table.contains_key(email) implies table[email].email
        == email by {
        let i = choose|i: int| 0 <= i < rows.len() && (#[trigger] rows[i]).email == email;
        lemma_sessions_of_value(rows, i);
    }
}

/// In a table with one session to an account, the session that stands under
/// an email is the session of its account.
pub proof fn lemma_session_of(table: Sessions, email: Seq<char>)
    requires
        one_per_account(table),
        table.contains_key(email),
    ensures
        session_of(table, table[email].discord_id) == Some(table[email]),
{
    let id = table[email].discord_id;
    assert(holds_session(table, id));
    let chosen = choose|e: Seq<char>| #[trigger] table.contains_key(e) && table[e].discord_id == id;
    assert(chosen == email);
}

/// Writing a session for an account that holds none under another email
/// leaves a well-keyed table well keyed, and the session is then the one
/// that its account holds.
pub proof fn lemma_with_session(table: Sessions, session: VerificationSessionView)
    requires
        well_keyed(table),
        free_for(table, session.discord_id, session.email),
    ensures
        well_keyed(with_session(table, session)),
        session_of(with_session(table, session), session.discord_id) == Some(session),
{
    let after = with_session(table, session);
    assert(after.contains_key(session.email));
    assert(one_per_account(after)) by {
        assert forall|a: Seq<char>, b: Seq<char>|
            #[trigger] after.contains_key(a) && #[trigger] after.contains_key(b)
                && after[a].discord_id == after[b].discord_id implies a == b by {
            if a != session.email && b != session.email {
                assert(table.contains_key(a) && table.contains_key(b));
            } else if a != session.email {
                assert(table.contains_key(a));
            } else if b != session.email {
                assert(table.contains_key(b));
            }
        }
    }
    lemma_session_of(after, session.email);
}

/// Taking sessions out of a well-keyed table leaves it well keyed.
pub proof fn lemma_without_keeps_keys(
    table: Sessions,
    email: Option<Seq<char>>,
    discord_id: Option<u64>,
)
    requires
        well_keyed(table),
    ensures
        well_keyed(without(table, email, discord_id)),
        forall|gone: Seq<char>| well_keyed(#[trigger] table.remove(gone)),
{
    let after = without(table, email, discord_id);
    assert forall|a: Seq<char>, b: Seq<char>|
        #[trigger] after.contains_key(a) && #[trigger] after.contains_key(b)
            && after[a].discord_id == after[b].discord_id implies a == b by {
        assert(table.contains_key(a) && table.contains_key(b));
    }
    assert forall|gone: Seq<char>| well_keyed(#[trigger] table.remove(gone)) by {
        let less = table.remove(gone);
        assert forall|a: Seq<char>, b: Seq<char>|
            #[trigger] less.contains_key(a) && #[trigger] less.contains_key(b)
                && less[a].discord_id == less[b].discord_id implies a == b by {
            assert(table.contains_key(a) && table.contains_key(b));
        }
    }
}

/// The table of verification sessions.
#[derive(Debug)]
pub struct SessionTable {
    rows: Vec<VerificationSession>,
}

impl View for SessionTable {
    type V = Sessions;

    closed spec fn view(&self) -> Sessions {
        sessions_of(self.rows.deep_view())
    }
}

impl SessionTable {
    #[verifier::type_invariant]
    spec fn distinct(self) -> bool {
        distinct_sessions(self.rows.deep_view())
    }

    /// An empty table.
    pub fn new() -> (table: Self)
        ensures
            table@ == Sessions::empty(),
            well_keyed(table@),
    {
        let rows: Vec<VerificationSession> = Vec::new();
        assert(rows.deep_view() =~= Seq::<VerificationSessionView>::empty());
        SessionTable { rows }
    }

    /// Whether the table holds no session.
    pub fn is_empty(&self) -> (empty: bool)
        ensures
            empty == (self@ == Sessions::empty()),
    {
        proof {
            lemma_sessions_of_domain(self.rows.deep_view());
            if self.rows.len() > 0 {
                assert(has_session_email(self.rows.deep_view(), self.rows.deep_view()[0].email));
                assert(self@.contains_key(self.rows.deep_view()[0].email));
            } else {
                assert(self@ =~= Sessions::empty());
            }
        }
        self.rows.len() == 0
    }

    /// The place of the row with the email, or the number of rows where there
    /// is none.
    fn position(&self, email: &String) -> (place: usize)
        ensures
            place <= self.rows.len(),
            place < self.rows.len() ==> self.rows[place as int]@.email == email@,
            place == self.rows.len() ==> !has_session_email(self.rows.deep_view(), email@),
    {
        let mut i: usize = 0;
        while i < self.rows.len()
            invariant
                i <= self.rows.len(),
                forall|j: int| 0 <= j < i ==> (#[trigger] self.rows.deep_view()[j]).email != email@,
            decreases self.rows.len() - i,
        {
            if self.rows[i].email == *email {
                return i;
            }
            assert(self.rows.deep_view()[i as int].email != email@);
            i = i + 1;
        }
        i
    }

    /// A session that the account holds, if it holds one: the session, where
    /// the table holds one session to an account.
    pub fn get_by_account(&self, discord_id: u64) -> (session: Option<VerificationSession>)
        ensures
            match session {
                Some(s) => self@.contains_key(s@.email) && self@[s@.email] == s@ && s@.discord_id
                    == discord_id,
                None => !holds_session(self@, discord_id),
            },
            one_per_account(self@) ==> session.deep_view() == session_of(self@, discord_id),
            keyed_by_email(self@),
    {
        proof {
            use_type_invariant(self);
            lemma_sessions_of_domain(self.rows.deep_view());
            lemma_sessions_keyed(self.rows.deep_view());
        }
        let ghost rows = self.rows.deep_view();
        let mut i: usize = 0;
        while i < self.rows.len()
            invariant
                i <= self.rows.len(),
                rows == self.rows.deep_view(),
                distinct_sessions(rows),
                keyed_by_email(sessions_of(rows)),
                forall|j: int| 0 <= j < i ==> (#[trigger] rows[j]).discord_id != discord_id,
            decreases self.rows.len() - i,
        {
            assert(rows[i as int] == self.rows[i as int]@);
            if self.rows[i].discord_id == discord_id {
                proof {
                    lemma_sessions_of_value(rows, i as int);
                    if one_per_account(sessions_of(rows)) {
                        lemma_session_of(sessions_of(rows), rows[i as int].email);
                    }
                }
                return Some(self.rows[i].clone());
            }
            i = i + 1;
        }
        proof {
            if holds_session(self@, discord_id) {
                let email = choose|email: Seq<char>| #[trigger]
                    self@.contains_key(email) && self@[email].discord_id == discord_id;
                assert(has_session_email(rows, email));
                let j = choose|j: int| 0 <= j < rows.len() && (#[trigger] rows[j]).email == email;
                lemma_sessions_of_value(rows, j);
            }
        }
        None
    }

    /// The session of an email, if the table holds one.
    pub fn get(&self, email: &str) -> (session: Option<VerificationSession>)
        ensures
            session.deep_view() == (if self@.contains_key(email@) {
                Some(self@[email@])
            } else {
                None
            }),
    {
        let wanted = email.to_owned();
        let place = self.position(&wanted);
        proof {
            use_type_invariant(self);
            lemma_sessions_of_domain(self.rows.deep_view());
            if place < self.rows.len() {
                assert(self.rows.deep_view()[place as int] == self.rows[place as int]@);
                lemma_sessions_of_value(self.rows.deep_view(), place as int);
            }
        }
        if place < self.rows.len() {
            Some(self.rows[place].clone())
        } else {
            None
        }
    }

    /// Takes out the session of the email and the sessions of the account, as
    /// far as each is asked for. Returns whether a session was taken out.
    fn remove_matching(&mut self, email: Option<&String>, discord_id: Option<u64>) -> (removed: bool)
        ensures
            final(self)@ == without(old(self)@, email.deep_view(), discord_id),
            removed == (final(self)@ != old(self)@),
    {
        proof {
            use_type_invariant(&*self);
        }
        let ghost before = self.rows.deep_view();
        let ghost gone_email = email.deep_view();
        let mut kept: Vec<VerificationSession> = Vec::new();
        let mut removed = false;
        let mut i: usize = 0;
        assert(kept.deep_view() =~= Seq::<VerificationSessionView>::empty());
        proof {
            assert(before.take(0) =~= Seq::<VerificationSessionView>::empty());
            assert(sessions_of(kept.deep_view()) =~= without(
                sessions_of(before.take(0)),
                gone_email,
                discord_id,
            ));
        }
        while i < self.rows.len()
            invariant
                i <= self.rows.len(),
                self.rows.deep_view() == before,
                gone_email == email.deep_view(),
                distinct_sessions(before),
                distinct_sessions(kept.deep_view()),
                forall|k: int|
                    0 <= k < kept.len() ==> exists|j: int|
                        0 <= j < i && before[j] == #[trigger] kept.deep_view()[k],
                sessions_of(kept.deep_view()) == without(
                    sessions_of(before.take(i as int)),
                    gone_email,
                    discord_id,
                ),
                removed == (kept.len() < i),
                kept.len() <= i,
            decreases self.rows.len() - i,
        {
            let row = &self.rows[i];
            let ghost so_far = kept.deep_view();
            let ghost shorter = before.take(i as int);
            let ghost longer = before.take(i + 1);
            proof {
                assert(before[i as int] == row@);
                assert(longer.drop_last() =~= shorter);
                assert(longer.last() == row@);
                lemma_sessions_of_domain(shorter);
            }
            let same_email = match email {
                Some(e) => row.email == *e,
                None => false,
            };
            let same_account = match discord_id {
                Some(id) => row.discord_id == id,
                None => false,
            };
            if same_email || same_account {
                removed = true;
                proof {
                    if has_session_email(shorter, row@.email) {
                        let j = choose|j: int|
                            0 <= j < shorter.len() && (#[trigger] shorter[j]).email == row@.email;
                        assert(before[j].email != before[i as int].email);
                    }
                    assert(sessions_of(so_far) =~= without(
                        sessions_of(longer),
                        gone_email,
                        discord_id,
                    ));
                }
            } else {
                kept.push(row.clone());
                proof {
                    let grown = kept.deep_view();
                    assert(grown =~= so_far.push(row@));
                    assert(grown.drop_last() =~= so_far);
                    assert forall|a: int, b: int| 0 <= a < b < grown.len() implies (
                    #[trigger] grown[a]).email != (#[trigger] grown[b]).email by {
                        if b == grown.len() - 1 {
                            let j = choose|j: int| 0 <= j < i && before[j] == so_far[a];
                            assert(before[j].email != before[i as int].email);
                        } else {
                            assert(so_far[a].email != so_far[b].email);
                        }
                    }
                    assert forall|k: int| 0 <= k < grown.len() implies exists|j: int|
                        0 <= j < i + 1 && before[j] == #[trigger] grown[k] by {
                        if k == grown.len() - 1 {
                            assert(before[i as int] == grown[k]);
                        } else {
                            let j = choose|j: int| 0 <= j < i && before[j] == so_far[k];
                            assert(before[j] == grown[k]);
                        }
                    }
                    assert(sessions_of(grown) =~= without(
                        sessions_of(longer),
                        gone_email,
                        discord_id,
                    ));
                }
            }
            i = i + 1;
        }
        proof {
            assert(before.take(self.rows.len() as int) =~= before);
            let after = kept.deep_view();
            lemma_sessions_len(after);
            lemma_sessions_len(before);
            if kept.len() == before.len() {
                assert(sessions_of(after) =~= sessions_of(before)) by {
                    lemma_same_size_subtable(sessions_of(after), sessions_of(before));
                }
            }
        }
        self.rows = kept;
        removed
    }

    /// Writes a session under its email, in the place of the session of the
    /// same email, if there is one.
    pub fn upsert(&mut self, session: VerificationSession)
        ensures
            final(self)@ == with_session(old(self)@, session@),
            keyed_by_email(final(self)@),
    {
        let _ = self.remove_matching(Some(&session.email), None);
        proof {
            use_type_invariant(&*self);
            lemma_sessions_of_domain(self.rows.deep_view());
        }
        let ghost before = self.rows.deep_view();
        let ghost entry = session@;
        let mut rows: Vec<VerificationSession> = Vec::new();
        core::mem::swap(&mut rows, &mut self.rows);
        rows.push(session);
        proof {
            let after = rows.deep_view();
            assert(after =~= before.push(entry));
            assert(after.drop_last() =~= before);
            assert forall|i: int, j: int| 0 <= i < j < after.len() implies (#[trigger] after[i]).email
                != (#[trigger] after[j]).email by {
                if j == after.len() - 1 {
                    assert(!sessions_of(before).contains_key(entry.email));
                    if before[i].email == entry.email {
                        assert(has_session_email(before, entry.email));
                    }
                } else {
                    assert(before[i].email != before[j].email);
                }
            }
            lemma_sessions_keyed(after);
            assert(sessions_of(after) =~= with_session(old(self)@, entry));
        }
        self.rows = rows;
    }

    /// Deletes the session of an email. Returns whether there was one.
    pub fn delete(&mut self, email: &str) -> (deleted: bool)
        ensures
            final(self)@ == old(self)@.remove(email@),
            deleted == old(self)@.contains_key(email@),
            keyed_by_email(final(self)@),
    {
        let wanted = email.to_owned();
        let removed = self.remove_matching(Some(&wanted), None);
        proof {
            use_type_invariant(&*self);
            lemma_sessions_keyed(self.rows.deep_view());
            assert(self@ =~= old(self)@.remove(email@));
            if !old(self)@.contains_key(email@) {
                assert(old(self)@.remove(email@) =~= old(self)@);
            }
        }
        removed
    }

    /// Deletes the sessions that an account holds. Returns whether there was
    /// one.
    pub fn delete_by_account(&mut self, discord_id: u64) -> (deleted: bool)
        ensures
            final(self)@ == without(old(self)@, None, Some(discord_id)),
            deleted == holds_session(old(self)@, discord_id),
            keyed_by_email(final(self)@),
    {
        let removed = self.remove_matching(None, Some(discord_id));
        proof {
            use_type_invariant(&*self);
            lemma_sessions_keyed(self.rows.deep_view());
            if !holds_session(old(self)@, discord_id) {
                assert(self@ =~= old(self)@);
            }
        }
        removed
    }
}

/// A table of rows without a shared email holds as many sessions as rows.
proof fn lemma_sessions_len(rows: Seq<VerificationSessionView>)
    requires
        distinct_sessions(rows),
    ensures
        sessions_of(rows).dom().finite(),
        sessions_of(rows).dom().len() == rows.len(),
    decreases rows.len(),
{
    lemma_sessions_of_domain(rows);
    if rows.len() > 0 {
        let earlier = rows.drop_last();
        assert(distinct_sessions(earlier)) by {
            assert forall|a: int, b: int| 0 <= a < b < earlier.len() implies (
            #[trigger] earlier[a]).email != (#[trigger] earlier[b]).email by {
                assert(rows[a].email != rows[b].email);
            }
        }
        lemma_sessions_len(earlier);
        lemma_sessions_of_domain(earlier);
        if has_session_email(earlier, rows.last().email) {
            let k = choose|k: int|
                0 <= k < earlier.len() && (#[trigger] earlier[k]).email == rows.last().email;
            assert(rows[k].email != rows[rows.len() - 1].email);
        }
        assert(sessions_of(rows).dom() =~= sessions_of(earlier).dom().insert(rows.last().email));
    }
}

/// A part of a finite table that holds as many sessions as the table is the
/// table.
proof fn lemma_same_size_subtable(part: Sessions, whole: Sessions)
    requires
        whole.dom().finite(),
        part.dom().finite(),
        part.dom().len() == whole.dom().len(),
        forall|e: Seq<char>| #[trigger] part.contains_key(e) ==> whole.contains_key(e) && part[e]
            == whole[e],
    ensures
        part =~= whole,
{
    assert(part.dom().subset_of(whole.dom()));
    vstd::set_lib::lemma_subset_equality(part.dom(), whole.dom());
}

} // verus!
