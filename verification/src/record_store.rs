//! The record store: the table of roster records, keyed by email.
//!
//! The table is held in memory and says what each operation of the store
//! means: a relational store behind the service is expected to do the same.

use crate::verification_db::{Verification, VerificationView};
use vstd::prelude::*;

verus! {

/// Some row of `rows` has the email.
pub open spec fn has_email(rows: Seq<VerificationView>, email: Seq<char>) -> bool {
    exists|i: int| 0 <= i < rows.len() && (#[trigger] rows[i]).email == email
}

/// No two rows of `rows` have the same email.
pub open spec fn distinct_emails(rows: Seq<VerificationView>) -> bool {
    forall|i: int, j: int|
        0 <= i < j < rows.len() ==> (#[trigger] rows[i]).email != (#[trigger] rows[j]).email
}

/// The table that a list of records makes: each record stands under its
/// email, a later record in place of an earlier one of the same email.
pub open spec fn table_of(rows: Seq<VerificationView>) -> Map<Seq<char>, VerificationView>
    decreases rows.len(),
{
    if rows.len() == 0 {
        Map::empty()
    } else {
        table_of(rows.drop_last()).insert(rows.last().email, rows.last())
    }
}

/// Every record of a table stands under its own email.
pub open spec fn keyed_by_email(table: Map<Seq<char>, VerificationView>) -> bool {
    forall|email: Seq<char>| #[trigger]
        table.contains_key(email) ==> table[email].email == email
}

/// The record that a table holds of an email.
pub open spec fn record_at(table: Map<Seq<char>, VerificationView>, email: Seq<char>) -> Option<
    VerificationView,
> {
    if table.contains_key(email) {
        Some(table[email])
    } else {
        None
    }
}

/// The emails of `table_of(rows)` are those of the rows, each record stands
/// under its own email, and the table is finite.
pub proof fn lemma_table_of_domain(rows: Seq<VerificationView>)
    ensures
        forall|email: Seq<char>| #[trigger]
            table_of(rows).contains_key(email) <==> has_email(rows, email),
        keyed_by_email(table_of(rows)),
        table_of(rows).dom().finite(),
    decreases rows.len(),
{
    if rows.len() > 0 {
        let earlier = rows.drop_last();
        lemma_table_of_domain(earlier);
        assert forall|email: Seq<char>| #[trigger]
            table_of(rows).contains_key(email) <==> has_email(rows, email) by {
            if has_email(rows, email) {
                let i = choose|i: int| 0 <= i < rows.len() && (#[trigger] rows[i]).email == email;
                if i < rows.len() - 1 {
                    assert(earlier[i].email == email);
                }
            }
            if table_of(rows).contains_key(email) {
                if email == rows.last().email {
                    assert(rows[rows.len() - 1].email == email);
                } else {
                    assert(has_email(earlier, email));
                    let i = choose|i: int|
                        0 <= i < earlier.len() && (#[trigger] earlier[i]).email == email;
                    assert(rows[i].email == email);
                }
            }
        }
    }
}

/// Where no two rows share an email, each row is the record that the table
/// holds of the row's email.
pub proof fn lemma_table_of_value(rows: Seq<VerificationView>, i: int)
    requires
        distinct_emails(rows),
        0 <= i < rows.len(),
    ensures
        table_of(rows).contains_key(rows[i].email),
        table_of(rows)[rows[i].email] == rows[i],
    decreases rows.len(),
{
    let earlier = rows.drop_last();
    if i < rows.len() - 1 {
        assert(rows[i].email != rows[rows.len() - 1].email);
        assert(distinct_emails(earlier)) by {
            assert forall|a: int, b: int| 0 <= a < b < earlier.len() implies (
            #[trigger] earlier[a]).email != (#[trigger] earlier[b]).email by {
                assert(rows[a].email != rows[b].email);
            }
        }
        lemma_table_of_value(earlier, i);
        assert(earlier[i] == rows[i]);
    }
}

/// The table of roster records.
#[derive(Debug)]
pub struct VerificationTable {
    rows: Vec<Verification>,
}

impl View for VerificationTable {
    type V = Map<Seq<char>, VerificationView>;

    closed spec fn view(&self) -> Map<Seq<char>, VerificationView> {
        table_of(self.rows.deep_view())
    }
}

impl VerificationTable {
    #[verifier::type_invariant]
    spec fn distinct(self) -> bool {
        distinct_emails(self.rows.deep_view())
    }

    /// Every record of the table stands under its own email, and the table is
    /// finite.
    pub proof fn lemma_keyed_by_email(&self)
        ensures
            keyed_by_email(self@),
            self@.dom().finite(),
    {
        lemma_table_of_domain(self.rows.deep_view());
    }

    /// An empty table.
    pub fn new() -> (table: Self)
        ensures
            table@ == Map::<Seq<char>, VerificationView>::empty(),
    {
        let rows: Vec<Verification> = Vec::new();
        assert(rows.deep_view() =~= Seq::<VerificationView>::empty());
        VerificationTable { rows }
    }

    /// How many records the table holds.
    pub fn len(&self) -> (count: usize)
        ensures
            count == self@.dom().len(),
    {
        proof {
            use_type_invariant(self);
            lemma_table_len(self.rows.deep_view());
        }
        self.rows.len()
    }

    /// The place of the row with the email, or the number of rows where there
    /// is none.
    fn position(&self, email: &String) -> (place: usize)
        ensures
            place <= self.rows.len(),
            place < self.rows.len() ==> self.rows[place as int]@.email == email@,
            place == self.rows.len() ==> !has_email(self.rows.deep_view(), email@),
    {
        let mut i: usize = 0;
        while i < self.rows.len()
            invariant
                i <= self.rows.len(),
                forall|j: int| 0 <= j < i ==> (#[trigger] self.rows.deep_view()[j]).email != email@,
            decreases self.rows.len() - i,
        {
            if self.rows[i].email == *email {
                return i;
            }
            assert(self.rows.deep_view()[i as int].email != email@);
            i = i + 1;
        }
        i
    }

    /// The record of an email, if the table holds one.
    pub fn get(&self, email: &str) -> (record: Option<Verification>)
        ensures
            record.deep_view() == record_at(self@, email@),
    {
        let wanted = email.to_owned();
        let place = self.position(&wanted);
        proof {
            use_type_invariant(self);
            lemma_table_of_domain(self.rows.deep_view());
            if place < self.rows.len() {
                assert(self.rows.deep_view()[place as int] == self.rows[place as int]@);
                lemma_table_of_value(self.rows.deep_view(), place as int);
            }
        }
        if place < self.rows.len() {
            Some(self.rows[place].clone())
        } else {
            None
        }
    }

    /// A record that is linked to the account, if the table holds one. Where
    /// several records name the account, which of them comes back is open.
    pub fn get_by_account(&self, discord_id: u64) -> (record: Option<Verification>)
        ensures
            match record {
                Some(r) => self@.contains_key(r@.email) && self@[r@.email] == r@ && r@.discord_id
                    == Some(discord_id),
                None => forall|email: Seq<char>| #[trigger]
                    self@.contains_key(email) ==> self@[email].discord_id != Some(discord_id),
            },
    {
        proof {
            use_type_invariant(self);
            lemma_table_of_domain(self.rows.deep_view());
        }
        let mut i: usize = 0;
        while i < self.rows.len()
            invariant
                i <= self.rows.len(),
                distinct_emails(self.rows.deep_view()),
                forall|j: int|
                    0 <= j < i ==> (#[trigger] self.rows.deep_view()[j]).discord_id != Some(
                        discord_id,
                    ),
            decreases self.rows.len() - i,
        {
            assert(self.rows.deep_view()[i as int] == self.rows[i as int]@);
            if self.rows[i].discord_id == Some(discord_id) {
                proof {
                    lemma_table_of_value(self.rows.deep_view(), i as int);
                }
                return Some(self.rows[i].clone());
            }
            i = i + 1;
        }
        proof {
            let rows = self.rows.deep_view();
            assert forall|email: Seq<char>| #[trigger] self@.contains_key(email) implies self@[email].discord_id
                != Some(discord_id) by {
                assert(has_email(rows, email));
                let j = choose|j: int| 0 <= j < rows.len() && (#[trigger] rows[j]).email == email;
                lemma_table_of_value(rows, j);
            }
        }
        None
    }

    /// Puts a row in the place of the row at `place`, which has the same email.
    fn replace_row(&mut self, place: usize, row: Verification)
        requires
            place < old(self).rows.len(),
            old(self).rows[place as int]@.email == row@.email,
        ensures
            final(self)@ == old(self)@.insert(row@.email, row@),
    {
        proof {
            use_type_invariant(&*self);
        }
        let ghost before = self.rows.deep_view();
        let ghost entry = row@;
        let mut rows: Vec<Verification> = Vec::new();
        core::mem::swap(&mut rows, &mut self.rows);
        rows.set(place, row);
        let ghost after = rows.deep_view();
        proof {
            assert(after =~= before.update(place as int, entry));
            lemma_update_row(before, place as int, entry);
        }
        self.rows = rows;
    }

    /// Adds a row whose email the table does not hold.
    fn add_row(&mut self, row: Verification)
        requires
            !has_email(old(self).rows.deep_view(), row@.email),
        ensures
            final(self)@ == old(self)@.insert(row@.email, row@),
    {
        proof {
            use_type_invariant(&*self);
        }
        let ghost before = self.rows.deep_view();
        let ghost entry = row@;
        let mut rows: Vec<Verification> = Vec::new();
        core::mem::swap(&mut rows, &mut self.rows);
        rows.push(row);
        proof {
            let after = rows.deep_view();
            assert(after =~= before.push(entry));
            assert(after.drop_last() =~= before);
            assert forall|i: int, j: int| 0 <= i < j < after.len() implies (#[trigger] after[i]).email
                != (#[trigger] after[j]).email by {
                if j == after.len() - 1 {
                    assert(before[i].email != entry.email);
                } else {
                    assert(before[i].email != before[j].email);
                }
            }
        }
        self.rows = rows;
    }

    /// Links the record of an email to an account, or with `None` unlinks it.
    /// Returns how many records were updated: one where the table holds the
    /// email, else none.
    pub fn set_account_link(&mut self, email: &str, discord_id: Option<u64>) -> (updated: usize)
        ensures
            final(self)@ == (if old(self)@.contains_key(email@) {
                old(self)@.insert(email@, old(self)@[email@].with_link(discord_id))
            } else {
                old(self)@
            }),
            updated == (if old(self)@.contains_key(email@) {
                1usize
            } else {
                0usize
            }),
    {
        let wanted = email.to_owned();
        let place = self.position(&wanted);
        proof {
            use_type_invariant(&*self);
            lemma_table_of_domain(self.rows.deep_view());
        }
        if place < self.rows.len() {
            proof {
                assert(self.rows.deep_view()[place as int] == self.rows[place as int]@);
                lemma_table_of_value(self.rows.deep_view(), place as int);
            }
            let mut row = self.rows[place].clone();
            row.discord_id = discord_id;
            self.replace_row(place, row);
            1
        } else {
            0
        }
    }

    /// Writes the roster's fields of `row` under the row's email: over the
    /// name, roster flag and dues flag of a record that is there, whose account
    /// link stays; else as a new record without a link.
    pub fn upsert(&mut self, row: &Verification)
        ensures
            final(self)@ == old(self)@.insert(
                row@.email,
                row@.with_link(
                    match record_at(old(self)@, row@.email) {
                        Some(held) => held.discord_id,
                        None => None,
                    },
                ),
            ),
    {
        let place = self.position(&row.email);
        proof {
            use_type_invariant(&*self);
            lemma_table_of_domain(self.rows.deep_view());
        }
        let mut entry = row.clone();
        if place < self.rows.len() {
            proof {
                assert(self.rows.deep_view()[place as int] == self.rows[place as int]@);
                lemma_table_of_value(self.rows.deep_view(), place as int);
            }
            entry.discord_id = self.rows[place].discord_id;
            self.replace_row(place, entry);
        } else {
            entry.discord_id = None;
            self.add_row(entry);
        }
    }

    /// Deletes every record whose email `keep` does not hold.
    pub fn retain_emails(&mut self, keep: &VerificationTable)
        ensures
            final(self)@ == old(self)@.restrict(keep@.dom()),
    {
        proof {
            use_type_invariant(&*self);
            use_type_invariant(keep);
            lemma_table_of_domain(keep.rows.deep_view());
        }
        let ghost before = self.rows.deep_view();
        let ghost listed = keep@.dom();
        let mut kept: Vec<Verification> = Vec::new();
        let mut i: usize = 0;
        assert(kept.deep_view() =~= Seq::<VerificationView>::empty());
        proof {
            lemma_table_of_domain(before.take(0));
            assert(table_of(kept.deep_view()) =~= table_of(before.take(0)).restrict(listed));
        }
        while i < self.rows.len()
            invariant
                i <= self.rows.len(),
                self.rows.deep_view() == before,
                distinct_emails(before),
                listed == keep@.dom(),
                forall|email: Seq<char>| #[trigger]
                    listed.contains(email) <==> has_email(keep.rows.deep_view(), email),
                distinct_emails(kept.deep_view()),
                forall|k: int|
                    0 <= k < kept.len() ==> has_email(
                        before.take(i as int),
                        (#[trigger] kept.deep_view()[k]).email,
                    ),
                table_of(kept.deep_view()) == table_of(before.take(i as int)).restrict(listed),
            decreases self.rows.len() - i,
        {
            let row = &self.rows[i];
            let ghost so_far = kept.deep_view();
            let ghost shorter = before.take(i as int);
            let ghost longer = before.take(i + 1);
            let place = keep.position(&row.email);
            proof {
                assert(before[i as int] == row@);
                assert(longer.drop_last() =~= shorter);
                assert(longer.last() == row@);
                assert forall|k: int| 0 <= k < so_far.len() implies has_email(
                    longer,
                    (#[trigger] so_far[k]).email,
                ) by {
                    assert(has_email(shorter, so_far[k].email));
                    let j = choose|j: int|
                        0 <= j < shorter.len() && (#[trigger] shorter[j]).email == so_far[k].email;
                    assert(longer[j].email == so_far[k].email);
                }
            }
            if place < keep.rows.len() {
                kept.push(row.clone());
                proof {
                    let grown = kept.deep_view();
                    assert(grown =~= so_far.push(row@));
                    assert(grown.drop_last() =~= so_far);
                    assert(keep.rows.deep_view()[place as int].email == row@.email);
                    assert(listed.contains(row@.email));
                    assert forall|a: int, b: int| 0 <= a < b < grown.len() implies (
                    #[trigger] grown[a]).email != (#[trigger] grown[b]).email by {
                        if b == grown.len() - 1 {
                            assert(has_email(shorter, so_far[a].email));
                            let j = choose|j: int|
                                0 <= j < shorter.len() && (#[trigger] shorter[j]).email
                                    == so_far[a].email;
                            assert(before[j].email != before[i as int].email);
                        } else {
                            assert(so_far[a].email != so_far[b].email);
                        }
                    }
                    assert forall|k: int| 0 <= k < grown.len() implies has_email(
                        longer,
                        (#[trigger] grown[k]).email,
                    ) by {
                        if k == grown.len() - 1 {
                            assert(longer[i as int].email == grown[k].email);
                        } else {
                            assert(grown[k] == so_far[k]);
                        }
                    }
                    assert(table_of(grown) =~= table_of(longer).restrict(listed));
                }
            } else {
                proof {
                    assert(!listed.contains(row@.email));
                    assert(table_of(so_far) =~= table_of(longer).restrict(listed));
                }
            }
            i = i + 1;
        }
        assert(before.take(self.rows.len() as int) =~= before);
        self.rows = kept;
    }

    /// Unlinks every record that is linked to the account. Returns how many
    /// records were unlinked.
    pub fn clear_account_links(&mut self, discord_id: u64) -> (updated: usize)
        ensures
            final(self)@ == unlinked(old(self)@, discord_id),
            updated == links_to(old(self)@, discord_id).len(),
            updated > 0 <==> names_account(old(self)@, discord_id),
    {
        proof {
            use_type_invariant(&*self);
            lemma_table_of_domain(self.rows.deep_view());
        }
        let ghost before = self.rows.deep_view();
        let ghost mut seen: Set<Seq<char>> = Set::empty();
        let mut rows: Vec<Verification> = Vec::new();
        let mut updated: usize = 0;
        let mut i: usize = 0;
        assert(rows.deep_view() =~= Seq::<VerificationView>::empty());
        while i < self.rows.len()
            invariant
                i <= self.rows.len(),
                updated <= i,
                self.rows.deep_view() == before,
                distinct_emails(before),
                rows.len() == i,
                forall|k: int|
                    0 <= k < i ==> (#[trigger] rows.deep_view()[k]) == unlinked_row(
                        before[k],
                        discord_id,
                    ),
                updated > 0 <==> exists|k: int|
                    0 <= k < i && (#[trigger] before[k]).discord_id == Some(discord_id),
                seen.finite(),
                updated == seen.len(),
                forall|email: Seq<char>|
                    seen.contains(email) <==> linked_before(before, i as int, email, discord_id),
            decreases self.rows.len() - i,
        {
            let mut row = self.rows[i].clone();
            assert(row@ == before[i as int]);
            let ghost so_far = rows.deep_view();
            let ghost known = seen;
            if row.discord_id == Some(discord_id) {
                row.discord_id = None;
                updated = updated + 1;
                proof {
                    if known.contains(before[i as int].email) {
                        let k = choose|k: int|
                            0 <= k < i && (#[trigger] before[k]).email == before[i as int].email
                                && before[k].discord_id == Some(discord_id);
                        assert(before[k].email != before[i as int].email);
                    }
                    seen = known.insert(before[i as int].email);
                }
            }
            rows.push(row);
            assert(rows.deep_view() =~= so_far.push(row@));
            i = i + 1;
            proof {
                assert forall|email: Seq<char>|
                    seen.contains(email) <==> linked_before(
                        before,
                        i as int,
                        email,
                        discord_id,
                    ) by {
                    if linked_before(before, i as int, email, discord_id) {
                        let k = choose|k: int|
                            0 <= k < i && (#[trigger] before[k]).email == email
                                && before[k].discord_id == Some(discord_id);
                        if k < i - 1 {
                            assert(linked_before(before, i - 1, email, discord_id));
                        }
                    }
                    if known.contains(email) {
                        let k = choose|k: int|
                            0 <= k < i - 1 && (#[trigger] before[k]).email == email
                                && before[k].discord_id == Some(discord_id);
                        assert(before[k].email == email);
                    }
                    if seen.contains(email) && !known.contains(email) {
                        assert(before[i - 1].email == email);
                    }
                }
            }
        }
        proof {
            let table = table_of(before);
            assert forall|email: Seq<char>|
                seen.contains(email) <==> links_to(table, discord_id).contains(email) by {
                if linked_before(before, before.len() as int, email, discord_id) {
                    let k = choose|k: int|
                        0 <= k < before.len() && (#[trigger] before[k]).email == email
                            && before[k].discord_id == Some(discord_id);
                    lemma_table_of_value(before, k);
                }
                if table.contains_key(email) && table[email].discord_id == Some(discord_id) {
                    let k = choose|k: int|
                        0 <= k < before.len() && (#[trigger] before[k]).email == email;
                    lemma_table_of_value(before, k);
                    assert(linked_before(before, before.len() as int, email, discord_id));
                }
            }
            assert(seen =~= links_to(table, discord_id));
        }
        proof {
            let after = rows.deep_view();
            assert(after.len() == before.len());
            assert forall|a: int, b: int| 0 <= a < b < after.len() implies (#[trigger] after[a]).email
                != (#[trigger] after[b]).email by {
                assert(before[a].email != before[b].email);
            }
            lemma_table_of_domain(after);
            assert forall|email: Seq<char>| #[trigger]
                table_of(after).contains_key(email) <==> table_of(before).contains_key(email) by {
                if has_email(after, email) {
                    let k = choose|k: int| 0 <= k < after.len() && (#[trigger] after[k]).email == email;
                    assert(before[k].email == email);
                }
                if has_email(before, email) {
                    let k = choose|k: int|
                        0 <= k < before.len() && (#[trigger] before[k]).email == email;
                    assert(after[k].email == email);
                }
            }
            assert forall|email: Seq<char>| #[trigger] table_of(after).contains_key(email) implies table_of(
                after,
            )[email] == unlinked_row(table_of(before)[email], discord_id) by {
                let k = choose|k: int| 0 <= k < after.len() && (#[trigger] after[k]).email == email;
                assert(before[k].email == email);
                lemma_table_of_value(after, k);
                lemma_table_of_value(before, k);
            }
            assert(table_of(after) =~= unlinked(table_of(before), discord_id));
            if names_account(table_of(before), discord_id) {
                let email = choose|email: Seq<char>| #[trigger]
                    table_of(before).contains_key(email) && table_of(before)[email].discord_id
                        == Some(discord_id);
                let k = choose|k: int| 0 <= k < before.len() && (#[trigger] before[k]).email == email;
                lemma_table_of_value(before, k);
            }
            if updated > 0 {
                let k = choose|k: int|
                    0 <= k < before.len() && (#[trigger] before[k]).discord_id == Some(discord_id);
                lemma_table_of_value(before, k);
            }
        }
        self.rows = rows;
        updated
    }

    /// The records of the table that are linked to an account, each once.
    pub fn linked_records(&self) -> (records: Vec<Verification>)
        ensures
            distinct_emails(records.deep_view()),
            forall|k: int|
                0 <= k < records.len() ==> (#[trigger] records.deep_view()[k]).discord_id is Some
                    && record_at(self@, records.deep_view()[k].email) == Some(
                    records.deep_view()[k],
                ),
            forall|email: Seq<char>| #[trigger]
                self@.contains_key(email) && self@[email].discord_id is Some ==> records.deep_view().contains(
                    self@[email],
                ),
    {
        proof {
            use_type_invariant(self);
            lemma_table_of_domain(self.rows.deep_view());
        }
        let ghost all = self.rows.deep_view();
        let mut records: Vec<Verification> = Vec::new();
        let mut i: usize = 0;
        while i < self.rows.len()
            invariant
                i <= self.rows.len(),
                all == self.rows.deep_view(),
                distinct_emails(all),
                distinct_emails(records.deep_view()),
                forall|k: int|
                    0 <= k < records.len() ==> has_email(
                        all.take(i as int),
                        (#[trigger] records.deep_view()[k]).email,
                    ),
                forall|k: int|
                    0 <= k < records.len() ==> (#[trigger] records.deep_view()[k]).discord_id is Some
                        && record_at(table_of(all), records.deep_view()[k].email) == Some(
                        records.deep_view()[k],
                    ),
                forall|j: int|
                    0 <= j < i && (#[trigger] all[j]).discord_id is Some ==> records.deep_view().contains(
                        all[j],
                    ),
            decreases self.rows.len() - i,
        {
            let row = &self.rows[i];
            assert(all[i as int] == row@);
            let ghost so_far = records.deep_view();
            proof {
                let shorter = all.take(i as int);
                let longer = all.take(i + 1);
                assert forall|k: int| 0 <= k < so_far.len() implies has_email(
                    longer,
                    (#[trigger] so_far[k]).email,
                ) by {
                    let j = choose|j: int|
                        0 <= j < shorter.len() && (#[trigger] shorter[j]).email == so_far[k].email;
                    assert(longer[j].email == so_far[k].email);
                }
            }
            if row.discord_id.is_some() {
                records.push(row.clone());
                proof {
                    let grown = records.deep_view();
                    let shorter = all.take(i as int);
                    let longer = all.take(i + 1);
                    assert(grown =~= so_far.push(row@));
                    assert forall|a: int, b: int| 0 <= a < b < grown.len() implies (
                    #[trigger] grown[a]).email != (#[trigger] grown[b]).email by {
                        if b == grown.len() - 1 {
                            let j = choose|j: int|
                                0 <= j < shorter.len() && (#[trigger] shorter[j]).email
                                    == so_far[a].email;
                            assert(all[j].email != all[i as int].email);
                        } else {
                            assert(so_far[a].email != so_far[b].email);
                        }
                    }
                    assert forall|k: int| 0 <= k < grown.len() implies has_email(
                        longer,
                        (#[trigger] grown[k]).email,
                    ) by {
                        if k == grown.len() - 1 {
                            assert(longer[i as int].email == grown[k].email);
                        } else {
                            assert(grown[k] == so_far[k]);
                        }
                    }
                    lemma_table_of_value(all, i as int);
                    assert forall|j: int| 0 <= j <= i && (#[trigger] all[j]).discord_id is Some implies grown.contains(
                        all[j],
                    ) by {
                        if j < i {
                            assert(so_far.contains(all[j]));
                            let k = choose|k: int| 0 <= k < so_far.len() && so_far[k] == all[j];
                            assert(grown[k] == all[j]);
                        } else {
                            assert(grown[grown.len() - 1] == all[j]);
                        }
                    }
                }
            }
            i = i + 1;
        }
        proof {
            assert forall|email: Seq<char>| #[trigger]
                self@.contains_key(email) && self@[email].discord_id is Some implies records.deep_view().contains(
                self@[email],
            ) by {
                let j = choose|j: int| 0 <= j < all.len() && (#[trigger] all[j]).email == email;
                lemma_table_of_value(all, j);
            }
        }
        records
    }
}

/// A record without its link, where it is linked to the account.
pub open spec fn unlinked_row(row: VerificationView, discord_id: u64) -> VerificationView {
    if row.discord_id == Some(discord_id) {
        row.with_link(None)
    } else {
        row
    }
}

/// The table with every record that is linked to the account unlinked.
pub open spec fn unlinked(table: Map<Seq<char>, VerificationView>, discord_id: u64) -> Map<
    Seq<char>,
    VerificationView,
> {
    Map::new(
        |email: Seq<char>| table.contains_key(email),
        |email: Seq<char>| unlinked_row(table[email], discord_id),
    )
}

/// Checks if a verification entry exists given an email address: the record
/// that the table holds of the email.
pub fn verification_entry_exists(table: &VerificationTable, email_in: &str) -> (entry: Option<
    Verification,
>)
    ensures
        entry.deep_view() == record_at(table@, email_in@),
{
    table.get(email_in)
}

/// The emails of the records that are linked to the account.
pub open spec fn links_to(table: Map<Seq<char>, VerificationView>, discord_id: u64) -> Set<
    Seq<char>,
> {
    Set::new(
        |email: Seq<char>| table.contains_key(email) && table[email].discord_id == Some(discord_id),
    )
}

/// One of the first `upto` rows has the email and is linked to the account.
pub open spec fn linked_before(
    rows: Seq<VerificationView>,
    upto: int,
    email: Seq<char>,
    discord_id: u64,
) -> bool {
    exists|k: int|
        0 <= k < upto && (#[trigger] rows[k]).email == email && rows[k].discord_id == Some(
            discord_id,
        )
}

/// Some record of the table is linked to the account.
pub open spec fn names_account(table: Map<Seq<char>, VerificationView>, discord_id: u64) -> bool {
    exists|email: Seq<char>| #[trigger]
        table.contains_key(email) && table[email].discord_id == Some(discord_id)
}

/// A row put in the place of a row of the same email, in rows of distinct
/// emails, changes the table at that email only, and the emails stay distinct.
proof fn lemma_update_row(rows: Seq<VerificationView>, place: int, entry: VerificationView)
    requires
        distinct_emails(rows),
        0 <= place < rows.len(),
        rows[place].email == entry.email,
    ensures
        distinct_emails(rows.update(place, entry)),
        table_of(rows.update(place, entry)) == table_of(rows).insert(entry.email, entry),
{
    let after = rows.update(place, entry);
    assert forall|i: int, j: int| 0 <= i < j < after.len() implies (#[trigger] after[i]).email != (
    #[trigger] after[j]).email by {
        assert(rows[i].email != rows[j].email);
    }
    lemma_table_of_domain(rows);
    lemma_table_of_domain(after);
    assert forall|email: Seq<char>| #[trigger]
        table_of(after).contains_key(email) <==> table_of(rows).insert(
            entry.email,
            entry,
        ).contains_key(email) by {
        if has_email(after, email) {
            let k = choose|k: int| 0 <= k < after.len() && (#[trigger] after[k]).email == email;
            assert(rows[k].email == email);
        }
        if has_email(rows, email) {
            let k = choose|k: int| 0 <= k < rows.len() && (#[trigger] rows[k]).email == email;
            assert(after[k].email == email);
        }
        if email == entry.email {
            assert(after[place].email == email);
        }
    }
    assert forall|email: Seq<char>| #[trigger] table_of(after).contains_key(email) implies table_of(
        after,
    )[email] == table_of(rows).insert(entry.email, entry)[email] by {
        let k = choose|k: int| 0 <= k < after.len() && (#[trigger] after[k]).email == email;
        lemma_table_of_value(after, k);
        assert(rows[k].email == email);
        lemma_table_of_value(rows, k);
        if k != place {
            assert(rows[k].email != rows[place].email);
        }
    }
    assert(table_of(after) =~= table_of(rows).insert(entry.email, entry));
}

/// A table of rows with distinct emails holds as many records as there are rows.
proof fn lemma_table_len(rows: Seq<VerificationView>)
    requires
        distinct_emails(rows),
    ensures
        table_of(rows).dom().finite(),
        table_of(rows).dom().len() == rows.len(),
    decreases rows.len(),
{
    lemma_table_of_domain(rows);
    if rows.len() > 0 {
        let earlier = rows.drop_last();
        assert(distinct_emails(earlier)) by {
            assert forall|a: int, b: int| 0 <= a < b < earlier.len() implies (
            #[trigger] earlier[a]).email != (#[trigger] earlier[b]).email by {
                assert(rows[a].email != rows[b].email);
            }
        }
        lemma_table_len(earlier);
        lemma_table_of_domain(earlier);
        if has_email(earlier, rows.last().email) {
            let k = choose|k: int|
                0 <= k < earlier.len() && (#[trigger] earlier[k]).email == rows.last().email;
            assert(rows[k].email != rows[rows.len() - 1].email);
        }
        assert(table_of(rows).dom() =~= table_of(earlier).dom().insert(rows.last().email));
    }
}

} // verus!
