//! The roster import: reading the rows of a roster snapshot as records, and
//! merging a snapshot into the table of records.
//!
//! A snapshot is a table of cells: a header row, then one row per member with
//! the columns email, name, dues flag and roster flag, in that order. A row
//! whose email is blank gives no record. Records are keyed by their email in
//! lower case, as members' messages are read.

use crate::record_store::{
    has_email, lemma_table_of_domain, record_at, table_of, VerificationTable,
};
use crate::text::{is_blank, is_blank_text};
use crate::verification_db::{Verification, VerificationView};
use crate::verification_email::{lowercase_of, to_lowercase};
use vstd::prelude::*;

verus! {

/// One cell of a roster snapshot.
#[derive(Debug, PartialEq, Eq)]
pub enum Cell {
    Empty,
    Text(String),
    Bool(bool),
    /// A cell of any other kind: a number, a date, an error.
    Other,
}

/// What a [`Cell`] holds, as mathematical values.
pub ghost enum CellView {
    Empty,
    Text(Seq<char>),
    Bool(bool),
    Other,
}

impl View for Cell {
    type V = CellView;

    open spec fn view(&self) -> CellView {
        match self {
            Cell::Empty => CellView::Empty,
            Cell::Text(text) => CellView::Text(text@),
            Cell::Bool(flag) => CellView::Bool(*flag),
            Cell::Other => CellView::Other,
        }
    }
}

impl DeepView for Cell {
    type V = CellView;

    open spec fn deep_view(&self) -> CellView {
        self@
    }
}

/// The text in a column of a row, where the row has the column and it holds text.
pub open spec fn text_at(row: Seq<CellView>, column: int) -> Option<Seq<char>> {
    if 0 <= column < row.len() {
        match row[column] {
            CellView::Text(text) => Some(text),
            _ => None,
        }
    } else {
        None
    }
}

/// The flag in a column of a row, where the row has the column and it holds a flag.
pub open spec fn flag_at(row: Seq<CellView>, column: int) -> Option<bool> {
    if 0 <= column < row.len() {
        match row[column] {
            CellView::Bool(flag) => Some(flag),
            _ => None,
        }
    } else {
        None
    }
}

/// The record that a row gives: none where the first column holds no text,
/// or a text that is blank as it is written or in lower case; else the email
/// from the first column, in lower case, the name from the second, the dues
/// flag from the third and the roster flag from the fourth, and no account.
pub open spec fn record_of_row(row: Seq<CellView>) -> Option<VerificationView> {
    match text_at(row, 0) {
        None => None,
        Some(email) => if is_blank_text(email) || is_blank_text(lowercase_of(email)) {
            None
        } else {
            Some(
                VerificationView {
                    email: lowercase_of(email),
                    name: text_at(row, 1),
                    in_gryphlife: flag_at(row, 3),
                    has_paid: flag_at(row, 2),
                    discord_id: None,
                },
            )
        },
    }
}

/// [`record_of_row`] as a value.
pub open spec fn row_reader() -> spec_fn(Seq<CellView>) -> Option<VerificationView> {
    |row: Seq<CellView>| record_of_row(row)
}

/// The records of a snapshot: those that the rows after the header give, in
/// the rows' order.
pub open spec fn records_of_rows(rows: Seq<Seq<CellView>>) -> Seq<VerificationView> {
    if rows.len() == 0 {
        Seq::empty()
    } else {
        rows.drop_first().filter_map(row_reader())
    }
}

fn read_text(row: &Vec<Cell>, column: usize) -> (text: Option<String>)
    ensures
        text.deep_view() == text_at(row.deep_view(), column as int),
{
    if column < row.len() {
        assert(row.deep_view()[column as int] == row[column as int]@);
        match &row[column] {
            Cell::Text(text) => Some(text.clone()),
            _ => None,
        }
    } else {
        None
    }
}

fn read_flag(row: &Vec<Cell>, column: usize) -> (flag: Option<bool>)
    ensures
        flag == flag_at(row.deep_view(), column as int),
{
    if column < row.len() {
        assert(row.deep_view()[column as int] == row[column as int]@);
        match &row[column] {
            Cell::Bool(flag) => Some(*flag),
            _ => None,
        }
    } else {
        None
    }
}

/// Reads one row of a snapshot. A row without an email, or with a blank one,
/// gives no record; the email of a record is never blank.
pub fn read_row(row: &Vec<Cell>) -> (record: Option<Verification>)
    ensures
        record.deep_view() == record_of_row(row.deep_view()),
        record matches Some(r) ==> !is_blank_text(r@.email),
{
    match read_text(row, 0) {
        None => None,
        Some(written) => {
            if is_blank(written.as_str()) {
                return None;
            }
            let email = to_lowercase(written.as_str());
            if is_blank(email.as_str()) {
                return None;
            }
            Some(
                Verification {
                    email,
                    name: read_text(row, 1),
                    in_gryphlife: read_flag(row, 3),
                    has_paid: read_flag(row, 2),
                    discord_id: None,
                },
            )
        },
    }
}

/// No record of a snapshot has a blank email.
pub proof fn lemma_records_have_emails(rows: Seq<Seq<CellView>>)
    ensures
        forall|k: int|
            0 <= k < records_of_rows(rows).len() ==> !is_blank_text(
                (#[trigger] records_of_rows(rows)[k]).email,
            ),
{
    if rows.len() > 0 {
        lemma_read_rows_have_emails(rows.drop_first());
    }
}

/// No record that a run of rows gives has a blank email.
proof fn lemma_read_rows_have_emails(body: Seq<Seq<CellView>>)
    ensures
        forall|k: int|
            0 <= k < body.filter_map(row_reader()).len() ==> !is_blank_text(
                (#[trigger] body.filter_map(row_reader())[k]).email,
            ),
    decreases body.len(),
{
    if body.len() > 0 {
        lemma_read_rows_have_emails(body.drop_last());
    }
}

/// After an import the table holds no record under a blank email: the merge
/// never sees an empty key.
pub proof fn lemma_import_has_no_blank_key(
    table: Map<Seq<char>, VerificationView>,
    rows: Seq<Seq<CellView>>,
)
    ensures
        forall|email: Seq<char>| #[trigger]
            merged(table, records_of_rows(rows)).contains_key(email) ==> !is_blank_text(email),
{
    let snapshot = records_of_rows(rows);
    lemma_records_have_emails(rows);
    lemma_table_of_domain(snapshot);
    assert forall|email: Seq<char>| #[trigger]
        merged(table, snapshot).contains_key(email) implies !is_blank_text(email) by {
        assert(has_email(snapshot, email));
        let k = choose|k: int| 0 <= k < snapshot.len() && (#[trigger] snapshot[k]).email == email;
    }
}

/// Reads the contents of a roster sheet and gives them out as a vec of
/// [`Verification`]: the header row is skipped, and so is every row without
/// an email or with a blank one.
pub fn read_xlsx_file_contents(rows: &Vec<Vec<Cell>>) -> (records: Vec<Verification>)
    ensures
        records.deep_view() == records_of_rows(rows.deep_view()),
        forall|k: int|
            0 <= k < records.len() ==> !is_blank_text((#[trigger] records.deep_view()[k]).email),
{
    proof {
        lemma_records_have_emails(rows.deep_view());
    }
    let mut records: Vec<Verification> = Vec::new();
    if rows.len() == 0 {
        assert(records.deep_view() =~= Seq::<VerificationView>::empty());
        return records;
    }
    let ghost body = rows.deep_view().drop_first();
    let mut i: usize = 1;
    assert(body.take(0).filter_map(row_reader()) =~= Seq::<VerificationView>::empty());
    assert(records.deep_view() =~= Seq::<VerificationView>::empty());
    while i < rows.len()
        invariant
            1 <= i <= rows.len(),
            body == rows.deep_view().drop_first(),
            records.deep_view() == body.take(i - 1).filter_map(row_reader()),
        decreases rows.len() - i,
    {
        let ghost so_far = records.deep_view();
        let ghost longer = body.take(i as int);
        assert(longer.drop_last() =~= body.take(i - 1));
        assert(longer.last() == rows[i as int].deep_view());
        match read_row(&rows[i]) {
            Some(record) => {
                records.push(record);
                assert(records.deep_view() =~= so_far + seq![record@]);
            },
            None => {},
        }
        i = i + 1;
    }
    assert(body.take(rows.len() - 1) =~= body);
    records
}

/// The account link that a table holds for an email.
pub open spec fn link_at(table: Map<Seq<char>, VerificationView>, email: Seq<char>) -> Option<u64> {
    match record_at(table, email) {
        Some(held) => held.discord_id,
        None => None,
    }
}

/// The table after a snapshot was merged into it: exactly the emails of the
/// snapshot, each with the roster's fields of its last row in the snapshot,
/// and with the account link that the table held for the email, if any.
pub open spec fn merged(
    table: Map<Seq<char>, VerificationView>,
    snapshot: Seq<VerificationView>,
) -> Map<Seq<char>, VerificationView> {
    let roster = table_of(snapshot);
    Map::new(
        |email: Seq<char>| roster.contains_key(email),
        |email: Seq<char>| roster[email].with_link(link_at(table, email)),
    )
}

/// The table after the rows of a snapshot were written into it and nothing was
/// deleted yet.
pub open spec fn upserted(
    table: Map<Seq<char>, VerificationView>,
    snapshot: Seq<VerificationView>,
) -> Map<Seq<char>, VerificationView> {
    let roster = table_of(snapshot);
    Map::new(
        |email: Seq<char>| roster.contains_key(email) || table.contains_key(email),
        |email: Seq<char>|
            if roster.contains_key(email) {
                roster[email].with_link(link_at(table, email))
            } else {
                table[email]
            },
    )
}

/// Merge the vector of verifications into the table: write every record under
/// its email, over the name, roster flag and dues flag of a record that is
/// there and never over its account link; then delete all records that the
/// vector does not list.
pub fn merge_verifications(table: &mut VerificationTable, records: &Vec<Verification>)
    ensures
        final(table)@ == merged(old(table)@, records.deep_view()),
{
    let ghost before = table@;
    let ghost snapshot = records.deep_view();
    let mut listed = VerificationTable::new();
    let mut i: usize = 0;
    assert(snapshot.take(0) =~= Seq::<VerificationView>::empty());
    assert(table@ =~= upserted(before, snapshot.take(0)));
    assert(listed@ =~= upserted(Map::empty(), snapshot.take(0)));
    while i < records.len()
        invariant
            i <= records.len(),
            snapshot == records.deep_view(),
            table@ == upserted(before, snapshot.take(i as int)),
            listed@ == upserted(Map::empty(), snapshot.take(i as int)),
        decreases records.len() - i,
    {
        let record = &records[i];
        proof {
            let longer = snapshot.take(i + 1);
            assert(longer.drop_last() =~= snapshot.take(i as int));
            assert(longer.last() == record@);
        }
        table.upsert(record);
        listed.upsert(record);
        i = i + 1;
        assert(table@ =~= upserted(before, snapshot.take(i as int)));
        assert(listed@ =~= upserted(Map::empty(), snapshot.take(i as int)));
    }
    assert(snapshot.take(records.len() as int) =~= snapshot);
    table.retain_emails(&listed);
    assert(table@ =~= merged(before, snapshot));
}

/// Importing the same snapshot twice is the same as importing it once; an
/// import never changes the account link of a record that it keeps; and it
/// leaves exactly the emails that the snapshot lists.
pub proof fn lemma_merge_is_idempotent(
    table: Map<Seq<char>, VerificationView>,
    snapshot: Seq<VerificationView>,
)
    ensures
        merged(merged(table, snapshot), snapshot) == merged(table, snapshot),
        forall|email: Seq<char>|
            table.contains_key(email) && #[trigger] merged(table, snapshot).contains_key(email)
                ==> merged(table, snapshot)[email].discord_id == table[email].discord_id,
        forall|email: Seq<char>| #[trigger]
            merged(table, snapshot).contains_key(email) <==> table_of(snapshot).contains_key(email),
{
    assert(merged(merged(table, snapshot), snapshot) =~= merged(table, snapshot));
}

} // verus!
