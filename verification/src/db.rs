//! Stored rows and the decisions around the message and user tables.

use vstd::prelude::*;

verus! {

/// A message row of the `messages` table.
#[derive(Debug, Clone)]
pub struct StoredMessage {
    pub id: i64,
    pub from_user: String,
    pub to_user: String,
    pub content: String,
    pub created_at: String,
    /// `0` = not yet delivered, `1` = delivered.
    pub delivered: i64,
}

/// A user row of the `users` table.
#[derive(Debug, Clone)]
pub struct UserRow {
    pub id: i64,
    pub username: String,
    pub password_hash: String,
}

/// What became of an insert into the `users` table.
#[derive(Debug)]
pub enum InsertOutcome {
    Inserted,
    /// The username is already taken (the table's `UNIQUE` constraint refused the row).
    UniqueViolation,
    /// Any other database failure, with the database's description of it.
    Failed(String),
}

/// Mathematical model of a [`StoredMessage`].
pub struct StoredMessageView {
    pub id: i64,
    pub from_user: Seq<char>,
    pub to_user: Seq<char>,
    pub content: Seq<char>,
    pub created_at: Seq<char>,
    pub delivered: i64,
}

impl View for StoredMessage {
    type V = StoredMessageView;

    open spec fn view(&self) -> StoredMessageView {
        StoredMessageView {
            id: self.id,
            from_user: self.from_user@,
            to_user: self.to_user@,
            content: self.content@,
            created_at: self.created_at@,
            delivered: self.delivered,
        }
    }
}

/// The error text for a taken username.
pub open spec fn username_taken_msg() -> Seq<char> {
    "用户名已被占用"@
}

/// The prefix of the error text for any other database failure.
pub open spec fn database_error_prefix() -> Seq<char> {
    "数据库错误: "@
}

/// What creating a user reports, given what the insert came to.
pub open spec fn create_user_spec(outcome: InsertOutcome) -> Result<(), Seq<char>> {
    match outcome {
        InsertOutcome::Inserted => Ok(()),
        InsertOutcome::UniqueViolation => Err(username_taken_msg()),
        InsertOutcome::Failed(e) => Err(database_error_prefix() + e@),
    }
}

/// Maps the outcome of the user insert to the result that creating a user reports.
pub fn create_user_result(outcome: InsertOutcome) -> (r: Result<(), String>)
    ensures
        match (r, create_user_spec(outcome)) {
            (Ok(()), Ok(())) => true,
            (Err(e), Err(m)) => e@ == m,
            _ => false,
        },
{
    match outcome {
        InsertOutcome::Inserted => Ok(()),
        InsertOutcome::UniqueViolation => Err("用户名已被占用".to_owned()),
        InsertOutcome::Failed(e) => {
            let mut msg = "数据库错误: ".to_owned();
            msg.append(e.as_str());
            Err(msg)
        },
    }
}

/// The value stored in the `delivered` column.
pub fn delivered_flag(delivered: bool) -> (flag: i64)
    ensures
        flag == (if delivered { 1i64 } else { 0i64 }),
{
    if delivered {
        1
    } else {
        0
    }
}

/// Whether the undelivered messages just fetched must be marked as delivered:
/// only when there is at least one of them.
pub fn should_mark_delivered(fetched: &Vec<StoredMessage>) -> (b: bool)
    ensures
        b == (fetched@.len() > 0),
{
    fetched.len() > 0
}

/// Puts history rows fetched newest first back into the order they were written.
pub fn chronological(rows: Vec<StoredMessage>) -> (r: Vec<StoredMessage>)
    ensures
        r@ == rows@.reverse(),
{
    let mut rows = rows;
    let mut r: Vec<StoredMessage> = Vec::new();
    let ghost orig = rows@;
    while rows.len() > 0
        invariant
            orig.len() == rows@.len() + r@.len(),
            rows@ == orig.subrange(0, rows@.len() as int),
            forall|j: int| 0 <= j < r@.len() ==> #[trigger] r@[j] == orig[orig.len() - 1 - j],
        decreases rows.len(),
    {
        let m = rows.pop().unwrap();
        r.push(m);
    }
    assert(r@ =~= orig.reverse());
    r
}

/// Ids strictly decreasing along the sequence.
pub open spec fn newest_first(rows: Seq<StoredMessageView>) -> bool {
    forall|i: int, j: int| 0 <= i < j < rows.len() ==> rows[i].id > rows[j].id
}

/// Ids strictly increasing along the sequence.
pub open spec fn oldest_first(rows: Seq<StoredMessageView>) -> bool {
    forall|i: int, j: int| 0 <= i < j < rows.len() ==> rows[i].id < rows[j].id
}

/// Reordering history rows fetched newest first yields them oldest first.
pub proof fn chronological_is_oldest_first(rows: Seq<StoredMessage>)
    requires
        newest_first(rows.map_values(|m: StoredMessage| m@)),
    ensures
        oldest_first(rows.reverse().map_values(|m: StoredMessage| m@)),
{
    let v = rows.map_values(|m: StoredMessage| m@);
    let w = rows.reverse().map_values(|m: StoredMessage| m@);
    assert forall|i: int, j: int| 0 <= i < j < w.len() implies w[i].id < w[j].id by {
        let n = rows.len() as int;
        assert(w[i] == v[n - 1 - i]);
        assert(w[j] == v[n - 1 - j]);
    }
}

} // verus!
