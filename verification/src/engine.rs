//! A volatile storage engine: the users table held in memory, with the
//! transactions that the record store relies on.
//!
//! It is the engine of a store made by `Database::in_memory`, and it is the
//! account of a storage engine against which the record store's protocol
//! is proved: [`EngineView::execute`] says what each statement does.

use crate::models::{clone_users, views, User, UserView};
use crate::statement::{Reply, ReplyView, Statement, StatementView};
use crate::table::{
    has_id, lemma_renamed_keeps_ids, lemma_rows_of_empty, lemma_rows_with_id_push,
    lemma_rows_with_username_push, lemma_rows_without_id, rows_renamed, rows_with_id,
    rows_with_username, rows_without_id, unique_ids,
};
use vstd::prelude::*;

verus! {

/// Why `Begin` fails while a transaction is open.
pub open spec fn nested_transaction_cause() -> Seq<char> {
    "cannot start a transaction within a transaction"@
}

/// Why `Commit` fails while no transaction is open.
pub open spec fn commit_without_transaction_cause() -> Seq<char> {
    "cannot commit - no transaction is active"@
}

/// Why `Rollback` fails while no transaction is open.
pub open spec fn rollback_without_transaction_cause() -> Seq<char> {
    "cannot rollback - no transaction is active"@
}

/// Why `Insert` fails when a row has the id already.
pub open spec fn duplicate_id_cause() -> Seq<char> {
    "UNIQUE constraint failed: users.id"@
}

/// The engine's state as contracts see it.
pub struct EngineView {
    /// The table as statements see it now.
    pub rows: Seq<UserView>,
    /// While a transaction is open: the table as it was when the
    /// transaction began.
    pub saved: Option<Seq<UserView>>,
}

impl EngineView {
    /// An engine that holds no row and has no transaction open.
    pub open spec fn empty() -> EngineView {
        EngineView { rows: Seq::empty(), saved: None }
    }

    /// Whether a transaction is open.
    pub open spec fn in_transaction(self) -> bool {
        self.saved is Some
    }

    /// The primary key holds of the table, and of the table to which a
    /// rollback would return.
    pub open spec fn wf(self) -> bool {
        &&& unique_ids(self.rows)
        &&& self.saved matches Some(saved) ==> unique_ids(saved)
    }

    /// The reply for a statement that was carried out and selects nothing.
    pub open spec fn done() -> ReplyView {
        ReplyView::Rows(Seq::empty())
    }

    /// What one statement makes of the engine, and the reply to it.
    pub open spec fn execute(self, statement: StatementView) -> (EngineView, ReplyView) {
        match statement {
            StatementView::CreateSchema => (self, Self::done()),
            StatementView::Begin => if self.in_transaction() {
                (self, ReplyView::Failed(nested_transaction_cause()))
            } else {
                (EngineView { rows: self.rows, saved: Some(self.rows) }, Self::done())
            },
            StatementView::Commit => if self.in_transaction() {
                (EngineView { rows: self.rows, saved: None }, Self::done())
            } else {
                (self, ReplyView::Failed(commit_without_transaction_cause()))
            },
            StatementView::Rollback => match self.saved {
                Some(saved) => (EngineView { rows: saved, saved: None }, Self::done()),
                None => (self, ReplyView::Failed(rollback_without_transaction_cause())),
            },
            StatementView::Insert { id, username } => if has_id(self.rows, id) {
                (self, ReplyView::Failed(duplicate_id_cause()))
            } else {
                (
                    EngineView {
                        rows: self.rows.push(UserView { id, username }),
                        saved: self.saved,
                    },
                    Self::done(),
                )
            },
            StatementView::SelectAll => (self, ReplyView::Rows(self.rows)),
            StatementView::SelectById { id } => (
                self,
                ReplyView::Rows(rows_with_id(self.rows, id)),
            ),
            StatementView::SelectByUsername { username } => (
                self,
                ReplyView::Rows(rows_with_username(self.rows, username)),
            ),
            StatementView::UpdateUsername { id, username } => (
                EngineView { rows: rows_renamed(self.rows, id, username), saved: self.saved },
                Self::done(),
            ),
            StatementView::DeleteById { id } => (
                EngineView { rows: rows_without_id(self.rows, id), saved: self.saved },
                Self::done(),
            ),
        }
    }
}

/// No statement breaks the primary key, neither in the table nor in the
/// table to which a rollback would return.
pub proof fn lemma_execute_keeps_primary_key(engine: EngineView, statement: StatementView)
    requires
        engine.wf(),
    ensures
        engine.execute(statement).0.wf(),
{
    match statement {
        StatementView::Insert { id, username } => {
            let after = engine.execute(statement).0.rows;
            if !has_id(engine.rows, id) {
                assert forall|i: int, j: int| 0 <= i < j < after.len() implies (
                #[trigger] after[i]).id != (#[trigger] after[j]).id by {
                    if j == engine.rows.len() {
                        assert(engine.rows[i].id != id);
                    } else {
                        assert(after[i] == engine.rows[i] && after[j] == engine.rows[j]);
                    }
                }
            }
        },
        StatementView::UpdateUsername { id, username } => {
            lemma_renamed_keeps_ids(engine.rows, id, username);
        },
        StatementView::DeleteById { id } => {
            lemma_rows_without_id(engine.rows, id);
        },
        _ => {},
    }
}

/// The users table in memory. Rows stand in the order of their insertion.
pub struct Engine {
    rows: Vec<User>,
    saved: Option<Vec<User>>,
}

impl View for Engine {
    type V = EngineView;

    closed spec fn view(&self) -> EngineView {
        EngineView {
            rows: views(self.rows@),
            saved: match self.saved {
                Some(saved) => Some(views(saved@)),
                None => None,
            },
        }
    }
}

/// Whether some row of `rows` has the id `id`.
fn contains_id(rows: &Vec<User>, id: &String) -> (found: bool)
    ensures
        found == has_id(views(rows@), id@),
{
    let ghost all = views(rows@);
    let mut i: usize = 0;
    while i < rows.len()
        invariant
            i <= rows.len(),
            all == views(rows@),
            forall|k: int| 0 <= k < i ==> (#[trigger] all[k]).id != id@,
        decreases rows.len() - i,
    {
        if rows[i].id == *id {
            assert(all[i as int].id == id@);
            return true;
        }
        i += 1;
    }
    false
}

/// The rows of `rows` whose id is `id` (or, with `matching` false, is not).
fn select_by_id(rows: &Vec<User>, id: &String, matching: bool) -> (selected: Vec<User>)
    ensures
        views(selected@) == if matching {
            rows_with_id(views(rows@), id@)
        } else {
            rows_without_id(views(rows@), id@)
        },
{
    let ghost all = views(rows@);
    let mut selected: Vec<User> = Vec::new();
    let mut i: usize = 0;
    proof {
        lemma_rows_of_empty(id@, id@);
        assert(all.take(0) =~= Seq::<UserView>::empty());
        assert(views(selected@) =~= Seq::<UserView>::empty());
    }
    while i < rows.len()
        invariant
            i <= rows.len(),
            all == views(rows@),
            views(selected@) == if matching {
                rows_with_id(all.take(i as int), id@)
            } else {
                rows_without_id(all.take(i as int), id@)
            },
        decreases rows.len() - i,
    {
        let same = rows[i].id == *id;
        proof {
            assert(all.take(i + 1) =~= all.take(i as int).push(all[i as int]));
            lemma_rows_with_id_push(all.take(i as int), all[i as int], id@);
        }
        if same == matching {
            let ghost before = selected@;
            selected.push(rows[i].clone());
            assert(views(selected@) =~= views(before).push(all[i as int]));
        }
        i += 1;
    }
    assert(all.take(rows.len() as int) =~= all);
    selected
}

/// The rows of `rows` whose username is `username`.
fn select_by_username(rows: &Vec<User>, username: &String) -> (selected: Vec<User>)
    ensures
        views(selected@) == rows_with_username(views(rows@), username@),
{
    let ghost all = views(rows@);
    let mut selected: Vec<User> = Vec::new();
    let mut i: usize = 0;
    proof {
        lemma_rows_of_empty(username@, username@);
        assert(all.take(0) =~= Seq::<UserView>::empty());
        assert(views(selected@) =~= Seq::<UserView>::empty());
    }
    while i < rows.len()
        invariant
            i <= rows.len(),
            all == views(rows@),
            views(selected@) == rows_with_username(all.take(i as int), username@),
        decreases rows.len() - i,
    {
        proof {
            assert(all.take(i + 1) =~= all.take(i as int).push(all[i as int]));
            lemma_rows_with_username_push(all.take(i as int), all[i as int], username@);
        }
        if rows[i].username == *username {
            let ghost before = selected@;
            selected.push(rows[i].clone());
            assert(views(selected@) =~= views(before).push(all[i as int]));
        }
        i += 1;
    }
    assert(all.take(rows.len() as int) =~= all);
    selected
}

/// The rows of `rows`, those with the id `id` under the name `username`.
fn rename(rows: &Vec<User>, id: &String, username: &String) -> (renamed: Vec<User>)
    ensures
        views(renamed@) == rows_renamed(views(rows@), id@, username@),
{
    let ghost all = views(rows@);
    let mut renamed: Vec<User> = Vec::new();
    let mut i: usize = 0;
    while i < rows.len()
        invariant
            i <= rows.len(),
            all == views(rows@),
            renamed.len() == i,
            forall|k: int|
                0 <= k < i ==> (#[trigger] renamed[k])@ == rows_renamed(all, id@, username@)[k],
        decreases rows.len() - i,
    {
        if rows[i].id == *id {
            renamed.push(User { id: id.clone(), username: username.clone() });
        } else {
            renamed.push(rows[i].clone());
        }
        i += 1;
    }
    assert(views(renamed@) =~= rows_renamed(all, id@, username@));
    renamed
}

impl Engine {
    /// An engine that holds no row and has no transaction open.
    pub fn new() -> (engine: Engine)
        ensures
            engine@ == EngineView::empty(),
    {
        let engine = Engine { rows: Vec::new(), saved: None };
        assert(views(engine.rows@) =~= Seq::<UserView>::empty());
        engine
    }

    /// Carries out one statement and replies to it.
    pub fn execute(&mut self, statement: &Statement) -> (reply: Reply)
        ensures
            (final(self)@, reply@) == old(self)@.execute(statement@),
            old(self)@.wf() ==> final(self)@.wf(),
    {
        proof {
            if self@.wf() {
                lemma_execute_keeps_primary_key(self@, statement@);
            }
        }
        assert(views(Seq::<User>::empty()) =~= Seq::<UserView>::empty());
        match statement {
            Statement::CreateSchema => Reply::Rows(Vec::new()),
            Statement::Begin => {
                if self.saved.is_some() {
                    Reply::Failed("cannot start a transaction within a transaction".to_owned())
                } else {
                    self.saved = Some(clone_users(&self.rows));
                    Reply::Rows(Vec::new())
                }
            },
            Statement::Commit => {
                if self.saved.is_some() {
                    self.saved = None;
                    Reply::Rows(Vec::new())
                } else {
                    Reply::Failed("cannot commit - no transaction is active".to_owned())
                }
            },
            Statement::Rollback => {
                let saved = self.saved.take();
                match saved {
                    Some(rows) => {
                        self.rows = rows;
                        Reply::Rows(Vec::new())
                    },
                    None => Reply::Failed("cannot rollback - no transaction is active".to_owned()),
                }
            },
            Statement::Insert { id, username } => {
                if contains_id(&self.rows, id) {
                    Reply::Failed("UNIQUE constraint failed: users.id".to_owned())
                } else {
                    let ghost rows = self.rows@;
                    self.rows.push(User { id: id.clone(), username: username.clone() });
                    assert(views(self.rows@) =~= views(rows).push(
                        UserView { id: id@, username: username@ },
                    ));
                    Reply::Rows(Vec::new())
                }
            },
            Statement::SelectAll => Reply::Rows(clone_users(&self.rows)),
            Statement::SelectById { id } => Reply::Rows(select_by_id(&self.rows, id, true)),
            Statement::SelectByUsername { username } => Reply::Rows(
                select_by_username(&self.rows, username),
            ),
            Statement::UpdateUsername { id, username } => {
                self.rows = rename(&self.rows, id, username);
                Reply::Rows(Vec::new())
            },
            Statement::DeleteById { id } => {
                self.rows = select_by_id(&self.rows, id, false);
                Reply::Rows(Vec::new())
            },
        }
    }
}

} // verus!
