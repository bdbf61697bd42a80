//! The vocabulary spoken with a storage engine: one [`Statement`] goes out,
//! one [`Reply`] comes back.

use crate::models::{views, User, UserView};
use vstd::prelude::*;

verus! {

/// A statement as contracts see it.
pub enum StatementView {
    CreateSchema,
    Begin,
    Commit,
    Rollback,
    Insert { id: Seq<char>, username: Seq<char> },
    SelectAll,
    SelectById { id: Seq<char> },
    SelectByUsername { username: Seq<char> },
    UpdateUsername { id: Seq<char>, username: Seq<char> },
    DeleteById { id: Seq<char> },
}

/// One statement for the storage engine.
#[derive(Debug, PartialEq, Eq)]
pub enum Statement {
    /// Creates the users table unless it exists already.
    CreateSchema,
    /// Opens a transaction.
    Begin,
    /// Makes the open transaction's writes permanent and closes it.
    Commit,
    /// Undoes the open transaction's writes and closes it.
    Rollback,
    /// Adds one row.
    Insert { id: String, username: String },
    /// Selects every row.
    SelectAll,
    /// Selects the rows with this id.
    SelectById { id: String },
    /// Selects the rows with this username.
    SelectByUsername { username: String },
    /// Gives the rows with this id a new username.
    UpdateUsername { id: String, username: String },
    /// Deletes the rows with this id.
    DeleteById { id: String },
}

impl View for Statement {
    type V = StatementView;

    open spec fn view(&self) -> StatementView {
        match *self {
            Statement::CreateSchema => StatementView::CreateSchema,
            Statement::Begin => StatementView::Begin,
            Statement::Commit => StatementView::Commit,
            Statement::Rollback => StatementView::Rollback,
            Statement::Insert { id, username } => StatementView::Insert {
                id: id@,
                username: username@,
            },
            Statement::SelectAll => StatementView::SelectAll,
            Statement::SelectById { id } => StatementView::SelectById { id: id@ },
            Statement::SelectByUsername { username } => StatementView::SelectByUsername {
                username: username@,
            },
            Statement::UpdateUsername { id, username } => StatementView::UpdateUsername {
                id: id@,
                username: username@,
            },
            Statement::DeleteById { id } => StatementView::DeleteById { id: id@ },
        }
    }
}

impl StatementView {
    /// The statement's SQL text, with `?` where a parameter is bound.
    pub open spec fn sql(self) -> Seq<char> {
        match self {
            StatementView::CreateSchema =>
                "create table if not exists users (id text primary key not null, username text not null)"@,
            StatementView::Begin => "begin"@,
            StatementView::Commit => "commit"@,
            StatementView::Rollback => "rollback"@,
            StatementView::Insert { .. } => "insert into users (id, username) values (?, ?)"@,
            StatementView::SelectAll => "select id, username from users"@,
            StatementView::SelectById { .. } => "select id, username from users where id == ?"@,
            StatementView::SelectByUsername { .. } =>
                "select id, username from users where username == ?"@,
            StatementView::UpdateUsername { .. } => "update users set username = ? where id == ?"@,
            StatementView::DeleteById { .. } => "delete from users where id == ?"@,
        }
    }

    /// The values bound to the text's placeholders, in the order of the
    /// placeholders.
    pub open spec fn parameters(self) -> Seq<Seq<char>> {
        match self {
            StatementView::Insert { id, username } => seq![id, username],
            StatementView::SelectById { id } => seq![id],
            StatementView::SelectByUsername { username } => seq![username],
            StatementView::UpdateUsername { id, username } => seq![username, id],
            StatementView::DeleteById { id } => seq![id],
            _ => Seq::empty(),
        }
    }
}

/// The views of a sequence of strings, in the same order.
pub open spec fn texts(strings: Seq<String>) -> Seq<Seq<char>> {
    strings.map_values(|s: String| s@)
}

impl Statement {
    /// The statement's SQL text, with `?` where a parameter is bound.
    pub fn sql(&self) -> (text: &'static str)
        ensures
            text@ == self@.sql(),
    {
        match self {
            Statement::CreateSchema => {
                "create table if not exists users (id text primary key not null, username text not null)"
            },
            Statement::Begin => "begin",
            Statement::Commit => "commit",
            Statement::Rollback => "rollback",
            Statement::Insert { .. } => "insert into users (id, username) values (?, ?)",
            Statement::SelectAll => "select id, username from users",
            Statement::SelectById { .. } => "select id, username from users where id == ?",
            Statement::SelectByUsername { .. } => {
                "select id, username from users where username == ?"
            },
            Statement::UpdateUsername { .. } => "update users set username = ? where id == ?",
            Statement::DeleteById { .. } => "delete from users where id == ?",
        }
    }

    /// The values to bind to the text's placeholders, in their order.
    pub fn parameters(&self) -> (values: Vec<String>)
        ensures
            texts(values@) == self@.parameters(),
    {
        let mut values: Vec<String> = Vec::new();
        match self {
            Statement::Insert { id, username } => {
                values.push(id.clone());
                values.push(username.clone());
            },
            Statement::SelectById { id } => {
                values.push(id.clone());
            },
            Statement::SelectByUsername { username } => {
                values.push(username.clone());
            },
            Statement::UpdateUsername { id, username } => {
                values.push(username.clone());
                values.push(id.clone());
            },
            Statement::DeleteById { id } => {
                values.push(id.clone());
            },
            _ => {},
        }
        assert(texts(values@) =~= self@.parameters());
        values
    }
}

/// A reply as contracts see it.
pub enum ReplyView {
    Rows(Seq<UserView>),
    Failed(Seq<char>),
}

/// What the storage engine answered to one statement.
#[derive(Debug, PartialEq, Eq)]
pub enum Reply {
    /// The statement was carried out. These are the rows it selected, in
    /// table order: none for a statement that selects nothing.
    Rows(Vec<User>),
    /// The engine could not carry the statement out, and says why.
    Failed(String),
}

impl View for Reply {
    type V = ReplyView;

    open spec fn view(&self) -> ReplyView {
        match *self {
            Reply::Rows(rows) => ReplyView::Rows(views(rows@)),
            Reply::Failed(cause) => ReplyView::Failed(cause@),
        }
    }
}

} // verus!
