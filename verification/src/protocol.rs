//! How the record store carries out one operation: which statements it
//! sends to the storage engine, in which order, and what it makes of the
//! replies.
//!
//! An operation that changes a row it must first find runs inside a
//! transaction: the row is looked up and written under the same
//! transaction, which is committed after the write and rolled back where
//! the row is absent or anything fails.

use crate::error::{Error, ErrorView};
use crate::identifier::{fresh_identifier, is_identifier};
use crate::models::{optional_view, views, User, UserView};
use crate::statement::{Reply, ReplyView, Statement, StatementView};
use crate::table::first_row;
use vstd::prelude::*;

verus! {

/// An operation as contracts see it.
pub enum OperationView {
    CreateUser { id: Seq<char>, username: Seq<char> },
    GetUsers,
    GetUserById { id: Seq<char> },
    GetUserByUsername { username: Seq<char> },
    UpdateUser { user: UserView },
    DeleteUser { id: Seq<char> },
}

/// What the record store can be asked to do.
#[derive(Debug, PartialEq, Eq)]
pub enum Operation {
    /// Store a new user under the given, freshly made id.
    CreateUser { id: String, username: String },
    /// List every user.
    GetUsers,
    /// Fetch the user with this id.
    GetUserById { id: String },
    /// Fetch the first user with this username.
    GetUserByUsername { username: String },
    /// Give the user with `user.id` the name `user.username`.
    UpdateUser { user: User },
    /// Remove the user with this id.
    DeleteUser { id: String },
}

impl View for Operation {
    type V = OperationView;

    open spec fn view(&self) -> OperationView {
        match *self {
            Operation::CreateUser { id, username } => OperationView::CreateUser {
                id: id@,
                username: username@,
            },
            Operation::GetUsers => OperationView::GetUsers,
            Operation::GetUserById { id } => OperationView::GetUserById { id: id@ },
            Operation::GetUserByUsername { username } => OperationView::GetUserByUsername {
                username: username@,
            },
            Operation::UpdateUser { user } => OperationView::UpdateUser { user: user@ },
            Operation::DeleteUser { id } => OperationView::DeleteUser { id: id@ },
        }
    }
}

/// An outcome as contracts see it.
pub enum OutcomeView {
    Created(UserView),
    Users(Seq<UserView>),
    Found(Option<UserView>),
    Updated(Option<UserView>),
    Deleted(bool),
    Failed(ErrorView),
}

/// How an operation ended.
#[derive(Debug, PartialEq, Eq)]
pub enum Outcome {
    /// The user was stored.
    Created(User),
    /// All users, in table order.
    Users(Vec<User>),
    /// The user that was asked for, or `None` where there is none.
    Found(Option<User>),
    /// The user as updated, or `None` where no user has that id.
    Updated(Option<User>),
    /// Whether there was a user to delete.
    Deleted(bool),
    /// The storage engine failed.
    Failed(Error),
}

impl View for Outcome {
    type V = OutcomeView;

    open spec fn view(&self) -> OutcomeView {
        match *self {
            Outcome::Created(user) => OutcomeView::Created(user@),
            Outcome::Users(users) => OutcomeView::Users(views(users@)),
            Outcome::Found(user) => OutcomeView::Found(optional_view(user)),
            Outcome::Updated(user) => OutcomeView::Updated(optional_view(user)),
            Outcome::Deleted(existed) => OutcomeView::Deleted(existed),
            Outcome::Failed(error) => OutcomeView::Failed(error@),
        }
    }
}

impl OutcomeView {
    /// Whether an outcome of this kind can end the given operation.
    pub open spec fn answers(self, operation: OperationView) -> bool {
        match operation {
            OperationView::CreateUser { .. } => self is Created || self is Failed,
            OperationView::GetUsers => self is Users || self is Failed,
            OperationView::GetUserById { .. } => self is Found || self is Failed,
            OperationView::GetUserByUsername { .. } => self is Found || self is Failed,
            OperationView::UpdateUser { .. } => self is Updated || self is Failed,
            OperationView::DeleteUser { .. } => self is Deleted || self is Failed,
        }
    }
}

/// A change as contracts see it.
pub enum ChangeView {
    Update { user: UserView },
    Delete { id: Seq<char> },
}

/// A change to a row that has to exist: made inside a transaction.
#[derive(Debug, PartialEq, Eq)]
pub enum Change {
    Update { user: User },
    Delete { id: String },
}

impl View for Change {
    type V = ChangeView;

    open spec fn view(&self) -> ChangeView {
        match *self {
            Change::Update { user } => ChangeView::Update { user: user@ },
            Change::Delete { id } => ChangeView::Delete { id: id@ },
        }
    }
}

impl ChangeView {
    /// Whether this is the change that `operation` asks for.
    pub open spec fn makes(self, operation: OperationView) -> bool {
        match self {
            ChangeView::Update { user } => operation == (OperationView::UpdateUser { user }),
            ChangeView::Delete { id } => operation == (OperationView::DeleteUser { id }),
        }
    }

    /// The id of the row to change.
    pub open spec fn id(self) -> Seq<char> {
        match self {
            ChangeView::Update { user } => user.id,
            ChangeView::Delete { id } => id,
        }
    }

    /// The statement that looks the row up.
    pub open spec fn check(self) -> StatementView {
        StatementView::SelectById { id: self.id() }
    }

    /// The statement that changes the row.
    pub open spec fn write(self) -> StatementView {
        match self {
            ChangeView::Update { user } => StatementView::UpdateUsername {
                id: user.id,
                username: user.username,
            },
            ChangeView::Delete { id } => StatementView::DeleteById { id },
        }
    }

    /// The outcome where the row is not there.
    pub open spec fn absent(self) -> OutcomeView {
        match self {
            ChangeView::Update { .. } => OutcomeView::Updated(None),
            ChangeView::Delete { .. } => OutcomeView::Deleted(false),
        }
    }

    /// The outcome once the change is committed.
    pub open spec fn done(self) -> OutcomeView {
        match self {
            ChangeView::Update { user } => OutcomeView::Updated(Some(user)),
            ChangeView::Delete { .. } => OutcomeView::Deleted(true),
        }
    }
}

impl Change {
    /// The statement that looks the row up.
    fn check(&self) -> (statement: Statement)
        ensures
            statement@ == self@.check(),
    {
        match self {
            Change::Update { user } => Statement::SelectById { id: user.id.clone() },
            Change::Delete { id } => Statement::SelectById { id: id.clone() },
        }
    }

    /// The statement that changes the row.
    fn write(&self) -> (statement: Statement)
        ensures
            statement@ == self@.write(),
    {
        match self {
            Change::Update { user } => Statement::UpdateUsername {
                id: user.id.clone(),
                username: user.username.clone(),
            },
            Change::Delete { id } => Statement::DeleteById { id: id.clone() },
        }
    }

    /// The outcome where the row is not there.
    fn absent(&self) -> (outcome: Outcome)
        ensures
            outcome@ == self@.absent(),
    {
        match self {
            Change::Update { .. } => Outcome::Updated(None),
            Change::Delete { .. } => Outcome::Deleted(false),
        }
    }

    /// The outcome once the change is committed.
    fn done(self) -> (outcome: Outcome)
        ensures
            outcome@ == self@.done(),
    {
        match self {
            Change::Update { user } => Outcome::Updated(Some(user)),
            Change::Delete { .. } => Outcome::Deleted(true),
        }
    }
}

/// An exchange as contracts see it.
pub enum ExchangeView {
    Creating { user: UserView },
    Listing,
    Finding,
    Opening { change: ChangeView },
    Checking { change: ChangeView },
    Writing { change: ChangeView },
    Committing { change: ChangeView },
    Aborting { outcome: OutcomeView },
}

/// An operation under way: one statement has been sent, and the variant
/// says which reply is awaited.
#[derive(Debug, PartialEq, Eq)]
pub enum Exchange {
    /// The insert of `user` was sent.
    Creating { user: User },
    /// The select of all rows was sent.
    Listing,
    /// A select of which the first row is wanted was sent.
    Finding,
    /// `Begin` was sent.
    Opening { change: Change },
    /// The transaction is open, and the lookup of the row was sent.
    Checking { change: Change },
    /// The row is there, and the write was sent.
    Writing { change: Change },
    /// The write is done, and `Commit` was sent.
    Committing { change: Change },
    /// `Rollback` was sent. Whatever the reply, the operation ends in
    /// `outcome`.
    Aborting { outcome: Outcome },
}

impl View for Exchange {
    type V = ExchangeView;

    open spec fn view(&self) -> ExchangeView {
        match *self {
            Exchange::Creating { user } => ExchangeView::Creating { user: user@ },
            Exchange::Listing => ExchangeView::Listing,
            Exchange::Finding => ExchangeView::Finding,
            Exchange::Opening { change } => ExchangeView::Opening { change: change@ },
            Exchange::Checking { change } => ExchangeView::Checking { change: change@ },
            Exchange::Writing { change } => ExchangeView::Writing { change: change@ },
            Exchange::Committing { change } => ExchangeView::Committing { change: change@ },
            Exchange::Aborting { outcome } => ExchangeView::Aborting { outcome: outcome@ },
        }
    }
}

/// A step as contracts see it.
pub enum StepView {
    Send(ExchangeView, StatementView),
    Finish(OutcomeView),
}

/// What to do after a reply.
#[derive(Debug, PartialEq, Eq)]
pub enum Step {
    /// Send this statement, and resume the exchange with the reply to it.
    Send(Exchange, Statement),
    /// The operation is over.
    Finish(Outcome),
}

impl View for Step {
    type V = StepView;

    open spec fn view(&self) -> StepView {
        match *self {
            Step::Send(exchange, statement) => StepView::Send(exchange@, statement@),
            Step::Finish(outcome) => StepView::Finish(outcome@),
        }
    }
}

/// The failure that a reply's cause gives rise to.
pub open spec fn failure(cause: Seq<char>) -> OutcomeView {
    OutcomeView::Failed(ErrorView::Database(cause))
}

/// The step that gives up an open transaction and reports `outcome`.
pub open spec fn abort(outcome: OutcomeView) -> StepView {
    StepView::Send(ExchangeView::Aborting { outcome }, StatementView::Rollback)
}

impl OperationView {
    /// The exchange that carries the operation out, and its first statement.
    pub open spec fn start(self) -> (ExchangeView, StatementView) {
        match self {
            OperationView::CreateUser { id, username } => (
                ExchangeView::Creating { user: UserView { id, username } },
                StatementView::Insert { id, username },
            ),
            OperationView::GetUsers => (ExchangeView::Listing, StatementView::SelectAll),
            OperationView::GetUserById { id } => (
                ExchangeView::Finding,
                StatementView::SelectById { id },
            ),
            OperationView::GetUserByUsername { username } => (
                ExchangeView::Finding,
                StatementView::SelectByUsername { username },
            ),
            OperationView::UpdateUser { user } => (
                ExchangeView::Opening { change: ChangeView::Update { user } },
                StatementView::Begin,
            ),
            OperationView::DeleteUser { id } => (
                ExchangeView::Opening { change: ChangeView::Delete { id } },
                StatementView::Begin,
            ),
        }
    }
}

impl ExchangeView {
    /// What follows from the reply to the statement that was sent last.
    pub open spec fn resume(self, reply: ReplyView) -> StepView {
        match self {
            ExchangeView::Creating { user } => match reply {
                ReplyView::Rows(_) => StepView::Finish(OutcomeView::Created(user)),
                ReplyView::Failed(cause) => StepView::Finish(failure(cause)),
            },
            ExchangeView::Listing => match reply {
                ReplyView::Rows(rows) => StepView::Finish(OutcomeView::Users(rows)),
                ReplyView::Failed(cause) => StepView::Finish(failure(cause)),
            },
            ExchangeView::Finding => match reply {
                ReplyView::Rows(rows) => StepView::Finish(OutcomeView::Found(first_row(rows))),
                ReplyView::Failed(cause) => StepView::Finish(failure(cause)),
            },
            ExchangeView::Opening { change } => match reply {
                ReplyView::Rows(_) => StepView::Send(
                    ExchangeView::Checking { change },
                    change.check(),
                ),
                ReplyView::Failed(cause) => StepView::Finish(failure(cause)),
            },
            ExchangeView::Checking { change } => match reply {
                ReplyView::Rows(rows) => if rows.len() == 0 {
                    abort(change.absent())
                } else {
                    StepView::Send(ExchangeView::Writing { change }, change.write())
                },
                ReplyView::Failed(cause) => abort(failure(cause)),
            },
            ExchangeView::Writing { change } => match reply {
                ReplyView::Rows(_) => StepView::Send(
                    ExchangeView::Committing { change },
                    StatementView::Commit,
                ),
                ReplyView::Failed(cause) => abort(failure(cause)),
            },
            ExchangeView::Committing { change } => match reply {
                ReplyView::Rows(_) => StepView::Finish(change.done()),
                ReplyView::Failed(cause) => abort(failure(cause)),
            },
            ExchangeView::Aborting { outcome } => StepView::Finish(outcome),
        }
    }

    /// An upper bound on the replies that the exchange still takes.
    pub open spec fn rank(self) -> nat {
        match self {
            ExchangeView::Opening { .. } => 5,
            ExchangeView::Checking { .. } => 4,
            ExchangeView::Writing { .. } => 3,
            ExchangeView::Committing { .. } => 2,
            _ => 1,
        }
    }

    /// Whether the exchange is one that carries out `operation`.
    pub open spec fn serves(self, operation: OperationView) -> bool {
        match self {
            ExchangeView::Creating { user } => operation == (OperationView::CreateUser {
                id: user.id,
                username: user.username,
            }),
            ExchangeView::Listing => operation is GetUsers,
            ExchangeView::Finding => operation is GetUserById || operation is GetUserByUsername,
            ExchangeView::Opening { change } => change.makes(operation),
            ExchangeView::Checking { change } => change.makes(operation),
            ExchangeView::Writing { change } => change.makes(operation),
            ExchangeView::Committing { change } => change.makes(operation),
            ExchangeView::Aborting { outcome } => outcome.answers(operation),
        }
    }

    /// Whether the exchange has a transaction open at the engine.
    pub open spec fn holds_transaction(self) -> bool {
        self is Checking || self is Writing || self is Committing
    }
}

/// An exchange draws to its end: each reply leaves fewer to come.
pub proof fn lemma_resume_decreases(exchange: ExchangeView, reply: ReplyView)
    ensures
        exchange.resume(reply) matches StepView::Send(next, _) ==> next.rank() < exchange.rank(),
{
}

/// Whatever the engine replies, an exchange stays with its operation and
/// ends in an outcome of the operation's kind, or in a failure.
pub proof fn lemma_exchange_answers_operation(
    operation: OperationView,
    exchange: ExchangeView,
    reply: ReplyView,
)
    ensures
        operation.start().0.serves(operation),
        exchange.serves(operation) ==> match exchange.resume(reply) {
            StepView::Send(next, _) => next.serves(operation),
            StepView::Finish(outcome) => outcome.answers(operation),
        },
{
}

/// The transaction's scope. An exchange has a transaction open only
/// between the success of its `Begin` and the end of the exchange, and
/// closes it on every path: it ends only on the success of its `Commit`
/// or after a `Rollback`, and any failure under the transaction is
/// followed by that `Rollback`. The write is sent only in reply to a
/// lookup that found the row.
pub proof fn lemma_transaction_discipline(exchange: ExchangeView, reply: ReplyView)
    ensures
        match exchange.resume(reply) {
            StepView::Send(next, statement) => {
                &&& next.holds_transaction() ==> !(statement is Begin || statement is Rollback)
                &&& next.holds_transaction() ==> exchange.holds_transaction() || (exchange
                    is Opening && reply is Rows)
                &&& !next.holds_transaction() ==> exchange.holds_transaction() && next is Aborting
                    && statement is Rollback
                &&& statement is UpdateUsername || statement is DeleteById ==> {
                    &&& exchange matches ExchangeView::Checking { change }
                    &&& reply matches ReplyView::Rows(rows)
                    &&& rows.len() > 0
                    &&& statement == change.write()
                }
                &&& statement is Commit ==> exchange is Writing && reply is Rows
            },
            StepView::Finish(outcome) => {
                &&& exchange.holds_transaction() ==> exchange is Committing && reply is Rows
                &&& exchange.holds_transaction() ==> !(outcome is Failed)
            },
        },
        exchange.holds_transaction() && reply is Failed ==> exchange.resume(reply) == abort(
            failure(reply->Failed_0),
        ),
{
}

impl Operation {
    /// The operation that stores a new user named `username`, under an id
    /// made for it. The id is random: two calls differ in it.
    pub fn create_user(username: &str) -> (operation: Operation)
        ensures
            operation@ is CreateUser,
            operation@->CreateUser_username == username@,
            is_identifier(operation@->CreateUser_id),
    {
        Operation::CreateUser { id: fresh_identifier(), username: username.to_owned() }
    }

    /// Begins to carry the operation out: returns the exchange, and the
    /// first statement to send.
    pub fn start(self) -> (begun: (Exchange, Statement))
        ensures
            (begun.0@, begun.1@) == self@.start(),
    {
        match self {
            Operation::CreateUser { id, username } => {
                let statement = Statement::Insert { id: id.clone(), username: username.clone() };
                (Exchange::Creating { user: User { id, username } }, statement)
            },
            Operation::GetUsers => (Exchange::Listing, Statement::SelectAll),
            Operation::GetUserById { id } => (Exchange::Finding, Statement::SelectById { id }),
            Operation::GetUserByUsername { username } => (
                Exchange::Finding,
                Statement::SelectByUsername { username },
            ),
            Operation::UpdateUser { user } => (
                Exchange::Opening { change: Change::Update { user } },
                Statement::Begin,
            ),
            Operation::DeleteUser { id } => (
                Exchange::Opening { change: Change::Delete { id } },
                Statement::Begin,
            ),
        }
    }
}

/// The step that gives up an open transaction and reports the failure.
fn abort_with(cause: String) -> (step: Step)
    ensures
        step@ == abort(failure(cause@)),
{
    Step::Send(
        Exchange::Aborting { outcome: Outcome::Failed(Error::Database(cause)) },
        Statement::Rollback,
    )
}

impl Exchange {
    /// Takes the reply to the statement that was sent last, and says what
    /// to do next.
    pub fn resume(self, reply: Reply) -> (step: Step)
        ensures
            step@ == self@.resume(reply@),
    {
        match self {
            Exchange::Creating { user } => match reply {
                Reply::Rows(_) => Step::Finish(Outcome::Created(user)),
                Reply::Failed(cause) => Step::Finish(Outcome::Failed(Error::Database(cause))),
            },
            Exchange::Listing => match reply {
                Reply::Rows(rows) => Step::Finish(Outcome::Users(rows)),
                Reply::Failed(cause) => Step::Finish(Outcome::Failed(Error::Database(cause))),
            },
            Exchange::Finding => match reply {
                Reply::Rows(rows) => {
                    let mut rows = rows;
                    let first = if rows.len() > 0 {
                        Some(rows.remove(0))
                    } else {
                        None
                    };
                    Step::Finish(Outcome::Found(first))
                },
                Reply::Failed(cause) => Step::Finish(Outcome::Failed(Error::Database(cause))),
            },
            Exchange::Opening { change } => match reply {
                Reply::Rows(_) => {
                    let check = change.check();
                    Step::Send(Exchange::Checking { change }, check)
                },
                Reply::Failed(cause) => Step::Finish(Outcome::Failed(Error::Database(cause))),
            },
            Exchange::Checking { change } => match reply {
                Reply::Rows(rows) => {
                    if rows.len() == 0 {
                        Step::Send(
                            Exchange::Aborting { outcome: change.absent() },
                            Statement::Rollback,
                        )
                    } else {
                        let write = change.write();
                        Step::Send(Exchange::Writing { change }, write)
                    }
                },
                Reply::Failed(cause) => abort_with(cause),
            },
            Exchange::Writing { change } => match reply {
                Reply::Rows(_) => Step::Send(Exchange::Committing { change }, Statement::Commit),
                Reply::Failed(cause) => abort_with(cause),
            },
            Exchange::Committing { change } => match reply {
                Reply::Rows(_) => Step::Finish(change.done()),
                Reply::Failed(cause) => abort_with(cause),
            },
            Exchange::Aborting { outcome } => Step::Finish(outcome),
        }
    }
}

} // verus!
