//! The record store: users kept in a storage engine, reached through the
//! six operations of the directory.

use crate::engine::{duplicate_id_cause, Engine, EngineView};
use crate::error::{Error, ErrorView};
use crate::identifier::is_identifier;
use crate::models::{optional_view, views, User, UserView};
use crate::protocol::{
    failure, lemma_resume_decreases, ExchangeView, Operation, OperationView,
    Outcome, OutcomeView, Step, StepView,
};
use crate::statement::{Reply, ReplyView, Statement, StatementView};
use crate::table::{
    has_id, lemma_has_id_selects, lemma_rows_without_id, rows_renamed, rows_without_id,
    unique_ids, user_with_id, user_with_username,
};
use vstd::pervasive::unreached;
use vstd::prelude::*;

verus! {

/// What an operation returns and what it makes of the table.
pub open spec fn effect(rows: Seq<UserView>, operation: OperationView) -> (
    OutcomeView,
    Seq<UserView>,
) {
    match operation {
        OperationView::CreateUser { id, username } => if has_id(rows, id) {
            (failure(duplicate_id_cause()), rows)
        } else {
            (OutcomeView::Created(UserView { id, username }), rows.push(UserView { id, username }))
        },
        OperationView::GetUsers => (OutcomeView::Users(rows), rows),
        OperationView::GetUserById { id } => (OutcomeView::Found(user_with_id(rows, id)), rows),
        OperationView::GetUserByUsername { username } => (
            OutcomeView::Found(user_with_username(rows, username)),
            rows,
        ),
        OperationView::UpdateUser { user } => if has_id(rows, user.id) {
            (OutcomeView::Updated(Some(user)), rows_renamed(rows, user.id, user.username))
        } else {
            (OutcomeView::Updated(None), rows)
        },
        OperationView::DeleteUser { id } => if has_id(rows, id) {
            (OutcomeView::Deleted(true), rows_without_id(rows, id))
        } else {
            (OutcomeView::Deleted(false), rows)
        },
    }
}

/// What holds of every stored table: ids are unique, and each is the
/// written form of a random UUID.
pub open spec fn valid_rows(rows: Seq<UserView>) -> bool {
    &&& unique_ids(rows)
    &&& forall|i: int| 0 <= i < rows.len() ==> is_identifier(#[trigger] rows[i].id)
}

/// One statement on an engine that may fail. Where `fault` holds a cause,
/// the engine does not carry the statement out and replies with the
/// cause; a rollback is carried out in any case.
pub open spec fn execute_or_fail(
    engine: EngineView,
    statement: StatementView,
    fault: Option<Seq<char>>,
) -> (EngineView, ReplyView) {
    match fault {
        Some(cause) => if statement is Rollback {
            engine.execute(statement)
        } else {
            (engine, ReplyView::Failed(cause))
        },
        None => engine.execute(statement),
    }
}

/// The outcome of an exchange that is played against the engine until it
/// ends, and the state in which it leaves the engine. The first statement
/// meets the first of `faults`, the second the second, and so on; past the
/// end of `faults` nothing fails.
pub open spec fn run(
    exchange: ExchangeView,
    statement: StatementView,
    engine: EngineView,
    faults: Seq<Option<Seq<char>>>,
) -> (OutcomeView, EngineView)
    decreases exchange.rank(),
{
    let fault = if faults.len() > 0 {
        faults.first()
    } else {
        None
    };
    let later = if faults.len() > 0 {
        faults.drop_first()
    } else {
        faults
    };
    let (engine, reply) = execute_or_fail(engine, statement, fault);
    match exchange.resume(reply) {
        StepView::Send(next, statement) => if next.rank() < exchange.rank() {
            run(next, statement, engine, later)
        } else {
            arbitrary()
        },
        StepView::Finish(outcome) => (outcome, engine),
    }
}

/// Operations are all or nothing, whichever statements fail. Played on an
/// engine with no transaction open, an operation leaves no transaction
/// open; where it ends in a failure the table is as it was before; and
/// where it does not, it has had its effect and returned its outcome,
/// just as if nothing had failed.
pub proof fn lemma_operations_are_atomic(
    rows: Seq<UserView>,
    operation: OperationView,
    faults: Seq<Option<Seq<char>>>,
)
    ensures
        ({
            let (outcome, engine) = run(
                operation.start().0,
                operation.start().1,
                EngineView { rows, saved: None },
                faults,
            );
            &&& engine.saved is None
            &&& outcome.answers(operation)
            &&& if outcome is Failed {
                engine.rows == rows
            } else {
                (outcome, engine.rows) == effect(rows, operation)
            }
        }),
{
    reveal_with_fuel(run, 6);
    match operation {
        OperationView::UpdateUser { user } => {
            lemma_has_id_selects(rows, user.id);
        },
        OperationView::DeleteUser { id } => {
            lemma_has_id_selects(rows, id);
        },
        _ => {},
    }
}

/// Where no statement fails, the statements of an operation have the
/// operation's effect on the table.
pub proof fn lemma_run_has_effect(rows: Seq<UserView>, operation: OperationView)
    ensures
        run(
            operation.start().0,
            operation.start().1,
            EngineView { rows, saved: None },
            Seq::empty(),
        ) == (
            effect(rows, operation).0,
            EngineView { rows: effect(rows, operation).1, saved: None },
        ),
{
    reveal_with_fuel(run, 6);
    match operation {
        OperationView::UpdateUser { user } => {
            lemma_has_id_selects(rows, user.id);
        },
        OperationView::DeleteUser { id } => {
            lemma_has_id_selects(rows, id);
        },
        _ => {},
    }
}

/// An operation leaves a valid table valid, provided that a new user's id
/// is the written form of a UUID.
pub proof fn lemma_effect_keeps_valid(rows: Seq<UserView>, operation: OperationView)
    requires
        valid_rows(rows),
        operation matches OperationView::CreateUser { id, .. } ==> is_identifier(id),
    ensures
        valid_rows(effect(rows, operation).1),
{
    let after = effect(rows, operation).1;
    match operation {
        OperationView::DeleteUser { id } => {
            lemma_rows_without_id(rows, id);
            assert forall|k: int| 0 <= k < after.len() implies is_identifier(
                #[trigger] after[k].id,
            ) by {
                if has_id(rows, id) {
                    assert(rows.contains(after[k]));
                }
            }
        },
        _ => {},
    }
}

/// The record store. It owns its storage engine; between two operations no
/// transaction is open.
pub struct Database {
    engine: Engine,
}

impl View for Database {
    type V = Seq<UserView>;

    /// The table: the stored users in the order of their creation.
    closed spec fn view(&self) -> Seq<UserView> {
        self.engine@.rows
    }
}

impl Database {
    /// No transaction is open at the engine.
    pub closed spec fn idle(&self) -> bool {
        self.engine@.saved is None
    }

    /// The store is at rest and its table is valid.
    pub open spec fn wf(&self) -> bool {
        self.idle() && valid_rows(self@)
    }

    /// A store on a volatile engine of its own, with the schema in place
    /// and no user in it.
    pub fn in_memory() -> (result: Result<Database, Error>)
        ensures
            result matches Ok(database) && database.wf() && database@ == Seq::<UserView>::empty(),
    {
        let mut engine = Engine::new();
        match engine.execute(&Statement::CreateSchema) {
            Reply::Rows(_) => Ok(Database { engine }),
            Reply::Failed(cause) => Err(Error::Database(cause)),
        }
    }

    /// Carries out one operation: sends its statements to the engine, one
    /// after the other, until the exchange ends.
    pub fn perform(&mut self, operation: Operation) -> (outcome: Outcome)
        requires
            old(self).idle(),
        ensures
            final(self).idle(),
            (outcome@, final(self)@) == effect(old(self)@, operation@),
            outcome@.answers(operation@),
            valid_rows(old(self)@) && (operation@ matches OperationView::CreateUser { id, .. }
                ==> is_identifier(id)) ==> valid_rows(final(self)@),
    {
        let ghost before = self.engine@;
        let ghost asked = operation@;
        let (exchange, statement) = operation.start();
        let mut exchange = exchange;
        let mut statement = statement;
        loop
            invariant
                asked == operation@,
                before == (EngineView { rows: old(self)@, saved: None }),
                run(exchange@, statement@, self.engine@, Seq::empty()) == run(
                    asked.start().0,
                    asked.start().1,
                    before,
                    Seq::empty(),
                ),
            decreases exchange@.rank(),
        {
            let reply = self.engine.execute(&statement);
            proof {
                lemma_resume_decreases(exchange@, reply@);
            }
            match exchange.resume(reply) {
                Step::Send(next, following) => {
                    exchange = next;
                    statement = following;
                },
                Step::Finish(outcome) => {
                    proof {
                        lemma_run_has_effect(before.rows, asked);
                        if valid_rows(before.rows) && (asked matches OperationView::CreateUser {
                            id,
                            ..
                        } ==> is_identifier(id)) {
                            lemma_effect_keeps_valid(before.rows, asked);
                        }
                    }
                    return outcome;
                },
            }
        }
    }

    /// Stores a new user named `username` under a random id and returns
    /// it. A username that is taken already is no obstacle. The one
    /// failure is an id that a stored user has already: then nothing is
    /// stored.
    pub fn create_user(&mut self, username: &str) -> (result: Result<User, Error>)
        requires
            old(self).wf(),
        ensures
            final(self).wf(),
            match result {
                Ok(user) => {
                    &&& user@.username == username@
                    &&& is_identifier(user@.id)
                    &&& !has_id(old(self)@, user@.id)
                    &&& final(self)@ == old(self)@.push(user@)
                },
                Err(error) => {
                    &&& error@ == ErrorView::Database(duplicate_id_cause())
                    &&& final(self)@ == old(self)@
                    &&& old(self)@.len() > 0
                },
            },
    {
        match self.perform(Operation::create_user(username)) {
            Outcome::Created(user) => Ok(user),
            Outcome::Failed(error) => Err(error),
            _ => unreached(),
        }
    }

    /// All users, in the order of their creation.
    pub fn get_users(&mut self) -> (result: Result<Vec<User>, Error>)
        requires
            old(self).wf(),
        ensures
            final(self).wf(),
            final(self)@ == old(self)@,
            result matches Ok(users) && views(users@) == old(self)@,
    {
        match self.perform(Operation::GetUsers) {
            Outcome::Users(users) => Ok(users),
            Outcome::Failed(error) => Err(error),
            _ => unreached(),
        }
    }

    /// The user stored under `user_id`, or `None` where there is none.
    pub fn get_user_by_id(&mut self, user_id: &str) -> (result: Result<Option<User>, Error>)
        requires
            old(self).wf(),
        ensures
            final(self).wf(),
            final(self)@ == old(self)@,
            result matches Ok(found) && optional_view(found) == user_with_id(old(self)@, user_id@),
    {
        match self.perform(Operation::GetUserById { id: user_id.to_owned() }) {
            Outcome::Found(found) => Ok(found),
            Outcome::Failed(error) => Err(error),
            _ => unreached(),
        }
    }

    /// The user named `username` that was created first, or `None` where
    /// no user has that name.
    pub fn get_user_by_username(&mut self, username: &str) -> (result: Result<
        Option<User>,
        Error,
    >)
        requires
            old(self).wf(),
        ensures
            final(self).wf(),
            final(self)@ == old(self)@,
            result matches Ok(found) && optional_view(found) == user_with_username(
                old(self)@,
                username@,
            ),
    {
        match self.perform(Operation::GetUserByUsername { username: username.to_owned() }) {
            Outcome::Found(found) => Ok(found),
            Outcome::Failed(error) => Err(error),
            _ => unreached(),
        }
    }

    /// Gives the user stored under `user.id` the name `user.username` and
    /// returns `user`, or returns `None` and changes nothing where no user
    /// is stored under that id. Lookup and write happen under one
    /// transaction.
    pub fn update_user(&mut self, user: User) -> (result: Result<Option<User>, Error>)
        requires
            old(self).wf(),
        ensures
            final(self).wf(),
            result matches Ok(updated) && if has_id(old(self)@, user@.id) {
                &&& optional_view(updated) == Some(user@)
                &&& final(self)@ == rows_renamed(old(self)@, user@.id, user@.username)
            } else {
                &&& updated is None
                &&& final(self)@ == old(self)@
            },
    {
        match self.perform(Operation::UpdateUser { user }) {
            Outcome::Updated(updated) => Ok(updated),
            Outcome::Failed(error) => Err(error),
            _ => unreached(),
        }
    }

    /// Removes the user stored under `user_id` and returns whether there
    /// was one. Lookup and removal happen under one transaction.
    pub fn delete_user(&mut self, user_id: &str) -> (result: Result<bool, Error>)
        requires
            old(self).wf(),
        ensures
            final(self).wf(),
            result matches Ok(existed) && existed == has_id(old(self)@, user_id@),
            final(self)@ == if has_id(old(self)@, user_id@) {
                rows_without_id(old(self)@, user_id@)
            } else {
                old(self)@
            },
    {
        match self.perform(Operation::DeleteUser { id: user_id.to_owned() }) {
            Outcome::Deleted(existed) => Ok(existed),
            Outcome::Failed(error) => Err(error),
            _ => unreached(),
        }
    }
}

} // verus!
