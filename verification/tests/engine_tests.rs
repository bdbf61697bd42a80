use chirpr::engine::Engine;
use chirpr::models::User;
use chirpr::statement::{Reply, Statement};

fn user(id: &str, username: &str) -> User {
    User {
        id: id.to_string(),
        username: username.to_string(),
    }
}

fn insert(id: &str, username: &str) -> Statement {
    Statement::Insert {
        id: id.to_string(),
        username: username.to_string(),
    }
}

fn done() -> Reply {
    Reply::Rows(vec![])
}

fn all(engine: &mut Engine) -> Vec<User> {
    match engine.execute(&Statement::SelectAll) {
        Reply::Rows(rows) => rows,
        Reply::Failed(cause) => panic!("select failed: {}", cause),
    }
}

#[test]
fn a_new_engine_is_empty() {
    let mut engine = Engine::new();
    assert_eq!(engine.execute(&Statement::SelectAll), done());
    assert_eq!(
        engine.execute(&Statement::SelectById {
            id: "1".to_string()
        }),
        done()
    );
}

#[test]
fn rows_stand_in_insertion_order() {
    let mut engine = Engine::new();
    assert_eq!(engine.execute(&insert("2", "b")), done());
    assert_eq!(engine.execute(&insert("1", "a")), done());
    assert_eq!(engine.execute(&insert("3", "b")), done());
    assert_eq!(
        all(&mut engine),
        vec![user("2", "b"), user("1", "a"), user("3", "b")]
    );
    assert_eq!(
        engine.execute(&Statement::SelectByUsername {
            username: "b".to_string()
        }),
        Reply::Rows(vec![user("2", "b"), user("3", "b")])
    );
    assert_eq!(
        engine.execute(&Statement::SelectById {
            id: "1".to_string()
        }),
        Reply::Rows(vec![user("1", "a")])
    );
    assert_eq!(
        engine.execute(&Statement::SelectByUsername {
            username: "c".to_string()
        }),
        done()
    );
}

#[test]
fn the_id_is_a_primary_key() {
    let mut engine = Engine::new();
    assert_eq!(engine.execute(&insert("1", "a")), done());
    assert_eq!(
        engine.execute(&insert("1", "b")),
        Reply::Failed("UNIQUE constraint failed: users.id".to_string())
    );
    assert_eq!(all(&mut engine), vec![user("1", "a")]);
}

#[test]
fn update_and_delete_go_by_id() {
    let mut engine = Engine::new();
    engine.execute(&insert("1", "a"));
    engine.execute(&insert("2", "b"));
    engine.execute(&insert("3", "c"));

    assert_eq!(
        engine.execute(&Statement::UpdateUsername {
            id: "2".to_string(),
            username: "z".to_string()
        }),
        done()
    );
    assert_eq!(
        all(&mut engine),
        vec![user("1", "a"), user("2", "z"), user("3", "c")]
    );

    assert_eq!(
        engine.execute(&Statement::UpdateUsername {
            id: "9".to_string(),
            username: "z".to_string()
        }),
        done()
    );
    assert_eq!(
        engine.execute(&Statement::DeleteById {
            id: "9".to_string()
        }),
        done()
    );
    assert_eq!(
        all(&mut engine),
        vec![user("1", "a"), user("2", "z"), user("3", "c")]
    );

    assert_eq!(
        engine.execute(&Statement::DeleteById {
            id: "1".to_string()
        }),
        done()
    );
    assert_eq!(all(&mut engine), vec![user("2", "z"), user("3", "c")]);
}

#[test]
fn rollback_undoes_and_commit_keeps() {
    let mut engine = Engine::new();
    engine.execute(&insert("1", "a"));

    assert_eq!(engine.execute(&Statement::Begin), done());
    engine.execute(&insert("2", "b"));
    engine.execute(&Statement::UpdateUsername {
        id: "1".to_string(),
        username: "z".to_string(),
    });
    assert_eq!(all(&mut engine), vec![user("1", "z"), user("2", "b")]);
    assert_eq!(engine.execute(&Statement::Rollback), done());
    assert_eq!(all(&mut engine), vec![user("1", "a")]);

    assert_eq!(engine.execute(&Statement::Begin), done());
    engine.execute(&Statement::DeleteById {
        id: "1".to_string(),
    });
    engine.execute(&insert("3", "c"));
    assert_eq!(engine.execute(&Statement::Commit), done());
    assert_eq!(all(&mut engine), vec![user("3", "c")]);
}

#[test]
fn transactions_do_not_nest() {
    let mut engine = Engine::new();
    assert_eq!(
        engine.execute(&Statement::Commit),
        Reply::Failed("cannot commit - no transaction is active".to_string())
    );
    assert_eq!(
        engine.execute(&Statement::Rollback),
        Reply::Failed("cannot rollback - no transaction is active".to_string())
    );
    assert_eq!(engine.execute(&Statement::Begin), done());
    engine.execute(&insert("1", "a"));
    assert_eq!(
        engine.execute(&Statement::Begin),
        Reply::Failed("cannot start a transaction within a transaction".to_string())
    );
    assert_eq!(engine.execute(&Statement::Rollback), done());
    assert_eq!(all(&mut engine), vec![]);
    assert_eq!(
        engine.execute(&Statement::Rollback),
        Reply::Failed("cannot rollback - no transaction is active".to_string())
    );
}

#[test]
fn the_schema_can_be_applied_again() {
    let mut engine = Engine::new();
    assert_eq!(engine.execute(&Statement::CreateSchema), done());
    engine.execute(&insert("1", "a"));
    assert_eq!(engine.execute(&Statement::CreateSchema), done());
    assert_eq!(all(&mut engine), vec![user("1", "a")]);
}
