use chirpr::statement::Statement;

#[test]
fn statements_have_their_sql() {
    let id = "1".to_string();
    let username = "a".to_string();

    let statement = Statement::CreateSchema;
    assert_eq!(
        statement.sql(),
        "create table if not exists users (id text primary key not null, username text not null)"
    );
    assert!(statement.parameters().is_empty());

    assert_eq!(Statement::Begin.sql(), "begin");
    assert_eq!(Statement::Commit.sql(), "commit");
    assert_eq!(Statement::Rollback.sql(), "rollback");
    assert!(Statement::Begin.parameters().is_empty());
    assert!(Statement::Commit.parameters().is_empty());
    assert!(Statement::Rollback.parameters().is_empty());

    let statement = Statement::Insert {
        id: id.clone(),
        username: username.clone(),
    };
    assert_eq!(
        statement.sql(),
        "insert into users (id, username) values (?, ?)"
    );
    assert_eq!(statement.parameters(), vec![id.clone(), username.clone()]);

    let statement = Statement::SelectAll;
    assert_eq!(statement.sql(), "select id, username from users");
    assert!(statement.parameters().is_empty());

    let statement = Statement::SelectById { id: id.clone() };
    assert_eq!(
        statement.sql(),
        "select id, username from users where id == ?"
    );
    assert_eq!(statement.parameters(), vec![id.clone()]);

    let statement = Statement::SelectByUsername {
        username: username.clone(),
    };
    assert_eq!(
        statement.sql(),
        "select id, username from users where username == ?"
    );
    assert_eq!(statement.parameters(), vec![username.clone()]);

    let statement = Statement::UpdateUsername {
        id: id.clone(),
        username: username.clone(),
    };
    assert_eq!(
        statement.sql(),
        "update users set username = ? where id == ?"
    );
    assert_eq!(statement.parameters(), vec![username.clone(), id.clone()]);

    let statement = Statement::DeleteById { id: id.clone() };
    assert_eq!(statement.sql(), "delete from users where id == ?");
    assert_eq!(statement.parameters(), vec![id]);
}

#[test]
fn every_placeholder_has_its_parameter() {
    let statements = vec![
        Statement::CreateSchema,
        Statement::Begin,
        Statement::Commit,
        Statement::Rollback,
        Statement::Insert {
            id: "1".to_string(),
            username: "a".to_string(),
        },
        Statement::SelectAll,
        Statement::SelectById {
            id: "1".to_string(),
        },
        Statement::SelectByUsername {
            username: "a".to_string(),
        },
        Statement::UpdateUsername {
            id: "1".to_string(),
            username: "a".to_string(),
        },
        Statement::DeleteById {
            id: "1".to_string(),
        },
    ];
    for statement in statements {
        let placeholders = statement.sql().matches('?').count();
        assert_eq!(placeholders, statement.parameters().len());
    }
}
