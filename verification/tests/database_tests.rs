use chirpr::database::Database;
use chirpr::models::User;
use chirpr::protocol::{Operation, Outcome};

#[test]
fn a_new_store_is_empty() {
    let mut database = Database::in_memory().unwrap();
    assert_eq!(database.get_users().unwrap(), vec![]);
    assert_eq!(database.get_user_by_id("1").unwrap(), None);
    assert_eq!(database.get_user_by_username("a").unwrap(), None);
}

#[test]
fn create_stores_under_a_new_id() {
    let mut database = Database::in_memory().unwrap();
    let first = database.create_user("una").unwrap();
    let second = database.create_user("una").unwrap();
    assert_eq!(first.username, "una");
    assert_eq!(second.username, "una");
    assert_ne!(first.id, second.id);
    assert!(!first.id.is_empty());

    assert_eq!(
        database.get_users().unwrap(),
        vec![first.clone(), second.clone()]
    );
    assert_eq!(
        database.get_user_by_id(&first.id).unwrap(),
        Some(first.clone())
    );
    assert_eq!(
        database.get_user_by_id(&second.id).unwrap(),
        Some(second)
    );
    assert_eq!(database.get_user_by_username("una").unwrap(), Some(first));
    assert_eq!(database.get_user_by_username("Una").unwrap(), None);
}

#[test]
fn update_returns_the_user_it_was_given() {
    let mut database = Database::in_memory().unwrap();
    let vera = database.create_user("vera").unwrap();
    let other = database.create_user("walt").unwrap();

    let renamed = User {
        id: vera.id.clone(),
        username: "veronica".to_string(),
    };
    assert_eq!(
        database.update_user(renamed.clone()).unwrap(),
        Some(renamed.clone())
    );
    assert_eq!(
        database.get_users().unwrap(),
        vec![renamed.clone(), other.clone()]
    );

    let unknown = User {
        id: "unknown".to_string(),
        username: "x".to_string(),
    };
    assert_eq!(database.update_user(unknown).unwrap(), None);
    assert_eq!(database.get_users().unwrap(), vec![renamed, other]);
}

#[test]
fn delete_says_whether_there_was_a_user() {
    let mut database = Database::in_memory().unwrap();
    let xena = database.create_user("xena").unwrap();
    let yuri = database.create_user("yuri").unwrap();

    assert!(!database.delete_user("unknown").unwrap());
    assert!(database.delete_user(&xena.id).unwrap());
    assert!(!database.delete_user(&xena.id).unwrap());
    assert_eq!(database.get_users().unwrap(), vec![yuri]);
}

#[test]
fn perform_answers_in_the_kind_of_the_operation() {
    let mut database = Database::in_memory().unwrap();
    let id = "67e55044-10b1-426f-9247-bb680e5fe0c8".to_string();
    let zoe = User {
        id: id.clone(),
        username: "zoe".to_string(),
    };

    assert_eq!(
        database.perform(Operation::CreateUser {
            id: id.clone(),
            username: "zoe".to_string()
        }),
        Outcome::Created(zoe.clone())
    );
    assert_eq!(
        database.perform(Operation::GetUsers),
        Outcome::Users(vec![zoe.clone()])
    );
    assert_eq!(
        database.perform(Operation::GetUserById { id: id.clone() }),
        Outcome::Found(Some(zoe.clone()))
    );
    assert_eq!(
        database.perform(Operation::GetUserByUsername {
            username: "zoe".to_string()
        }),
        Outcome::Found(Some(zoe.clone()))
    );
    assert_eq!(
        database.perform(Operation::UpdateUser { user: zoe.clone() }),
        Outcome::Updated(Some(zoe))
    );
    assert_eq!(
        database.perform(Operation::DeleteUser { id: id.clone() }),
        Outcome::Deleted(true)
    );
    assert_eq!(
        database.perform(Operation::DeleteUser { id }),
        Outcome::Deleted(false)
    );
    assert_eq!(database.perform(Operation::GetUsers), Outcome::Users(vec![]));
}
