use chirpr::controllers::user_controller;
use chirpr::database::Database;
use chirpr::models::{State, User, UserNoId};
use chirpr::response::{Body, Response, StatusCode};

fn user_of(response: Response) -> User {
    match response.body {
        Body::User(user) => user,
        other => panic!("expected a user, got {:?}", other),
    }
}

fn users_of(response: Response) -> Vec<User> {
    match response.body {
        Body::Users(users) => users,
        other => panic!("expected a list of users, got {:?}", other),
    }
}

#[test]
fn get_nonexistent_user() {
    let database = Database::in_memory().unwrap();
    let mut app = State { database };

    // get user
    let response = user_controller::get_user(&mut app, "nope").unwrap();
    assert_eq!(StatusCode::NotFound, response.status);
}

#[test]
fn create_user() {
    let database = Database::in_memory().unwrap();
    let mut app = State { database };

    let user = UserNoId {
        username: "testuser".to_string(),
    };

    // create user
    let response = user_controller::create_user(
        &mut app,
        UserNoId {
            username: user.username.clone(),
        },
    )
    .unwrap();
    assert_eq!(StatusCode::Created, response.status);
    let created_user = user_of(response);
    assert_eq!(user.username, created_user.username);

    let response = user_controller::get_user(&mut app, &created_user.id).unwrap();
    assert_eq!(StatusCode::Okay, response.status);

    let response_user = user_of(response);
    assert_eq!(created_user, response_user);
}

#[test]
fn delete_user() {
    let database = Database::in_memory().unwrap();
    let mut app = State { database };

    let user = UserNoId {
        username: "testuser".to_string(),
    };

    // create user
    let response = user_controller::create_user(&mut app, user).unwrap();
    let user = user_of(response);

    // delete user
    let response = user_controller::delete_user(&mut app, &user.id).unwrap();
    assert_eq!(StatusCode::NoContent, response.status);

    // assert user doesn't exist
    let response = user_controller::get_user(&mut app, &user.id).unwrap();
    assert_eq!(StatusCode::NotFound, response.status);
}

#[test]
fn delete_nonexistent_user() {
    let database = Database::in_memory().unwrap();
    let mut app = State { database };

    // delete user
    let response = user_controller::delete_user(&mut app, "nope").unwrap();
    assert_eq!(StatusCode::NotFound, response.status);
}

#[test]
fn get_users() {
    let database = Database::in_memory().unwrap();
    let mut app = State { database };

    let usernames = vec!["testuser", "anotheruser"];

    let mut users = Vec::new();
    for username in usernames {
        let user = UserNoId {
            username: username.to_string(),
        };

        let response = user_controller::create_user(&mut app, user).unwrap();
        let user = user_of(response);

        assert_eq!(username, user.username);
        users.push(user);
    }

    let response = user_controller::get_users(&mut app).unwrap();
    assert_eq!(StatusCode::Okay, response.status);

    let actual_users = users_of(response);
    assert_eq!(users, actual_users);
}

#[test]
fn update_user() {
    let database = Database::in_memory().unwrap();
    let mut app = State { database };

    // create user
    let user = UserNoId {
        username: "myuser".to_string(),
    };
    let response = user_controller::create_user(&mut app, user).unwrap();
    let user: User = user_of(response);

    // update user
    let updated_user = User {
        username: "newusername".to_string(),
        ..user
    };
    let response =
        user_controller::update_user(&mut app, &updated_user.id, updated_user.clone()).unwrap();
    assert_eq!(StatusCode::Okay, response.status);

    // assert username changed
    let response = user_controller::get_user(&mut app, &updated_user.id).unwrap();
    let actual_user: User = user_of(response);
    assert_eq!(updated_user, actual_user);
}

#[test]
fn update_nonexistent_user() {
    let database = Database::in_memory().unwrap();
    let mut app = State { database };

    // update user
    let user = User {
        id: "nouser".to_string(),
        username: "someuser".to_string(),
    };
    let id = user.id.clone();
    let response = user_controller::update_user(&mut app, &id, user).unwrap();
    assert_eq!(StatusCode::NotFound, response.status);
}

#[test]
fn update_user_id_mismatch() {
    let database = Database::in_memory().unwrap();
    let mut app = State { database };

    // update user
    let user = User {
        id: "myid".to_string(),
        username: "someuser".to_string(),
    };
    let response = user_controller::update_user(&mut app, "differentid", user).unwrap();
    assert_eq!(StatusCode::BadRequest, response.status);
}
