use chirpr::controllers::user_controller::{
    create_user, created_user_response, delete_user, deleted_user_response,
    existing_user_response, get_user, get_users, id_mismatch_response, update_user,
    user_response, users_response,
};
use chirpr::database::Database;
use chirpr::error::Error;
use chirpr::models::{State, User, UserNoId};
use chirpr::protocol::{Operation, Outcome};
use chirpr::response::{Body, Response, StatusCode};

fn fresh() -> State {
    State {
        database: Database::in_memory().unwrap(),
    }
}

fn named(username: &str) -> UserNoId {
    UserNoId {
        username: username.to_string(),
    }
}

fn create(state: &mut State, username: &str) -> (StatusCode, User) {
    let response = create_user(state, named(username)).unwrap();
    match response.body {
        Body::User(user) => (response.status, user),
        other => panic!("expected a user, got {:?}", other),
    }
}

fn listed(state: &mut State) -> Vec<User> {
    match get_users(state).unwrap().body {
        Body::Users(users) => users,
        other => panic!("expected a list of users, got {:?}", other),
    }
}

#[test]
fn scenario_create_update_delete() {
    let mut state = fresh();

    let (status, alice) = create(&mut state, "alice");
    assert_eq!(status, StatusCode::Created);
    assert_eq!(alice.username, "alice");

    let (status, again) = create(&mut state, "alice");
    assert_eq!(status, StatusCode::Okay);
    assert_eq!(again.id, alice.id);

    let alicia = User {
        id: alice.id.clone(),
        username: "alicia".to_string(),
    };
    let response = update_user(&mut state, &alice.id, alicia.clone()).unwrap();
    assert_eq!(
        response,
        Response {
            status: StatusCode::Okay,
            body: Body::User(alicia.clone())
        }
    );

    let response = get_user(&mut state, &alice.id).unwrap();
    assert_eq!(
        response,
        Response {
            status: StatusCode::Okay,
            body: Body::User(alicia)
        }
    );

    let response = delete_user(&mut state, &alice.id).unwrap();
    assert_eq!(
        response,
        Response {
            status: StatusCode::NoContent,
            body: Body::Empty
        }
    );

    let response = get_user(&mut state, &alice.id).unwrap();
    assert_eq!(
        response,
        Response {
            status: StatusCode::NotFound,
            body: Body::Empty
        }
    );
}

#[test]
fn created_user_round_trips() {
    let mut state = fresh();
    for username in ["a", "", "with space", "ünïcödé", "a"] {
        let (_, created) = create(&mut state, username);
        let response = get_user(&mut state, &created.id).unwrap();
        assert_eq!(response.status, StatusCode::Okay);
        assert_eq!(response.body, Body::User(created));
    }
}

#[test]
fn create_twice_returns_the_same_id() {
    let mut state = fresh();
    let (first_status, first) = create(&mut state, "bob");
    let (second_status, second) = create(&mut state, "bob");
    assert_eq!(first_status.code(), 201);
    assert_eq!(second_status.code(), 200);
    assert_ne!(first_status, second_status);
    assert_eq!(first, second);
    assert_eq!(listed(&mut state).len(), 1);
}

#[test]
fn create_finds_the_first_of_two_users_with_one_name() {
    let mut state = fresh();
    let first = state.database.create_user("carol").unwrap();
    let second = state.database.create_user("carol").unwrap();
    assert_ne!(first.id, second.id);

    let (status, found) = create(&mut state, "carol");
    assert_eq!(status, StatusCode::Okay);
    assert_eq!(found, first);
    assert_eq!(listed(&mut state), vec![first, second]);
}

#[test]
fn update_keeps_the_id_and_changes_the_name() {
    let mut state = fresh();
    let (_, dave) = create(&mut state, "dave");
    let (_, erin) = create(&mut state, "erin");

    let renamed = User {
        id: dave.id.clone(),
        username: "david".to_string(),
    };
    let response = update_user(&mut state, &dave.id, renamed.clone()).unwrap();
    assert_eq!(response.status, StatusCode::Okay);
    assert_eq!(response.body, Body::User(renamed.clone()));

    assert_eq!(
        get_user(&mut state, &dave.id).unwrap().body,
        Body::User(renamed.clone())
    );
    assert_eq!(
        get_user(&mut state, &erin.id).unwrap().body,
        Body::User(erin.clone())
    );
    assert_eq!(listed(&mut state), vec![renamed, erin]);
}

#[test]
fn update_may_take_a_name_that_is_in_use() {
    let mut state = fresh();
    let (_, frank) = create(&mut state, "frank");
    let (_, grace) = create(&mut state, "grace");
    let renamed = User {
        id: grace.id.clone(),
        username: "frank".to_string(),
    };
    let response = update_user(&mut state, &grace.id, renamed.clone()).unwrap();
    assert_eq!(response.status, StatusCode::Okay);
    assert_eq!(listed(&mut state), vec![frank.clone(), renamed]);

    let (status, found) = create(&mut state, "frank");
    assert_eq!(status, StatusCode::Okay);
    assert_eq!(found, frank);
}

#[test]
fn update_with_mismatched_ids_changes_nothing() {
    let mut state = fresh();
    let (_, heidi) = create(&mut state, "heidi");
    let (_, ivan) = create(&mut state, "ivan");
    let before = listed(&mut state);

    // both ids exist
    let body = User {
        id: ivan.id.clone(),
        username: "changed".to_string(),
    };
    let response = update_user(&mut state, &heidi.id, body).unwrap();
    assert_eq!(
        response,
        Response {
            status: StatusCode::BadRequest,
            body: Body::Empty
        }
    );
    assert_eq!(listed(&mut state), before);

    // only the path id exists
    let body = User {
        id: "b".to_string(),
        username: "changed".to_string(),
    };
    let response = update_user(&mut state, &heidi.id, body).unwrap();
    assert_eq!(response.status, StatusCode::BadRequest);
    assert_eq!(listed(&mut state), before);

    // only the body id exists
    let body = User {
        id: heidi.id.clone(),
        username: "changed".to_string(),
    };
    let response = update_user(&mut state, "a", body).unwrap();
    assert_eq!(response.status, StatusCode::BadRequest);
    assert_eq!(listed(&mut state), before);

    // neither exists
    let body = User {
        id: "b".to_string(),
        username: "changed".to_string(),
    };
    let response = update_user(&mut state, "a", body).unwrap();
    assert_eq!(response.status, StatusCode::BadRequest);
    assert_eq!(listed(&mut state), before);
}

#[test]
fn delete_is_final() {
    let mut state = fresh();
    let (_, judy) = create(&mut state, "judy");

    assert_eq!(
        delete_user(&mut state, &judy.id).unwrap().status,
        StatusCode::NoContent
    );
    assert_eq!(
        get_user(&mut state, &judy.id).unwrap().status,
        StatusCode::NotFound
    );
    assert_eq!(
        delete_user(&mut state, &judy.id).unwrap().status,
        StatusCode::NotFound
    );
    let revived = User {
        id: judy.id.clone(),
        username: "judy".to_string(),
    };
    assert_eq!(
        update_user(&mut state, &judy.id, revived).unwrap().status,
        StatusCode::NotFound
    );
    assert!(listed(&mut state).is_empty());
}

#[test]
fn unknown_id_is_not_found() {
    let mut state = fresh();
    create(&mut state, "kim");
    let before = listed(&mut state);
    let id = "00000000-0000-4000-8000-000000000000";

    assert_eq!(
        get_user(&mut state, id).unwrap(),
        Response {
            status: StatusCode::NotFound,
            body: Body::Empty
        }
    );
    let body = User {
        id: id.to_string(),
        username: "kim".to_string(),
    };
    assert_eq!(
        update_user(&mut state, id, body).unwrap(),
        Response {
            status: StatusCode::NotFound,
            body: Body::Empty
        }
    );
    assert_eq!(
        delete_user(&mut state, id).unwrap(),
        Response {
            status: StatusCode::NotFound,
            body: Body::Empty
        }
    );
    assert_eq!(get_user(&mut state, "").unwrap().status, StatusCode::NotFound);
    assert_eq!(listed(&mut state), before);
}

#[test]
fn listing_follows_creates_and_deletes() {
    let mut state = fresh();
    assert_eq!(
        get_users(&mut state).unwrap(),
        Response {
            status: StatusCode::Okay,
            body: Body::Users(vec![])
        }
    );

    let (_, leo) = create(&mut state, "leo");
    let (_, mia) = create(&mut state, "mia");
    let (_, ned) = create(&mut state, "ned");
    create(&mut state, "mia");

    let mut expected = vec![
        (leo.id.clone(), "leo".to_string()),
        (mia.id.clone(), "mia".to_string()),
        (ned.id.clone(), "ned".to_string()),
    ];
    expected.sort();
    let mut actual: Vec<(String, String)> = listed(&mut state)
        .into_iter()
        .map(|user| (user.id, user.username))
        .collect();
    actual.sort();
    assert_eq!(actual, expected);

    delete_user(&mut state, &mia.id).unwrap();
    let mut expected = vec![
        (leo.id.clone(), "leo".to_string()),
        (ned.id.clone(), "ned".to_string()),
    ];
    expected.sort();
    let mut actual: Vec<(String, String)> = listed(&mut state)
        .into_iter()
        .map(|user| (user.id, user.username))
        .collect();
    actual.sort();
    assert_eq!(actual, expected);
}

#[test]
fn a_taken_id_fails_the_create_and_stores_nothing() {
    let mut state = fresh();
    let (_, olga) = create(&mut state, "olga");
    let outcome = state.database.perform(Operation::CreateUser {
        id: olga.id.clone(),
        username: "other".to_string(),
    });
    assert_eq!(
        outcome,
        Outcome::Failed(Error::Database(
            "UNIQUE constraint failed: users.id".to_string()
        ))
    );
    assert_eq!(listed(&mut state), vec![olga]);
}

#[test]
fn responses_of_the_single_decisions() {
    let pat = User {
        id: "1".to_string(),
        username: "pat".to_string(),
    };

    assert_eq!(
        users_response(vec![pat.clone()]),
        Response {
            status: StatusCode::Okay,
            body: Body::Users(vec![pat.clone()])
        }
    );
    assert_eq!(
        user_response(Some(pat.clone())),
        Response {
            status: StatusCode::Okay,
            body: Body::User(pat.clone())
        }
    );
    assert_eq!(
        user_response(None),
        Response {
            status: StatusCode::NotFound,
            body: Body::Empty
        }
    );
    assert_eq!(
        existing_user_response(Some(pat.clone())),
        Some(Response {
            status: StatusCode::Okay,
            body: Body::User(pat.clone())
        })
    );
    assert_eq!(existing_user_response(None), None);
    assert_eq!(
        created_user_response(pat.clone()),
        Response {
            status: StatusCode::Created,
            body: Body::User(pat.clone())
        }
    );
    assert_eq!(id_mismatch_response("1", &pat), None);
    assert_eq!(
        id_mismatch_response("2", &pat),
        Some(Response {
            status: StatusCode::BadRequest,
            body: Body::Empty
        })
    );
    assert_eq!(
        id_mismatch_response("", &pat),
        Some(Response::new(StatusCode::BadRequest))
    );
    assert_eq!(
        deleted_user_response(true),
        Response::new(StatusCode::NoContent)
    );
    assert_eq!(
        deleted_user_response(false),
        Response::new(StatusCode::NotFound)
    );
}

#[test]
fn status_numbers() {
    assert_eq!(StatusCode::Okay.code(), 200);
    assert_eq!(StatusCode::Created.code(), 201);
    assert_eq!(StatusCode::NoContent.code(), 204);
    assert_eq!(StatusCode::BadRequest.code(), 400);
    assert_eq!(StatusCode::NotFound.code(), 404);
    assert_eq!(StatusCode::InternalServerError.code(), 500);
}

#[test]
fn a_store_failure_is_a_server_error() {
    let error = Error::Database("disk I/O error".to_string());
    assert_eq!(
        Response::failure(&error),
        Response {
            status: StatusCode::InternalServerError,
            body: Body::Empty
        }
    );
    assert_eq!(Response::failure(&error).status.code(), 500);
    assert_eq!(error.to_string(), "database error");
    assert_eq!(error.cause(), "disk I/O error");
}
