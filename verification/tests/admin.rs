use orca::entity::user::User;
use orca::error::{OrcaError, OrcaRepoError};
use orca::service::admin::{AuthService, Pagination, UserService, Window};

fn ann() -> User {
    User {
        id: "ann".to_string(),
        first_name: "Ann".to_string(),
        last_name: None,
        name: "Ann".to_string(),
        email: "ann@example.org".to_string(),
    }
}

#[test]
fn a_known_user_signs_in_with_the_password() {
    let user =
        AuthService::auth_user(Some(ann()), "ann@example.org".to_string(), "password".to_string())
            .unwrap();
    assert_eq!(user.id, "ann");
    assert_eq!(user.email, "ann@example.org");
}

#[test]
fn a_wrong_password_is_an_invalid_user_name() {
    match AuthService::auth_user(Some(ann()), "ann@example.org".to_string(), "Password".to_string()) {
        Err(OrcaError::RepoError(OrcaRepoError::InvalidUsername(id))) => assert_eq!(id, "ann"),
        _ => panic!("the user was signed in"),
    }
}

#[test]
fn an_unknown_user_is_not_found() {
    match AuthService::auth_user(None, "bob@example.org".to_string(), "password".to_string()) {
        Err(OrcaError::RepoError(OrcaRepoError::ModelNotFound(kind, key))) => {
            assert_eq!(kind, "User");
            assert_eq!(key, "bob@example.org");
        }
        _ => panic!("the user was signed in"),
    }
}

#[test]
fn a_page_of_users_skips_the_pages_before_it() {
    assert_eq!(
        UserService::list_users(Pagination { offset: 1, limit: 10 }),
        Window { skip: 0, take: 10 }
    );
    assert_eq!(
        UserService::list_users(Pagination { offset: 4, limit: 25 }),
        Window { skip: 75, take: 25 }
    );
    assert_eq!(
        UserService::list_users(Pagination { offset: 0, limit: 10 }),
        Window { skip: 0, take: 10 }
    );
    assert_eq!(
        UserService::list_users(Pagination { offset: u64::MAX, limit: 3 }),
        Window { skip: u64::MAX, take: 3 }
    );
    let page = Pagination { offset: 2, limit: 5 };
    assert_eq!((page.offset(), page.limit()), (2, 5));
}

#[test]
fn a_user_that_is_not_kept_is_not_found() {
    assert!(UserService::get_user_by_id(Some(ann()), "ann".to_string()).is_ok());
    match UserService::get_user_by_id(None, "bob".to_string()) {
        Err(OrcaError::RepoError(OrcaRepoError::ModelNotFound(kind, key))) => {
            assert_eq!(kind, "User");
            assert_eq!(key, "bob");
        }
        _ => panic!("the user was found"),
    }
}

#[test]
fn a_deletion_that_removed_nothing_is_not_found() {
    assert!(UserService::delete_user_by_id(1, "ann".to_string()).is_ok());
    match UserService::delete_user_by_id(0, "bob".to_string()) {
        Err(OrcaError::RepoError(OrcaRepoError::ModelNotFound(kind, key))) => {
            assert_eq!(kind, "User");
            assert_eq!(key, "bob");
        }
        _ => panic!("the user was deleted"),
    }
}
