use blog_auth::auth::{
    access_gate, admit_user, check_email_free, insert_outcome, login_outcome, login_user,
    register_user, MSG_DB_PREFIX,
};
use blog_auth::error::{
    ErrorKind, MSG_BAD_CREDENTIALS, MSG_CLOCK_RANGE, MSG_EMAIL_TAKEN, MSG_EXPIRED, MSG_MUST_LOGIN, MSG_USER_GONE,
};
use blog_auth::model::{LoginUser, RegisterUser, User};
use blog_auth::password::{hash_password, verify_password};
use blog_auth::store::{InsertError, UserStore};
use blog_auth::token::{issue_token, TOKEN_LIFETIME_SECS};

const SECRET: &str = "test-signing-secret";
const NOW: usize = 1_700_000_000;

fn registration(name: &str, username: &str, email: &str, password: &str) -> RegisterUser {
    RegisterUser {
        name: name.to_string(),
        username: username.to_string(),
        email: email.to_string(),
        password: password.to_string(),
    }
}

fn login(email: &str, password: &str) -> LoginUser {
    LoginUser { email: email.to_string(), password: password.to_string() }
}

fn sample_user(id: i32) -> User {
    User {
        id,
        name: "A".to_string(),
        username: "a".to_string(),
        email: "a@x.com".to_string(),
        password: "$argon2id$stored".to_string(),
    }
}

#[test]
fn end_to_end_register_login_profile() {
    let mut store = UserStore::new();
    let created = register_user(&mut store, &registration("A", "a", "a@x.com", "secret123")).unwrap();
    assert!(created.id >= 1);
    assert_eq!(created.name, "A");
    assert_eq!(created.username, "a");
    assert_eq!(created.email, "a@x.com");
    let stored = store.find_by_email("a@x.com").unwrap();
    assert_ne!(stored.password, "secret123");
    assert!(verify_password("secret123", &stored.password));

    let (token, shown) = login_user(&store, &login("a@x.com", "secret123"), SECRET, NOW).unwrap();
    assert!(!token.is_empty());
    assert_eq!(shown.id, created.id);

    let header = format!("Bearer {}", token);
    let user = access_gate(&store, Some(&header), SECRET, NOW).unwrap();
    assert_eq!(user.id, created.id);
    assert_eq!(user.email, "a@x.com");

    let refused = access_gate(&store, None, SECRET, NOW).unwrap_err();
    assert_eq!(refused.kind, ErrorKind::Unauthorized);
    assert_eq!(refused.kind.status_code(), 401);
    assert_eq!(refused.message, MSG_MUST_LOGIN);
}

#[test]
fn second_registration_with_same_email_conflicts() {
    let mut store = UserStore::new();
    register_user(&mut store, &registration("A", "a", "a@x.com", "secret123")).unwrap();
    let err = register_user(&mut store, &registration("B", "b", "a@x.com", "other")).unwrap_err();
    assert_eq!(err.kind, ErrorKind::Conflict);
    assert_eq!(err.kind.status_code(), 409);
    assert_eq!(err.message, MSG_EMAIL_TAKEN);
    let kept = store.find_by_email("a@x.com").unwrap();
    assert_eq!(kept.name, "A");
    assert!(store.find_by_id(kept.id + 1).is_none());
}

#[test]
fn unknown_email_and_wrong_password_are_refused_alike() {
    let mut store = UserStore::new();
    register_user(&mut store, &registration("A", "a", "a@x.com", "secret123")).unwrap();
    let wrong_password = login_user(&store, &login("a@x.com", "nope"), SECRET, NOW).unwrap_err();
    let unknown_email = login_user(&store, &login("b@x.com", "secret123"), SECRET, NOW).unwrap_err();
    assert_eq!(wrong_password.kind, unknown_email.kind);
    assert_eq!(wrong_password.message, unknown_email.message);
    assert_eq!(wrong_password.kind, ErrorKind::BadRequest);
    assert_eq!(wrong_password.message, MSG_BAD_CREDENTIALS);
}

#[test]
fn token_of_deleted_user_is_refused() {
    let mut store = UserStore::new();
    let created = register_user(&mut store, &registration("A", "a", "a@x.com", "secret123")).unwrap();
    let token = issue_token(created.id, NOW, SECRET);
    assert!(store.delete_by_id(created.id));
    let header = format!("Bearer {}", token);
    let err = access_gate(&store, Some(&header), SECRET, NOW).unwrap_err();
    assert_eq!(err.kind, ErrorKind::Unauthorized);
    assert_eq!(err.message, MSG_USER_GONE);

    let forged = access_gate(&store, Some(&format!("Bearer {}x", token)), SECRET, NOW).unwrap_err();
    assert_eq!(forged.kind, ErrorKind::Unauthorized);
    assert_ne!(forged.message, MSG_USER_GONE);
}

#[test]
fn expired_token_is_refused_by_gate() {
    let mut store = UserStore::new();
    let created = register_user(&mut store, &registration("A", "a", "a@x.com", "secret123")).unwrap();
    let token = issue_token(created.id, NOW, SECRET);
    let header = format!("Bearer {}", token);
    assert!(access_gate(&store, Some(&header), SECRET, NOW + TOKEN_LIFETIME_SECS).is_ok());
    let err = access_gate(&store, Some(&header), SECRET, NOW + TOKEN_LIFETIME_SECS + 1).unwrap_err();
    assert_eq!(err.kind, ErrorKind::Unauthorized);
    assert_eq!(err.message, MSG_EXPIRED);
}

#[test]
fn email_check_outcomes() {
    assert!(check_email_free(&Ok(false)).is_ok());
    let taken = check_email_free(&Ok(true)).unwrap_err();
    assert_eq!(taken.kind, ErrorKind::Conflict);
    let failed = check_email_free(&Err("timeout".to_string())).unwrap_err();
    assert_eq!(failed.kind, ErrorKind::InternalError);
    assert_eq!(failed.kind.status_code(), 500);
    assert_eq!(failed.message, format!("{}timeout", MSG_DB_PREFIX));
}

#[test]
fn insert_outcomes() {
    let shown = insert_outcome(Ok(sample_user(7))).unwrap();
    assert_eq!(shown.id, 7);
    assert_eq!(shown.email, "a@x.com");
    let dup = insert_outcome(Err(InsertError::DuplicateEmail)).unwrap_err();
    assert_eq!(dup.kind, ErrorKind::Conflict);
    assert_eq!(dup.message, MSG_EMAIL_TAKEN);
    let failed = insert_outcome(Err(InsertError::Failed("disk full".to_string()))).unwrap_err();
    assert_eq!(failed.kind, ErrorKind::InternalError);
    assert_eq!(failed.message, "Database error: disk full");
}

#[test]
fn gate_lookup_outcomes() {
    assert_eq!(admit_user(Ok(Some(sample_user(3)))).unwrap().id, 3);
    let gone = admit_user(Ok(None)).unwrap_err();
    assert_eq!(gone.kind, ErrorKind::Unauthorized);
    assert_eq!(gone.message, MSG_USER_GONE);
    let failed = admit_user(Err("broken pipe".to_string())).unwrap_err();
    assert_eq!(failed.kind, ErrorKind::InternalError);
    assert_eq!(failed.message, "Error fetching user from database: broken pipe");
}

fn user_with_password(id: i32, password: &str) -> User {
    let mut u = sample_user(id);
    u.password = hash_password(password).unwrap();
    u
}

#[test]
fn login_outcomes() {
    let hash = hash_password("pw").unwrap();
    let mut user = sample_user(5);
    user.password = hash;
    let (token, shown) = login_outcome(Ok(Some(user.clone())), "pw", SECRET, NOW).unwrap();
    assert_eq!(shown.id, 5);
    assert_eq!(token.split('.').count(), 3);
    let wrong = login_outcome(Ok(Some(user)), "px", SECRET, NOW).unwrap_err();
    assert_eq!(wrong.kind.status_code(), 400);
    let late = login_outcome(Ok(Some(user_with_password(6, "pw"))), "pw", SECRET, usize::MAX).unwrap_err();
    assert_eq!(late.kind, ErrorKind::InternalError);
    assert_eq!(late.message, MSG_CLOCK_RANGE);
    let failed = login_outcome(Err("gone".to_string()), "pw", SECRET, NOW).unwrap_err();
    assert_eq!(failed.kind, ErrorKind::InternalError);
    assert_eq!(failed.message, "Database error: gone");
}

#[test]
fn error_response_body() {
    let err = admit_user(Ok(None)).unwrap_err();
    let body = err.to_response();
    assert_eq!(body.status, "fail");
    assert_eq!(body.message, MSG_USER_GONE);
}
