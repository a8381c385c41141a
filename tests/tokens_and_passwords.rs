use blog_auth::error::{ErrorKind, MSG_EXPIRED, MSG_MUST_LOGIN, MSG_USER_GONE};
use blog_auth::model::{Config, NewPost, Post, TokenClaims, User, UserPostResponse};
use blog_auth::password::{hash_password, hash_with_salt, verify_password};
use blog_auth::store::{InsertError, UserStore};
use blog_auth::token::{authenticate, bearer_token, issue_claims, issue_token, sign_claims, verify_token};

const SECRET: &str = "another-secret";
const NOW: usize = 1_600_000_000;

#[test]
fn hashed_password_verifies() {
    let h = hash_password("correct horse").unwrap();
    assert!(verify_password("correct horse", &h));
    assert!(!verify_password("correct horsf", &h));
    assert!(h.starts_with("$argon2id$"));
    assert_ne!(h, "correct horse");
}

#[test]
fn two_hashes_of_one_password_differ_and_both_verify() {
    let a = hash_password("same").unwrap();
    let b = hash_password("same").unwrap();
    assert_ne!(a, b);
    assert!(verify_password("same", &a));
    assert!(verify_password("same", &b));
}

#[test]
fn malformed_stored_hash_is_rejected_not_an_error() {
    assert!(!verify_password("anything", "not a hash"));
    assert!(!verify_password("", ""));
}

#[test]
fn issued_claims_last_sixty_minutes() {
    let c = issue_claims(42, NOW);
    assert_eq!(c, TokenClaims { sub: 42, iat: NOW, exp: NOW + 3600 });
}

#[test]
fn issued_token_resolves_to_same_user() {
    let t = issue_token(42, NOW, SECRET);
    let c = verify_token(&t, SECRET, NOW).unwrap();
    assert_eq!(c, TokenClaims { sub: 42, iat: NOW, exp: NOW + 3600 });
    let header = format!("Bearer {}", t);
    assert_eq!(authenticate(Some(&header), SECRET, NOW + 10).unwrap().sub, 42);
}

#[test]
fn negative_subject_round_trips() {
    let t = issue_token(-7, NOW, SECRET);
    assert_eq!(verify_token(&t, SECRET, NOW).unwrap().sub, -7);
}

#[test]
fn expired_token_is_rejected() {
    let old = TokenClaims { sub: 1, iat: 100, exp: 200 };
    let t = sign_claims(&old, SECRET);
    assert_eq!(verify_token(&t, SECRET, 200).unwrap(), old);
    let err = verify_token(&t, SECRET, 201).unwrap_err();
    assert_eq!(err.kind, ErrorKind::Unauthorized);
    assert_eq!(err.message, MSG_EXPIRED);
}

#[test]
fn token_under_other_secret_is_rejected() {
    let t = issue_token(1, NOW, SECRET);
    let err = verify_token(&t, "wrong", NOW).unwrap_err();
    assert_eq!(err.kind, ErrorKind::Unauthorized);
    assert_eq!(err.message, "InvalidSignature");
    assert_ne!(err.message, MSG_USER_GONE);
    assert!(verify_token("garbage", SECRET, NOW).is_err());
}

#[test]
fn bearer_header_forms() {
    assert_eq!(bearer_token("Bearer abc"), Some("abc".to_string()));
    assert_eq!(bearer_token("Bearer "), Some(String::new()));
    assert_eq!(bearer_token("bearer abc"), None);
    assert_eq!(bearer_token("Bearer"), None);
    assert_eq!(bearer_token("Basic abc"), None);
    assert_eq!(bearer_token(""), None);
}

#[test]
fn missing_or_malformed_header_asks_to_log_in() {
    for header in [None, Some("Token abc"), Some("")] {
        let err = authenticate(header, SECRET, NOW).unwrap_err();
        assert_eq!(err.kind, ErrorKind::Unauthorized);
        assert_eq!(err.message, MSG_MUST_LOGIN);
    }
}

#[test]
fn store_insert_find_delete() {
    let mut store = UserStore::new();
    let a = store
        .insert("A".to_string(), "a".to_string(), "a@x.com".to_string(), "h1".to_string())
        .unwrap();
    let b = store
        .insert("B".to_string(), "b".to_string(), "b@x.com".to_string(), "h2".to_string())
        .unwrap();
    assert_ne!(a.id, b.id);
    assert!(matches!(
        store.insert("C".to_string(), "c".to_string(), "a@x.com".to_string(), "h3".to_string()),
        Err(InsertError::DuplicateEmail)
    ));
    assert_eq!(store.find_by_email("b@x.com").unwrap().id, b.id);
    assert_eq!(store.find_by_id(a.id).unwrap().email, "a@x.com");
    assert!(store.delete_by_id(a.id));
    assert!(!store.delete_by_id(a.id));
    assert!(store.find_by_id(a.id).is_none());
    assert!(store.find_by_email("a@x.com").is_none());
    assert_eq!(store.find_by_id(b.id).unwrap().name, "B");
}

#[test]
fn record_views() {
    let u = User {
        id: 9,
        name: "N".to_string(),
        username: "u".to_string(),
        email: "e@x.com".to_string(),
        password: "hash".to_string(),
    };
    assert_eq!(u.copy().password, "hash");
    let r = u.filter_user_record();
    assert_eq!((r.id, r.name.as_str(), r.username.as_str(), r.email.as_str()), (9, "N", "u", "e@x.com"));
    let post = Post {
        id: 1,
        title: "t".to_string(),
        content: "c".to_string(),
        date_published: 0,
        author_id: 9,
        category_id: 2,
    };
    let resp = UserPostResponse::response(r, vec![post]);
    assert_eq!(resp.name, "N");
    assert_eq!(resp.posts.len(), 1);
    assert_eq!(resp.posts[0].author_id, 9);
    let p = NewPost::new("t".to_string(), "c".to_string(), 9, 3);
    assert_eq!((p.title.as_str(), p.content.as_str(), p.category_id), ("t", "c", 3));
    let cfg = Config::new("postgres://db".to_string(), "s".to_string(), 8080);
    assert_eq!(cfg.port, 8080);
    assert_eq!(cfg.jwt_secret, "s");
}

#[test]
fn status_codes_of_each_kind() {
    assert_eq!(ErrorKind::BadRequest.status_code(), 400);
    assert_eq!(ErrorKind::Unauthorized.status_code(), 401);
    assert_eq!(ErrorKind::Conflict.status_code(), 409);
    assert_eq!(ErrorKind::InternalError.status_code(), 500);
}

#[test]
fn garbage_token_message_echoes_decoder() {
    let err = verify_token("garbage", SECRET, NOW).unwrap_err();
    assert_eq!(err.kind, ErrorKind::Unauthorized);
    assert_eq!(err.message, "InvalidToken");
    let header = "Bearer garbage";
    let gated = authenticate(Some(header), SECRET, NOW).unwrap_err();
    assert_eq!(gated.message, "InvalidToken");
    assert_ne!(gated.message, MSG_USER_GONE);
}

#[test]
fn hash_with_given_salt() {
    let salt = [7u8; 8];
    let a = hash_with_salt("pw", &salt).unwrap();
    let b = hash_with_salt("pw", &salt).unwrap();
    assert_eq!(a, b);
    assert!(a.starts_with("$argon2id$"));
    assert!(verify_password("pw", &a));
    assert!(!verify_password("pX", &a));
    let short = hash_with_salt("pw", &[1u8; 4]).unwrap_err();
    assert_eq!(short.kind, ErrorKind::InternalError);
    assert_eq!(short.message, blog_auth::error::MSG_HASH_FAILED);
}
