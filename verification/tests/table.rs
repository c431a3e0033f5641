use api_tokens::db::DbConn;
use api_tokens::models::{NewToken, Token};
use api_tokens::secret::hash_token;

fn row(user_id: u128, name: &str, secret: &str, expires_at: Option<u64>) -> NewToken {
    NewToken { user_id, friendly_name: name.to_string(), token: hash_token(secret), expires_at }
}

#[test]
fn new_table_is_empty() {
    let conn = DbConn::new();
    assert_eq!(conn.time(), 0);
    assert_eq!(conn.find_tokens_by_user(1), Vec::<Token>::new());
    assert!(!conn.holds_digest(&hash_token("a")));
    assert_eq!(conn.find_token_by_digest(&hash_token("a")), None);
}

#[test]
fn insert_adds_identifier_and_time() {
    let mut conn = DbConn::new();
    conn.set_time(1_700_000_000);
    let first = conn.insert_token(row(7, "laptop", "a", None)).unwrap();
    assert_eq!(
        first,
        Token {
            id: 0,
            user_id: 7,
            friendly_name: "laptop".to_string(),
            token: hash_token("a"),
            expires_at: None,
            created_at: 1_700_000_000,
        }
    );
    conn.set_time(1_700_000_060);
    let second = conn.insert_token(row(8, "ci", "b", Some(1_800_000_000))).unwrap();
    assert_eq!(
        second,
        Token {
            id: 1,
            user_id: 8,
            friendly_name: "ci".to_string(),
            token: hash_token("b"),
            expires_at: Some(1_800_000_000),
            created_at: 1_700_000_060,
        }
    );
}

#[test]
fn insert_refuses_a_digest_twice() {
    let mut conn = DbConn::new();
    assert!(conn.insert_token(row(7, "laptop", "a", None)).is_some());
    assert_eq!(conn.insert_token(row(8, "other", "a", None)), None);
    assert_eq!(conn.find_tokens_by_user(8), Vec::<Token>::new());
    assert_eq!(conn.find_tokens_by_user(7).len(), 1);
    let next = conn.insert_token(row(8, "other", "b", None)).unwrap();
    assert_eq!(next.id, 1);
}

#[test]
fn rows_are_found_by_digest() {
    let mut conn = DbConn::new();
    let first = conn.insert_token(row(7, "laptop", "a", None)).unwrap();
    let second = conn.insert_token(row(8, "ci", "b", None)).unwrap();
    assert!(conn.holds_digest(&hash_token("a")));
    assert!(conn.holds_digest(&hash_token("b")));
    assert!(!conn.holds_digest(&hash_token("c")));
    assert_eq!(conn.find_token_by_digest(&hash_token("a")), Some(first));
    assert_eq!(conn.find_token_by_digest(&hash_token("b")), Some(second));
    assert_eq!(conn.find_token_by_digest(&hash_token("c")), None);
    assert_eq!(conn.find_token_by_digest(&hash_token("a")[..31]), None);
}

#[test]
fn rows_are_found_by_user_in_order() {
    let mut conn = DbConn::new();
    let a = conn.insert_token(row(7, "one", "a", None)).unwrap();
    let _b = conn.insert_token(row(8, "two", "b", None)).unwrap();
    let c = conn.insert_token(row(7, "three", "c", Some(5))).unwrap();
    assert_eq!(conn.find_tokens_by_user(7), vec![a, c]);
    assert_eq!(conn.find_tokens_by_user(9), Vec::<Token>::new());
}

#[test]
fn delete_needs_identifier_and_owner() {
    let mut conn = DbConn::new();
    let a = conn.insert_token(row(7, "one", "a", None)).unwrap();
    let b = conn.insert_token(row(8, "two", "b", None)).unwrap();
    assert_eq!(conn.delete_token_row(8, a.id), 0);
    assert_eq!(conn.delete_token_row(7, b.id), 0);
    assert_eq!(conn.delete_token_row(7, 99), 0);
    assert_eq!(conn.find_tokens_by_user(7), vec![a.clone()]);
    assert_eq!(conn.find_tokens_by_user(8), vec![b.clone()]);
    assert_eq!(conn.delete_token_row(7, a.id), 1);
    assert_eq!(conn.delete_token_row(7, a.id), 0);
    assert_eq!(conn.find_tokens_by_user(7), Vec::<Token>::new());
    assert_eq!(conn.find_tokens_by_user(8), vec![b]);
    assert_eq!(conn.find_token_by_digest(&hash_token("a")), None);
}

#[test]
fn identifiers_are_not_used_again() {
    let mut conn = DbConn::new();
    let a = conn.insert_token(row(7, "one", "a", None)).unwrap();
    assert_eq!(conn.delete_token_row(7, a.id), 1);
    let again = conn.insert_token(row(7, "one", "a", None)).unwrap();
    assert_eq!(again.id, 1);
}

#[test]
fn clock_is_set() {
    let mut conn = DbConn::new();
    conn.set_time(42);
    assert_eq!(conn.time(), 42);
    conn.set_time(7);
    assert_eq!(conn.time(), 7);
}

#[test]
fn summary_leaves_out_the_digest_only() {
    let mut conn = DbConn::new();
    conn.set_time(10);
    let a = conn.insert_token(row(7, "one", "a", Some(20))).unwrap();
    let shown = a.summary();
    assert_eq!(shown.id, a.id);
    assert_eq!(shown.user_id, 7);
    assert_eq!(shown.friendly_name, "one");
    assert_eq!(shown.expires_at, Some(20));
    assert_eq!(shown.created_at, 10);
}

#[test]
fn expiry_is_strictly_before_now() {
    let mut conn = DbConn::new();
    let a = conn.insert_token(row(7, "one", "a", Some(20))).unwrap();
    assert!(!a.expired_at(0));
    assert!(!a.expired_at(19));
    assert!(!a.expired_at(20));
    assert!(a.expired_at(21));
    assert!(a.expired_at(u64::MAX));
    let b = conn.insert_token(row(7, "two", "b", None)).unwrap();
    assert!(!b.expired_at(0));
    assert!(!b.expired_at(u64::MAX));
}
