use user_store::store::{Deleted, Store, StoreError};
use user_store::user::User;

fn user(id: Option<&str>, name: &str, email: &str) -> User {
    User::new(id.map(|s| s.to_string()), name.to_string(), email.to_string())
}

#[test]
fn insert_find_delete_find_round_trip() {
    let mut store = Store::new();
    let u = user(Some("u1"), "Ann", "ann@x.com");
    let created = store.insert(u.duplicate()).ok().unwrap();
    assert!(created == u);
    let found = store.find(&"u1".to_string()).unwrap();
    assert!(found == u);
    assert!(matches!(store.delete(&"u1".to_string()), Ok(Deleted::One(ref d)) if d == "u1"));
    assert!(store.find(&"u1".to_string()).is_none());
}

#[test]
fn insert_with_uses_generated_only_without_id() {
    let mut store = Store::new();
    let a = store.insert_with(user(None, "A", "a@x.com"), "gen".to_string()).ok().unwrap();
    assert_eq!(a.id.as_deref(), Some("gen"));
    let b = store.insert_with(user(Some("own"), "B", "b@x.com"), "gen2".to_string()).ok().unwrap();
    assert_eq!(b.id.as_deref(), Some("own"));
    let c = store.insert_with(user(None, "C", "c@x.com"), "gen".to_string());
    assert!(matches!(c, Err(StoreError::Conflict(ref k)) if k == "gen"));
    assert_eq!(store.len(), 2);
}

#[test]
fn replace_missing_leaves_count() {
    let mut store = Store::new();
    store.insert(user(Some("a"), "A", "a@x.com")).ok().unwrap();
    let r = store.replace(&"nope".to_string(), user(None, "X", "x@x.com"));
    assert!(matches!(r, Err(StoreError::NotFound(ref k)) if k == "nope"));
    assert_eq!(store.len(), 1);
    assert!(store.find(&"a".to_string()).unwrap() == user(Some("a"), "A", "a@x.com"));
}

#[test]
fn wildcard_delete_on_empty_and_full_store() {
    let mut store = Store::new();
    assert!(matches!(store.delete(&"*".to_string()), Err(StoreError::NothingToDelete)));
    store.insert(user(None, "A", "a@x.com")).ok().unwrap();
    store.insert(user(None, "B", "b@x.com")).ok().unwrap();
    assert!(matches!(store.delete(&"*".to_string()), Ok(Deleted::All)));
    assert_eq!(store.len(), 0);
    assert!(store.list().is_empty());
}

#[test]
fn error_messages() {
    assert_eq!(StoreError::NotFound("x".to_string()).message(), "ID not found: x");
    assert_eq!(StoreError::Conflict("y".to_string()).message(), "ID already exists: y");
    assert_eq!(StoreError::NothingToDelete.message(), "No users to delete");
    assert_eq!(StoreError::Conflict("y".to_string()).to_reply().status, 409);
    assert_eq!(StoreError::NothingToDelete.to_reply().status, 404);
}

#[test]
fn position_finds_index() {
    let mut store = Store::new();
    store.insert(user(Some("a"), "A", "a@x.com")).ok().unwrap();
    store.insert(user(Some("b"), "B", "b@x.com")).ok().unwrap();
    assert_eq!(store.position(&"b".to_string()), Some(1));
    assert_eq!(store.position(&"c".to_string()), None);
    assert!(user(Some("a"), "A", "a@x.com").has_id(&"a".to_string()));
    assert!(!user(None, "A", "a@x.com").has_id(&"a".to_string()));
}
