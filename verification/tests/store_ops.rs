use troves::error::ContractError;
use troves::trove_manager::{Status, Trove};
use troves::troves::Troves;

fn trove_of(owner: &str, juno: u128, debt: u128) -> Trove {
    Trove {
        juno,
        ultra_debt: debt,
        stake: 0,
        status: Status::Active,
        owner: owner.to_string(),
    }
}

#[test]
fn empty_store_has_nothing() {
    let store = Troves::new("troves", "troves_by_addr");
    assert!(store.get(&"alice".to_string()).is_none());
}

#[test]
fn set_then_get_returns_copy() {
    let mut store = Troves::new("troves", "troves_by_addr");
    store.set(&"alice".to_string(), trove_of("alice", 100, 40));
    let t = store.get(&"alice".to_string()).unwrap();
    assert_eq!(t.juno, 100);
    assert_eq!(t.ultra_debt, 40);
    assert_eq!(t.owner, "alice".to_string());
    assert!(matches!(t.status, Status::Active));
}

#[test]
fn set_overwrites_previous_value() {
    let mut store = Troves::new("troves", "troves_by_addr");
    store.set(&"alice".to_string(), trove_of("alice", 100, 40));
    store.set(&"alice".to_string(), trove_of("alice", 7, 3));
    let t = store.get(&"alice".to_string()).unwrap();
    assert_eq!(t.juno, 7);
    assert_eq!(t.ultra_debt, 3);
}

#[test]
fn delete_removes_only_that_key() {
    let mut store = Troves::new("troves", "troves_by_addr");
    store.set(&"alice".to_string(), trove_of("alice", 1, 1));
    store.set(&"bob".to_string(), trove_of("bob", 2, 2));
    store.delete(&"alice".to_string());
    assert!(store.get(&"alice".to_string()).is_none());
    assert_eq!(store.get(&"bob".to_string()).unwrap().juno, 2);
    // deleting an absent key changes nothing
    store.delete(&"carol".to_string());
    assert_eq!(store.get(&"bob".to_string()).unwrap().juno, 2);
}

#[test]
fn update_persists_on_success() {
    let mut store = Troves::new("troves", "troves_by_addr");
    store.set(&"alice".to_string(), trove_of("alice", 10, 5));
    let out = store.update(&"alice".to_string(), |cur: Option<Trove>| {
        let mut t = cur.unwrap();
        t.juno += 90;
        Ok::<Trove, ContractError>(t)
    });
    assert_eq!(out.unwrap().juno, 100);
    assert_eq!(store.get(&"alice".to_string()).unwrap().juno, 100);
}

#[test]
fn update_failure_writes_nothing() {
    let mut store = Troves::new("troves", "troves_by_addr");
    store.set(&"alice".to_string(), trove_of("alice", 10, 5));
    let out = store.update(&"alice".to_string(), |_cur: Option<Trove>| {
        Err::<Trove, ContractError>(ContractError::Underflow)
    });
    assert!(matches!(out, Err(ContractError::Underflow)));
    assert_eq!(store.get(&"alice".to_string()).unwrap().juno, 10);
}

#[test]
fn owner_index_lists_keys_by_owner() {
    let mut store = Troves::new("troves", "troves_by_addr");
    // the primary key need not equal the trove's owner value
    store.set(&"key1".to_string(), trove_of("alice", 1, 0));
    store.set(&"key2".to_string(), trove_of("alice", 2, 0));
    store.set(&"key3".to_string(), trove_of("bob", 3, 0));
    let mut alices = store.troves_by_owner(&"alice".to_string());
    alices.sort();
    assert_eq!(alices, vec!["key1".to_string(), "key2".to_string()]);
    let bobs = store.troves_by_owner(&"bob".to_string());
    assert_eq!(bobs, vec!["key3".to_string()]);
    assert!(store.troves_by_owner(&"carol".to_string()).is_empty());
}
