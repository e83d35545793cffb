use sec_module::registry::{UserRule, UserRuleStore, DEFAULT_UID};
use sec_module::rule::{Rule, RuleError, RULE_SIZE};

fn rules_of(store: &UserRuleStore, uid: u32) -> Option<Vec<Vec<u8>>> {
    store
        .get_rules_by_id(uid)
        .map(|rules| rules.iter().map(|r| r.as_bytes().clone()).collect())
}

fn snapshot(store: &UserRuleStore) -> Vec<(u32, Vec<Vec<u8>>)> {
    store
        .get_all_rules()
        .iter()
        .map(|u: &UserRule| (u.uid(), u.rules().iter().map(|r| r.as_bytes().clone()).collect()))
        .collect()
}

#[test]
fn hello_rust_scenario() {
    let mut store = UserRuleStore::new();
    assert_eq!(store.add_rule(1001, b"Hello Rust".to_vec()), Ok(()));
    assert_eq!(rules_of(&store, 1001), Some(vec![b"Hello Rust".to_vec()]));
    assert_eq!(store.add_rule(1001, b"second".to_vec()), Ok(()));
    assert_eq!(store.remove_rule(1001, b"Hello Rust".to_vec()), Ok(()));
    assert_eq!(rules_of(&store, 1001), Some(vec![b"second".to_vec()]));
    assert_eq!(store.remove_rule(1001, b"second".to_vec()), Ok(()));
    assert!(snapshot(&store).iter().all(|(uid, _)| *uid != 1001));
    assert_eq!(rules_of(&store, 1001), None);
}

#[test]
fn removing_absent_rule_is_noop() {
    let mut store = UserRuleStore::new();
    store.add_rule(7, b"keep".to_vec()).unwrap();
    let before = snapshot(&store);
    assert_eq!(store.remove_rule(7, b"other".to_vec()), Ok(()));
    assert_eq!(store.remove_rule(8, b"keep".to_vec()), Ok(()));
    assert_eq!(snapshot(&store), before);
}

#[test]
fn add_then_remove_restores_registry() {
    let mut store = UserRuleStore::new();
    store.add_rule(1, b"x".to_vec()).unwrap();
    store.add_rule(2, b"y".to_vec()).unwrap();
    let before = snapshot(&store);
    store.add_rule(1, b"z".to_vec()).unwrap();
    store.remove_rule(1, b"z".to_vec()).unwrap();
    assert_eq!(snapshot(&store), before);
    store.add_rule(3, b"new".to_vec()).unwrap();
    store.remove_rule(3, b"new".to_vec()).unwrap();
    assert_eq!(snapshot(&store), before);
}

#[test]
fn last_removal_prunes_principal() {
    let mut store = UserRuleStore::new();
    store.add_rule(5, b"same".to_vec()).unwrap();
    store.add_rule(5, b"same".to_vec()).unwrap();
    store.remove_rule(5, b"same".to_vec()).unwrap();
    assert_eq!(rules_of(&store, 5), None);
    assert!(snapshot(&store).is_empty());
}

#[test]
fn query_all_returns_independent_copies() {
    let mut store = UserRuleStore::new();
    store.add_rule(1, b"a".to_vec()).unwrap();
    store.add_rule(2, b"b".to_vec()).unwrap();
    let before = snapshot(&store);
    let mut copy = store.get_all_rules();
    copy.pop();
    copy.push(UserRule::from_rules(9, vec![Rule::new(b"c".to_vec()).unwrap()]));
    let mut one = store.get_rules_by_id(1).unwrap();
    one.clear();
    assert_eq!(snapshot(&store), before);
}

#[test]
fn duplicates_are_kept_in_order() {
    let mut store = UserRuleStore::new();
    store.add_rule(4, b"r".to_vec()).unwrap();
    store.add_rule(4, b"s".to_vec()).unwrap();
    store.add_rule(4, b"r".to_vec()).unwrap();
    assert_eq!(
        rules_of(&store, 4),
        Some(vec![b"r".to_vec(), b"s".to_vec(), b"r".to_vec()])
    );
    store.remove_rule(4, b"r".to_vec()).unwrap();
    assert_eq!(rules_of(&store, 4), Some(vec![b"s".to_vec()]));
}

#[test]
fn registry_order_is_insertion_order() {
    let mut store = UserRuleStore::new();
    store.add_rule(30, b"c".to_vec()).unwrap();
    store.add_rule(10, b"a".to_vec()).unwrap();
    store.add_rule(30, b"d".to_vec()).unwrap();
    assert_eq!(
        snapshot(&store),
        vec![
            (30, vec![b"c".to_vec(), b"d".to_vec()]),
            (10, vec![b"a".to_vec()])
        ]
    );
}

#[test]
fn oversized_rule_is_refused() {
    let mut store = UserRuleStore::new();
    assert_eq!(store.add_rule(1, vec![b'x'; RULE_SIZE + 1]), Err(RuleError::RuleTooLarge));
    assert!(snapshot(&store).is_empty());
    assert_eq!(store.add_rule(1, vec![b'x'; RULE_SIZE]), Ok(()));
    assert_eq!(rules_of(&store, 1), Some(vec![vec![b'x'; RULE_SIZE]]));
}

#[test]
fn rule_new_checks_size() {
    assert!(matches!(Rule::new(vec![0u8; RULE_SIZE + 1]), Err(RuleError::RuleTooLarge)));
    let rule = Rule::new(b"abc".to_vec()).unwrap();
    assert_eq!(rule.as_bytes(), &b"abc".to_vec());
    assert_eq!(rule.clone().as_bytes(), &b"abc".to_vec());
    assert!(rule.matches(&b"abc".to_vec()));
    assert!(!rule.matches(&b"abd".to_vec()));
}

#[test]
fn seeded_registry_holds_default_rule() {
    let store = UserRuleStore::init_rules();
    assert_eq!(DEFAULT_UID, 1001);
    assert_eq!(snapshot(&store), vec![(1001, vec![b"Hello Rust :)".to_vec()])]);
}

#[test]
fn user_rule_clone_is_deep() {
    let entry = UserRule::from_rules(3, vec![Rule::new(b"q".to_vec()).unwrap()]);
    let copy = entry.clone();
    drop(entry);
    assert_eq!(copy.uid(), 3);
    assert_eq!(copy.rules()[0].as_bytes(), &b"q".to_vec());
}
