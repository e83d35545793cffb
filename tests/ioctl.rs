use sec_module::codec::{bound_response, IoctlArgument, IoctlReadArgument, ARGUMENT_SIZE, READ_ARGUMENT_SIZE};
use sec_module::ioctl::{rust_ioctl, IOCTL_ADD_RULE, IOCTL_READ_RULES, IOCTL_REMOVE_RULE};
use sec_module::registry::UserRuleStore;
use sec_module::rule::{RuleError, RULE_BUFFER_SIZE, RULE_SIZE};

fn request(uid: u32, rule: &[u8]) -> Vec<u8> {
    let mut buf = vec![0u8; ARGUMENT_SIZE];
    buf[..4].copy_from_slice(&uid.to_le_bytes());
    buf[4..4 + rule.len()].copy_from_slice(rule);
    buf
}

fn query(uid: u32) -> Vec<u8> {
    let mut buf = vec![0u8; READ_ARGUMENT_SIZE];
    buf[..4].copy_from_slice(&uid.to_le_bytes());
    buf
}

fn rules_of(store: &UserRuleStore, uid: u32) -> Option<Vec<Vec<u8>>> {
    store
        .get_rules_by_id(uid)
        .map(|rules| rules.iter().map(|r| r.as_bytes().clone()).collect())
}

#[test]
fn request_codes() {
    assert_eq!(IOCTL_ADD_RULE, (1 << 30) | (260 << 16) | ((b's' as u32) << 8) | 1);
    assert_eq!(IOCTL_REMOVE_RULE, (1 << 30) | (260 << 16) | ((b's' as u32) << 8) | 2);
    assert_eq!(IOCTL_READ_RULES, (2 << 30) | (4100 << 16) | ((b's' as u32) << 8) | 3);
}

#[test]
fn missing_argument_is_invalid() {
    let mut store = UserRuleStore::new();
    assert_eq!(rust_ioctl(&mut store, IOCTL_ADD_RULE, None), Err(RuleError::InvalidArgument));
    assert_eq!(rust_ioctl(&mut store, 12345, None), Err(RuleError::InvalidArgument));
}

#[test]
fn unknown_command_is_unsupported() {
    let mut store = UserRuleStore::new();
    let buf = request(1, b"x");
    assert_eq!(rust_ioctl(&mut store, 12345, Some(&buf)), Err(RuleError::UnsupportedOperation));
    assert!(store.get_all_rules().is_empty());
}

#[test]
fn short_record_is_invalid() {
    let mut store = UserRuleStore::new();
    let buf = request(1, b"x");
    assert_eq!(
        rust_ioctl(&mut store, IOCTL_ADD_RULE, Some(&buf[..ARGUMENT_SIZE - 1])),
        Err(RuleError::InvalidArgument)
    );
    assert_eq!(
        rust_ioctl(&mut store, IOCTL_READ_RULES, Some(&buf)),
        Err(RuleError::InvalidArgument)
    );
    assert!(store.get_all_rules().is_empty());
}

#[test]
fn add_and_remove_through_requests() {
    let mut store = UserRuleStore::new();
    assert_eq!(rust_ioctl(&mut store, IOCTL_ADD_RULE, Some(&request(1001, b"Hello Rust"))), Ok(vec![]));
    assert_eq!(rules_of(&store, 1001), Some(vec![b"Hello Rust".to_vec()]));
    assert_eq!(rust_ioctl(&mut store, IOCTL_REMOVE_RULE, Some(&request(1001, b"Hello Rust"))), Ok(vec![]));
    assert_eq!(rules_of(&store, 1001), None);
}

#[test]
fn rule_field_stops_at_first_nul() {
    let mut buf = request(2, b"ab");
    buf[7] = b'z';
    let arg = IoctlArgument::decode(&buf).unwrap();
    assert_eq!(arg.uid, 2);
    assert_eq!(arg.rule_bytes(), b"ab".to_vec());
}

#[test]
fn rule_field_without_nul_is_full_width() {
    let full = vec![b'w'; RULE_SIZE];
    let buf = request(3, &full);
    let arg = IoctlArgument::decode(&buf).unwrap();
    assert_eq!(arg.rule_bytes(), full);
    let mut store = UserRuleStore::new();
    rust_ioctl(&mut store, IOCTL_ADD_RULE, Some(&buf)).unwrap();
    assert_eq!(rules_of(&store, 3), Some(vec![vec![b'w'; RULE_SIZE]]));
}

#[test]
fn principal_is_little_endian() {
    let mut buf = vec![0u8; ARGUMENT_SIZE];
    buf[..4].copy_from_slice(&[0x78, 0x56, 0x34, 0x12]);
    assert_eq!(IoctlArgument::decode(&buf).unwrap().uid, 0x1234_5678);
    let mut q = vec![0u8; READ_ARGUMENT_SIZE];
    q[..4].copy_from_slice(&[0xff, 0xff, 0xff, 0xff]);
    assert_eq!(IoctlReadArgument::decode(&q).unwrap().uid, u32::MAX);
}

#[test]
fn query_renders_one_principal() {
    let mut store = UserRuleStore::new();
    store.add_rule(1001, b"a".to_vec()).unwrap();
    store.add_rule(2002, b"b".to_vec()).unwrap();
    store.add_rule(2002, b"c".to_vec()).unwrap();
    let out = rust_ioctl(&mut store, IOCTL_READ_RULES, Some(&query(2002))).unwrap();
    assert_eq!(
        String::from_utf8(out).unwrap(),
        "---- UID: 2002 ----\nRule 1: b\nRule 2: c\n ---- ---- ----\n"
    );
}

#[test]
fn query_of_absent_principal_is_empty() {
    let mut store = UserRuleStore::init_rules();
    let out = rust_ioctl(&mut store, IOCTL_READ_RULES, Some(&query(4))).unwrap();
    assert!(out.is_empty());
}

#[test]
fn query_response_is_truncated() {
    let mut store = UserRuleStore::new();
    for i in 0..20u8 {
        let rule = vec![b'a' + i; RULE_SIZE];
        rust_ioctl(&mut store, IOCTL_ADD_RULE, Some(&request(9, &rule))).unwrap();
    }
    let out = rust_ioctl(&mut store, IOCTL_READ_RULES, Some(&query(9))).unwrap();
    assert_eq!(out.len(), RULE_BUFFER_SIZE);
    assert_eq!(&out[..20], b"---- UID: 9 ----\nRul");
    let mut full = Vec::new();
    let all = store.get_all_rules();
    sec_module::dump::pretty_print_rules(&all[0], &mut full);
    assert!(full.len() > RULE_BUFFER_SIZE);
    assert_eq!(out, full[..RULE_BUFFER_SIZE].to_vec());
}

#[test]
fn bound_response_keeps_short_output() {
    assert_eq!(bound_response(&b"abc".to_vec()), b"abc".to_vec());
    assert_eq!(bound_response(&vec![1u8; RULE_BUFFER_SIZE + 5]).len(), RULE_BUFFER_SIZE);
}

#[test]
fn errno_values() {
    assert_eq!(RuleError::InvalidArgument.to_errno(), -22);
    assert_eq!(RuleError::RuleTooLarge.to_errno(), -22);
    assert_eq!(RuleError::UnsupportedOperation.to_errno(), -22);
    assert_eq!(RuleError::NotFound.to_errno(), -2);
    assert_eq!(RuleError::ResourceExhausted.to_errno(), -12);
    assert_eq!(RuleError::Fault.to_errno(), -14);
}
