use debit_delegation::approvals::Approvals;
use debit_delegation::principal::{Principal, PrincipalKind};

#[test]
fn principals_are_the_same_when_kind_and_key_agree() {
    let a = Principal::account([1u8; 32]);
    let b = Principal::account([1u8; 32]);
    assert!(a.same(&b));
    assert_eq!(a, b);
    assert_eq!(a.kind, PrincipalKind::Account);
    assert_eq!(a.key, [1u8; 32]);
}

#[test]
fn principals_differ_by_kind() {
    let a = Principal::account([1u8; 32]);
    let c = Principal::contract([1u8; 32]);
    assert!(!a.same(&c));
    assert!(!c.same(&a));
    assert!(c.is_contract());
    assert!(!a.is_contract());
}

#[test]
fn principals_differ_by_any_key_byte() {
    let a = Principal::contract([0u8; 32]);
    for i in 0..32 {
        let mut key = [0u8; 32];
        key[i] = 1;
        assert!(!a.same(&Principal::contract(key)), "byte {}", i);
    }
}

#[test]
fn nobody_approves_an_empty_call() {
    let approvals = Approvals::none();
    assert!(!approvals.approves(&Principal::account([1u8; 32])));
}

#[test]
fn approvals_hold_exactly_the_signers() {
    let a = Principal::account([1u8; 32]);
    let b = Principal::account([2u8; 32]);
    let c = Principal::contract([1u8; 32]);
    let approvals = Approvals::of(a);
    assert!(approvals.approves(&a));
    assert!(!approvals.approves(&b));
    assert!(!approvals.approves(&c));
    let approvals = approvals.and(b);
    assert!(approvals.approves(&a));
    assert!(approvals.approves(&b));
    assert!(!approvals.approves(&c));
}
