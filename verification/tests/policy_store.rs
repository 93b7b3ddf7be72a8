use debit_delegation::approvals::Approvals;
use debit_delegation::policy_store::{MerchantDebitorManager, PolicyError};
use debit_delegation::principal::Principal;

fn admin() -> Principal {
    Principal::account([1u8; 32])
}

fn debitor(n: u8) -> Principal {
    Principal::account([n; 32])
}

#[test]
fn new_store_allows_nobody() {
    let store = MerchantDebitorManager::new(admin());
    assert_eq!(store.admin(), admin());
    assert!(!store.is_allowed(1, debitor(10)));
    assert!(!store.is_allowed(0, admin()));
}

#[test]
fn added_debitor_is_allowed_for_its_merchant_only() {
    let mut store = MerchantDebitorManager::new(admin());
    assert_eq!(store.add_merchant_debitor(&Approvals::of(admin()), 1, debitor(10)), Ok(()));
    assert!(store.is_allowed(1, debitor(10)));
    assert!(!store.is_allowed(2, debitor(10)));
    assert!(!store.is_allowed(1, debitor(11)));
    assert!(!store.is_allowed(1, Principal::contract([10u8; 32])));
}

#[test]
fn adding_a_debitor_twice_is_a_no_op() {
    let mut store = MerchantDebitorManager::new(admin());
    let by_admin = Approvals::of(admin());
    assert_eq!(store.add_merchant_debitor(&by_admin, 1, debitor(10)), Ok(()));
    assert_eq!(store.add_merchant_debitor(&by_admin, 1, debitor(10)), Ok(()));
    assert!(store.is_allowed(1, debitor(10)));
    assert_eq!(store.remove_merchant_debitor(&by_admin, 1, debitor(10)), Ok(()));
    assert!(!store.is_allowed(1, debitor(10)));
}

#[test]
fn removing_an_absent_debitor_is_no_error() {
    let mut store = MerchantDebitorManager::new(admin());
    let by_admin = Approvals::of(admin());
    assert_eq!(store.remove_merchant_debitor(&by_admin, 1, debitor(10)), Ok(()));
    assert_eq!(store.add_merchant_debitor(&by_admin, 1, debitor(11)), Ok(()));
    assert_eq!(store.remove_merchant_debitor(&by_admin, 1, debitor(10)), Ok(()));
    assert!(store.is_allowed(1, debitor(11)));
    assert!(!store.is_allowed(1, debitor(10)));
}

#[test]
fn removing_one_debitor_keeps_the_others() {
    let mut store = MerchantDebitorManager::new(admin());
    let by_admin = Approvals::of(admin());
    for n in 10..15 {
        assert_eq!(store.add_merchant_debitor(&by_admin, 1, debitor(n)), Ok(()));
        assert_eq!(store.add_merchant_debitor(&by_admin, 2, debitor(n)), Ok(()));
    }
    assert_eq!(store.remove_merchant_debitor(&by_admin, 1, debitor(10)), Ok(()));
    assert_eq!(store.remove_merchant_debitor(&by_admin, 2, debitor(14)), Ok(()));
    for n in 10..15 {
        assert_eq!(store.is_allowed(1, debitor(n)), n != 10, "merchant 1, debitor {}", n);
        assert_eq!(store.is_allowed(2, debitor(n)), n != 14, "merchant 2, debitor {}", n);
    }
}

#[test]
fn whitelist_changes_need_the_administrator() {
    let mut store = MerchantDebitorManager::new(admin());
    let by_admin = Approvals::of(admin());
    let by_other = Approvals::of(debitor(10));
    assert_eq!(
        store.add_merchant_debitor(&by_other, 1, debitor(10)),
        Err(PolicyError::Unauthorized)
    );
    assert_eq!(
        store.add_merchant_debitor(&Approvals::none(), 1, debitor(10)),
        Err(PolicyError::Unauthorized)
    );
    assert!(!store.is_allowed(1, debitor(10)));
    assert_eq!(store.add_merchant_debitor(&by_admin, 1, debitor(10)), Ok(()));
    assert_eq!(
        store.remove_merchant_debitor(&by_other, 1, debitor(10)),
        Err(PolicyError::Unauthorized)
    );
    assert!(store.is_allowed(1, debitor(10)));
}

#[test]
fn administrator_among_several_signers_is_enough() {
    let mut store = MerchantDebitorManager::new(admin());
    let approvals = Approvals::of(debitor(10)).and(admin());
    assert_eq!(store.add_merchant_debitor(&approvals, 7, debitor(10)), Ok(()));
    assert!(store.is_allowed(7, debitor(10)));
}

#[test]
fn restored_record_is_on_the_whitelist() {
    let store = MerchantDebitorManager::new(admin()).with_merchant_debitor(3, debitor(10));
    assert!(store.is_allowed(3, debitor(10)));
    assert!(!store.is_allowed(3, debitor(11)));
    assert_eq!(store.admin(), admin());
}
