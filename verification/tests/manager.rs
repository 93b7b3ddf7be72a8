use debit_delegation::approvals::Approvals;
use debit_delegation::manager::{
    DebitCall, Deployment, Manager, ManagerError, PolicyCall, PolicyChange,
};
use debit_delegation::principal::Principal;
use debit_delegation::salt::delegate_salt;

fn admin() -> Principal {
    Principal::account([1u8; 32])
}

fn store() -> Principal {
    Principal::contract([3u8; 32])
}

fn destination() -> Principal {
    Principal::account([4u8; 32])
}

fn user() -> Principal {
    Principal::account([5u8; 32])
}

fn token() -> Principal {
    Principal::contract([6u8; 32])
}

fn debitor() -> Principal {
    Principal::account([7u8; 32])
}

fn address(n: u8) -> Principal {
    Principal::contract([n; 32])
}

const WASM_HASH: [u8; 32] = [9u8; 32];

fn manager() -> Manager {
    Manager::new(admin(), store(), WASM_HASH)
}

#[test]
fn new_manager_holds_its_links_and_nothing_else() {
    let manager = manager();
    assert_eq!(manager.admin(), admin());
    assert_eq!(manager.merchant_debitor_manager(), store());
    assert_eq!(manager.user_delegate_wasm_hash(), WASM_HASH);
    assert_eq!(manager.merchant_destination(1), None);
    assert_eq!(manager.user_delegate(1, user()), None);
}

#[test]
fn merchant_is_registered_by_the_administrator_only() {
    let mut manager = manager();
    assert_eq!(
        manager.add_merchant(&Approvals::of(user()), 1, destination()),
        Err(ManagerError::Unauthorized)
    );
    assert_eq!(
        manager.add_merchant(&Approvals::none(), 1, destination()),
        Err(ManagerError::Unauthorized)
    );
    assert_eq!(manager.merchant_destination(1), None);
    assert_eq!(manager.add_merchant(&Approvals::of(admin()), 1, destination()), Ok(()));
    assert_eq!(manager.merchant_destination(1), Some(destination()));
    assert_eq!(manager.merchant_destination(2), None);
}

#[test]
fn later_destination_replaces_the_earlier_one() {
    let mut manager = manager();
    let by_admin = Approvals::of(admin());
    assert_eq!(manager.add_merchant(&by_admin, 1, destination()), Ok(()));
    assert_eq!(manager.add_merchant(&by_admin, 2, user()), Ok(()));
    assert_eq!(manager.add_merchant(&by_admin, 1, token()), Ok(()));
    assert_eq!(manager.merchant_destination(1), Some(token()));
    assert_eq!(manager.merchant_destination(2), Some(user()));
}

#[test]
fn unregistered_merchant_gets_no_delegate() {
    let mut manager = manager();
    let refused = manager.add_user_delegate(&Approvals::of(admin()), 1, user(), address(20));
    assert_eq!(refused, Err(ManagerError::MerchantNotConfigured));
    assert!(ManagerError::MerchantNotConfigured.is_not_found());
    assert_eq!(manager.user_delegate(1, user()), None);

    assert_eq!(manager.add_merchant(&Approvals::of(admin()), 2, destination()), Ok(()));
    let refused = manager.add_user_delegate(&Approvals::of(admin()), 1, user(), address(20));
    assert_eq!(refused, Err(ManagerError::MerchantNotConfigured));
    assert_eq!(manager.user_delegate(1, user()), None);
}

#[test]
fn deployment_carries_salt_code_and_constructor_arguments() {
    let mut manager = manager();
    let by_admin = Approvals::of(admin());
    assert_eq!(manager.add_merchant(&by_admin, 1, destination()), Ok(()));
    let deployment = manager.add_user_delegate(&by_admin, 1, user(), address(20));
    assert_eq!(
        deployment,
        Ok(Deployment {
            wasm_hash: WASM_HASH,
            salt: delegate_salt(1, &user()),
            admin: admin(),
            merchant_debitor_manager: store(),
            destination: destination(),
        })
    );
    assert_eq!(manager.user_delegate(1, user()), Some(address(20)));
    assert_eq!(manager.user_delegate(1, debitor()), None);
    assert_eq!(manager.user_delegate(2, user()), None);
}

#[test]
fn deployment_under_a_given_salt_keeps_that_salt() {
    let mut manager = manager();
    let by_admin = Approvals::of(admin());
    assert_eq!(manager.add_merchant(&by_admin, 1, destination()), Ok(()));
    let deployment =
        manager.deploy_user_delegate(&by_admin, 1, user(), [0xabu8; 32], address(20));
    assert_eq!(
        deployment,
        Ok(Deployment {
            wasm_hash: WASM_HASH,
            salt: [0xabu8; 32],
            admin: admin(),
            merchant_debitor_manager: store(),
            destination: destination(),
        })
    );
    assert_eq!(manager.user_delegate(1, user()), Some(address(20)));
}

#[test]
fn second_deployment_for_a_pair_collides() {
    let mut manager = manager();
    let by_admin = Approvals::of(admin());
    assert_eq!(manager.add_merchant(&by_admin, 1, destination()), Ok(()));
    assert!(manager.add_user_delegate(&by_admin, 1, user(), address(20)).is_ok());
    assert_eq!(
        manager.add_user_delegate(&by_admin, 1, user(), address(21)),
        Err(ManagerError::DeploymentCollision)
    );
    assert_eq!(manager.user_delegate(1, user()), Some(address(20)));
    assert_eq!(
        manager.add_user_delegate(&by_admin, 1, user(), address(20)),
        Err(ManagerError::DeploymentCollision)
    );
    assert_eq!(manager.user_delegate(1, user()), Some(address(20)));
    assert!(!ManagerError::DeploymentCollision.is_not_found());
}

#[test]
fn each_pair_has_a_delegate_of_its_own() {
    let mut manager = manager();
    let by_admin = Approvals::of(admin());
    assert_eq!(manager.add_merchant(&by_admin, 1, destination()), Ok(()));
    assert_eq!(manager.add_merchant(&by_admin, 2, token()), Ok(()));
    let first = manager.add_user_delegate(&by_admin, 1, user(), address(20));
    let second = manager.add_user_delegate(&by_admin, 2, user(), address(21));
    let third = manager.add_user_delegate(&by_admin, 1, debitor(), address(22));
    let (first, second, third) = match (first, second, third) {
        (Ok(first), Ok(second), Ok(third)) => (first, second, third),
        other => panic!("refused: {:?}", other),
    };
    assert_eq!(first.destination, destination());
    assert_eq!(second.destination, token());
    assert_eq!(third.destination, destination());
    assert_ne!(first.salt, second.salt);
    assert_ne!(first.salt, third.salt);
    assert_ne!(second.salt, third.salt);
    assert_eq!(manager.user_delegate(1, user()), Some(address(20)));
    assert_eq!(manager.user_delegate(2, user()), Some(address(21)));
    assert_eq!(manager.user_delegate(1, debitor()), Some(address(22)));
}

#[test]
fn deployment_needs_the_administrator() {
    let mut manager = manager();
    assert_eq!(manager.add_merchant(&Approvals::of(admin()), 1, destination()), Ok(()));
    assert_eq!(
        manager.add_user_delegate(&Approvals::of(user()), 1, user(), address(20)),
        Err(ManagerError::Unauthorized)
    );
    assert_eq!(
        manager.add_user_delegate(&Approvals::of(user()), 5, user(), address(20)),
        Err(ManagerError::Unauthorized)
    );
    assert!(!ManagerError::Unauthorized.is_not_found());
    assert_eq!(manager.user_delegate(1, user()), None);
}

#[test]
fn whitelist_changes_are_passed_on_to_the_policy_store() {
    let manager = manager();
    assert_eq!(
        manager.add_merchant_debitor(1, debitor()),
        PolicyCall { store: store(), change: PolicyChange::Add, merchant: 1, debitor: debitor() }
    );
    assert_eq!(
        manager.remove_merchant_debitor(2, user()),
        PolicyCall { store: store(), change: PolicyChange::Remove, merchant: 2, debitor: user() }
    );
}

#[test]
fn debit_of_an_unknown_pair_finds_no_delegate() {
    let mut manager = manager();
    assert_eq!(
        manager.debit_user(1, debitor(), user(), token(), 50),
        Err(ManagerError::DelegateNotFound)
    );
    assert!(ManagerError::DelegateNotFound.is_not_found());
    let by_admin = Approvals::of(admin());
    assert_eq!(manager.add_merchant(&by_admin, 1, destination()), Ok(()));
    assert_eq!(
        manager.debit_user(1, debitor(), user(), token(), 50),
        Err(ManagerError::DelegateNotFound)
    );
    assert!(manager.add_user_delegate(&by_admin, 1, user(), address(20)).is_ok());
    assert_eq!(
        manager.debit_user(2, debitor(), user(), token(), 50),
        Err(ManagerError::DelegateNotFound)
    );
    assert_eq!(
        manager.debit_user(1, debitor(), debitor(), token(), 50),
        Err(ManagerError::DelegateNotFound)
    );
}

#[test]
fn debit_is_routed_to_the_registered_delegate() {
    let mut manager = manager();
    let by_admin = Approvals::of(admin());
    assert_eq!(manager.add_merchant(&by_admin, 1, destination()), Ok(()));
    assert!(manager.add_user_delegate(&by_admin, 1, user(), address(20)).is_ok());
    assert_eq!(
        manager.debit_user(1, debitor(), user(), token(), 50),
        Ok(DebitCall {
            delegate: address(20),
            merchant: 1,
            debitor: debitor(),
            user: user(),
            token: token(),
            amount: 50,
        })
    );
}

#[test]
fn restored_records_count_like_registered_ones() {
    let mut manager =
        manager().with_merchant(1, destination()).with_user_delegate(1, user(), address(20));
    assert_eq!(manager.merchant_destination(1), Some(destination()));
    assert_eq!(manager.user_delegate(1, user()), Some(address(20)));
    assert_eq!(
        manager.add_user_delegate(&Approvals::of(admin()), 1, user(), address(21)),
        Err(ManagerError::DeploymentCollision)
    );
    assert_eq!(
        manager.debit_user(1, debitor(), user(), token(), 1).map(|call| call.delegate),
        Ok(address(20))
    );
}

#[test]
fn deployment_check_names_the_first_obstacle() {
    let mut manager = manager();
    let by_admin = Approvals::of(admin());
    let by_user = Approvals::of(user());
    assert_eq!(manager.check_deployment(&by_user, 1, user()), Some(ManagerError::Unauthorized));
    assert_eq!(
        manager.check_deployment(&by_admin, 1, user()),
        Some(ManagerError::MerchantNotConfigured)
    );
    assert_eq!(manager.add_merchant(&by_admin, 1, destination()), Ok(()));
    assert_eq!(manager.check_deployment(&by_admin, 1, user()), None);
    assert_eq!(manager.user_delegate(1, user()), None);
    assert!(manager.add_user_delegate(&by_admin, 1, user(), address(20)).is_ok());
    assert_eq!(
        manager.check_deployment(&by_admin, 1, user()),
        Some(ManagerError::DeploymentCollision)
    );
    assert_eq!(manager.check_deployment(&by_user, 1, user()), Some(ManagerError::Unauthorized));
    assert_eq!(manager.check_deployment(&by_admin, 1, debitor()), None);
}
