use debit_delegation::approvals::Approvals;
use debit_delegation::manager::{Manager, ManagerError};
use debit_delegation::policy_store::{MerchantDebitorManager, PolicyError};
use debit_delegation::principal::Principal;
use debit_delegation::salt::delegate_salt;
use debit_delegation::system::{System, SystemError};
use debit_delegation::user_delegate::{Transfer, UserDelegateError};

fn admin() -> Principal {
    Principal::account([1u8; 32])
}

fn destination() -> Principal {
    Principal::account([2u8; 32])
}

fn user() -> Principal {
    Principal::account([3u8; 32])
}

fn asset() -> Principal {
    Principal::contract([4u8; 32])
}

fn debitor() -> Principal {
    Principal::account([5u8; 32])
}

fn store_address() -> Principal {
    Principal::contract([6u8; 32])
}

fn manager_address() -> Principal {
    Principal::contract([7u8; 32])
}

fn system() -> System {
    System::new(admin(), store_address(), manager_address(), [9u8; 32])
}

/// A system in which merchant 1 is registered, the delegate of the user is
/// deployed with a limit of 100 of the asset, and the debitor is whitelisted.
fn onboarded() -> System {
    let mut system = system();
    let by_admin = Approvals::of(admin());
    assert_eq!(system.add_merchant(&by_admin, 1, destination()), Ok(()));
    let delegate = match system.add_user_delegate(&by_admin, 1, user()) {
        Ok(delegate) => delegate,
        Err(error) => panic!("refused: {:?}", error),
    };
    assert_eq!(system.add_transfer_limit(&by_admin, delegate, user(), asset(), 100), Ok(()));
    assert_eq!(system.add_merchant_debitor(&by_admin, 1, debitor()), Ok(()));
    system
}

#[test]
fn merchant_one_scenario() {
    let mut system = onboarded();
    let by_debitor = Approvals::of(debitor());
    let mut user_balance: i128 = 1000;
    let mut destination_balance: i128 = 0;

    let transfer = system.debit_user(&by_debitor, 1, debitor(), user(), asset(), 50);
    assert_eq!(
        transfer,
        Ok(Transfer { token: asset(), from: user(), to: destination(), amount: 50 })
    );
    if let Ok(transfer) = transfer {
        user_balance -= transfer.amount;
        destination_balance += transfer.amount;
    }
    assert_eq!((user_balance, destination_balance), (950, 50));

    let transfer = system.debit_user(&by_debitor, 1, debitor(), user(), asset(), 150);
    assert_eq!(
        transfer,
        Err(SystemError::Delegate(UserDelegateError::TransferLimitExceeded))
    );
    assert_eq!((user_balance, destination_balance), (950, 50));

    assert_eq!(system.remove_merchant_debitor(&Approvals::of(admin()), 1, debitor()), Ok(()));
    let transfer = system.debit_user(&by_debitor, 1, debitor(), user(), asset(), 50);
    assert_eq!(transfer, Err(SystemError::Delegate(UserDelegateError::Unauthorized)));
    assert_eq!((user_balance, destination_balance), (950, 50));
}

#[test]
fn delegate_lives_at_the_address_made_of_its_salt() {
    let mut system = system();
    let by_admin = Approvals::of(admin());
    assert_eq!(system.add_merchant(&by_admin, 1, destination()), Ok(()));
    let address = system.add_user_delegate(&by_admin, 1, user());
    assert_eq!(address, Ok(Principal::contract(delegate_salt(1, &user()))));
    let address = Principal::contract(delegate_salt(1, &user()));
    assert_eq!(system.manager().user_delegate(1, user()), Some(address));
    let delegate = match system.delegate(address) {
        Some(delegate) => delegate,
        None => panic!("no delegate at its address"),
    };
    assert_eq!(delegate.admin(), admin());
    assert_eq!(delegate.manager(), manager_address());
    assert_eq!(delegate.merchant_debitor_manager(), store_address());
    assert_eq!(delegate.destination(), destination());
    assert_eq!(delegate.transfer_limit(user(), asset()), None);
    assert!(system.delegate(store_address()).is_none());
}

#[test]
fn system_deploys_nothing_for_an_unregistered_merchant() {
    let mut system = system();
    let by_admin = Approvals::of(admin());
    assert_eq!(
        system.add_user_delegate(&by_admin, 1, user()),
        Err(SystemError::Manager(ManagerError::MerchantNotConfigured))
    );
    assert_eq!(system.manager().user_delegate(1, user()), None);
    assert!(system.delegate(Principal::contract(delegate_salt(1, &user()))).is_none());
}

#[test]
fn system_keeps_the_first_delegate_on_a_second_deployment() {
    let mut system = onboarded();
    let by_admin = Approvals::of(admin());
    let address = Principal::contract(delegate_salt(1, &user()));
    assert_eq!(
        system.add_user_delegate(&by_admin, 1, user()),
        Err(SystemError::Manager(ManagerError::DeploymentCollision))
    );
    assert_eq!(system.manager().user_delegate(1, user()), Some(address));
    assert_eq!(
        system.delegate(address).and_then(|delegate| delegate.transfer_limit(user(), asset())),
        Some(100)
    );
    assert_eq!(
        system.debit_user(&Approvals::of(debitor()), 1, debitor(), user(), asset(), 100),
        Ok(Transfer { token: asset(), from: user(), to: destination(), amount: 100 })
    );
}

#[test]
fn system_refuses_what_the_administrator_did_not_approve() {
    let mut system = onboarded();
    let by_debitor = Approvals::of(debitor());
    assert_eq!(
        system.add_merchant(&by_debitor, 2, debitor()),
        Err(SystemError::Manager(ManagerError::Unauthorized))
    );
    assert_eq!(system.manager().merchant_destination(2), None);
    assert_eq!(
        system.add_user_delegate(&by_debitor, 1, debitor()),
        Err(SystemError::Manager(ManagerError::Unauthorized))
    );
    let address = Principal::contract(delegate_salt(1, &user()));
    assert_eq!(
        system.add_transfer_limit(&by_debitor, address, user(), asset(), 1_000_000),
        Err(SystemError::Delegate(UserDelegateError::Unauthorized))
    );
    assert_eq!(
        system.delegate(address).and_then(|delegate| delegate.transfer_limit(user(), asset())),
        Some(100)
    );
    assert_eq!(
        system.add_merchant_debitor(&by_debitor, 1, user()),
        Err(SystemError::Policy(PolicyError::Unauthorized))
    );
    assert!(!system.is_allowed(1, user()));
    assert_eq!(
        system.remove_merchant_debitor(&by_debitor, 1, debitor()),
        Err(SystemError::Policy(PolicyError::Unauthorized))
    );
    assert!(system.is_allowed(1, debitor()));
    assert!(system.store().is_allowed(1, debitor()));
}

#[test]
fn system_finds_no_contract_where_none_was_deployed() {
    let mut system = onboarded();
    assert_eq!(
        system.add_transfer_limit(&Approvals::of(admin()), store_address(), user(), asset(), 5),
        Err(SystemError::NoContract)
    );
    assert_eq!(
        system.debit_user(&Approvals::of(debitor()), 2, debitor(), user(), asset(), 5),
        Err(SystemError::Manager(ManagerError::DelegateNotFound))
    );
    assert_eq!(
        system.debit_user(&Approvals::of(debitor()), 1, debitor(), debitor(), asset(), 5),
        Err(SystemError::Manager(ManagerError::DelegateNotFound))
    );
}

#[test]
fn system_debit_needs_whitelisting_approval_and_limit() {
    let system = onboarded();
    let other = Principal::account([50u8; 32]);
    for amount in [0i128, 50, 100, 101, i128::MAX] {
        assert_eq!(
            system.debit_user(&Approvals::of(other), 1, other, user(), asset(), amount),
            Err(SystemError::Delegate(UserDelegateError::Unauthorized))
        );
    }
    assert_eq!(
        system.debit_user(&Approvals::of(other), 1, debitor(), user(), asset(), 50),
        Err(SystemError::Delegate(UserDelegateError::Unauthorized))
    );
    assert_eq!(
        system.debit_user(&Approvals::of(debitor()), 1, debitor(), user(), other, 50),
        Err(SystemError::Delegate(UserDelegateError::Unauthorized))
    );
    assert_eq!(
        system.debit_user(&Approvals::of(debitor()), 1, debitor(), user(), asset(), 101),
        Err(SystemError::Delegate(UserDelegateError::TransferLimitExceeded))
    );
}

#[test]
fn system_whitelist_is_kept_per_merchant() {
    let mut system = onboarded();
    let by_admin = Approvals::of(admin());
    let payout = Principal::account([20u8; 32]);
    assert_eq!(system.add_merchant(&by_admin, 2, payout), Ok(()));
    let delegate = match system.add_user_delegate(&by_admin, 2, user()) {
        Ok(delegate) => delegate,
        Err(error) => panic!("refused: {:?}", error),
    };
    assert_ne!(Some(delegate), system.manager().user_delegate(1, user()));
    assert_eq!(system.add_transfer_limit(&by_admin, delegate, user(), asset(), 10), Ok(()));
    assert_eq!(
        system.debit_user(&Approvals::of(debitor()), 2, debitor(), user(), asset(), 5),
        Err(SystemError::Delegate(UserDelegateError::Unauthorized))
    );
    assert_eq!(system.add_merchant_debitor(&by_admin, 2, debitor()), Ok(()));
    assert_eq!(
        system.debit_user(&Approvals::of(debitor()), 2, debitor(), user(), asset(), 5),
        Ok(Transfer { token: asset(), from: user(), to: payout, amount: 5 })
    );
    assert_eq!(
        system.debit_user(&Approvals::of(debitor()), 2, debitor(), user(), asset(), 50),
        Err(SystemError::Delegate(UserDelegateError::TransferLimitExceeded))
    );
    assert_eq!(
        system.debit_user(&Approvals::of(debitor()), 1, debitor(), user(), asset(), 50),
        Ok(Transfer { token: asset(), from: user(), to: destination(), amount: 50 })
    );
}

#[test]
fn system_with_a_manager_linked_elsewhere_reaches_no_store() {
    let elsewhere = Principal::contract([60u8; 32]);
    let mut system = System::assemble(
        store_address(),
        MerchantDebitorManager::new(admin()),
        manager_address(),
        Manager::new(admin(), elsewhere, [9u8; 32]),
    );
    let by_admin = Approvals::of(admin());
    assert_eq!(system.add_merchant_debitor(&by_admin, 1, debitor()), Err(SystemError::NoContract));
    assert!(!system.is_allowed(1, debitor()));
    assert_eq!(
        system.remove_merchant_debitor(&by_admin, 1, debitor()),
        Err(SystemError::NoContract)
    );

    assert_eq!(system.add_merchant(&by_admin, 1, destination()), Ok(()));
    let delegate = match system.add_user_delegate(&by_admin, 1, user()) {
        Ok(delegate) => delegate,
        Err(error) => panic!("refused: {:?}", error),
    };
    assert_eq!(system.add_transfer_limit(&by_admin, delegate, user(), asset(), 100), Ok(()));
    assert_eq!(
        system.debit_user(&Approvals::of(debitor()), 1, debitor(), user(), asset(), 50),
        Err(SystemError::NoContract)
    );
}

#[test]
fn system_registry_entry_without_an_instance_reaches_no_delegate() {
    let vacant = Principal::contract([61u8; 32]);
    let system = System::assemble(
        store_address(),
        MerchantDebitorManager::new(admin()).with_merchant_debitor(1, debitor()),
        manager_address(),
        Manager::new(admin(), store_address(), [9u8; 32])
            .with_merchant(1, destination())
            .with_user_delegate(1, user(), vacant),
    );
    assert_eq!(
        system.debit_user(&Approvals::of(debitor()), 1, debitor(), user(), asset(), 50),
        Err(SystemError::NoContract)
    );
}
