use vstd::prelude::*;
use crate::manager::{DebitCall, Deployment, ManagerError, ManagerState};
use crate::policy_store::PolicyState;
use crate::principal::Principal;
use crate::system::{delegate_address, SystemError, SystemState};
use crate::user_delegate::{DelegateState, Transfer, UserDelegateError};

verus! {

/// For a merchant that is not registered, a deployment always fails and
/// leaves the manager as it was, so nothing is asked of the ledger. When the
/// administrator approved the call, the error is the one that tells a
/// missing registration from a denial.
pub proof fn unregistered_merchant_never_deploys(
    manager: ManagerState,
    approvals: Set<Principal>,
    merchant: u64,
    user: Principal,
    salt: [u8; 32],
    address: Principal,
)
    requires
        !manager.merchants.contains_key(merchant),
    ensures
        manager.deployment_refusal(approvals, merchant, user) is Some,
        manager.deployment_result(approvals, merchant, user, salt) is Err,
        approvals.contains(manager.admin) ==> manager.deployment_result(
            approvals,
            merchant,
            user,
            salt,
        ) == Err::<Deployment, ManagerError>(ManagerError::MerchantNotConfigured),
        manager.after_deployment(approvals, merchant, user, address) == manager,
{
}

/// After a deployment for a pair has succeeded, every further deployment
/// for the same pair fails, with a collision when the administrator
/// approved it, and the registry keeps the address of the first.
pub proof fn second_deployment_collides(
    manager: ManagerState,
    first_approvals: Set<Principal>,
    second_approvals: Set<Principal>,
    merchant: u64,
    user: Principal,
    first_address: Principal,
    second_address: Principal,
    second_salt: [u8; 32],
)
    requires
        manager.deployment_refusal(first_approvals, merchant, user) is None,
    ensures
        ({
            let registered = manager.after_deployment(
                first_approvals,
                merchant,
                user,
                first_address,
            );
            let again = registered.after_deployment(
                second_approvals,
                merchant,
                user,
                second_address,
            );
            &&& registered.delegates.contains_key((merchant, user))
            &&& registered.delegates[(merchant, user)] == first_address
            &&& registered.deployment_result(second_approvals, merchant, user, second_salt) is Err
            &&& second_approvals.contains(manager.admin) ==> registered.deployment_refusal(
                second_approvals,
                merchant,
                user,
            ) == Some(ManagerError::DeploymentCollision)
            &&& again == registered
            &&& again.delegates[(merchant, user)] == first_address
        }),
{
}

/// A debit is routed to the delegate registered for the merchant and the
/// user, with the debitor, the asset and the amount as they came.
pub proof fn registered_pair_is_routed_to_its_delegate(
    manager: ManagerState,
    approvals: Set<Principal>,
    merchant: u64,
    user: Principal,
    address: Principal,
    debitor: Principal,
    token: Principal,
    amount: i128,
)
    requires
        manager.deployment_refusal(approvals, merchant, user) is None,
    ensures
        manager.after_deployment(approvals, merchant, user, address).debit_route(
            merchant,
            debitor,
            user,
            token,
            amount,
        ) == Ok::<DebitCall, ManagerError>(
            DebitCall { delegate: address, merchant, debitor, user, token, amount },
        ),
{
}

/// With a limit configured for the user and the asset, a debit of an amount
/// that is not above it, by a debitor who approved the call and is on the
/// merchant's whitelist, succeeds with exactly one transfer: of that
/// amount, from the user to the payout destination.
pub proof fn debit_within_limit_transfers_once(
    delegate: DelegateState,
    policy: PolicyState,
    approvals: Set<Principal>,
    merchant: u64,
    debitor: Principal,
    user: Principal,
    token: Principal,
    limit: i128,
    amount: i128,
)
    requires
        delegate.limits.contains_key((user, token)),
        delegate.limits[(user, token)] == limit,
        amount <= limit,
        policy.is_allowed(merchant, debitor),
        approvals.contains(debitor),
    ensures
        delegate.debit_result(
            approvals,
            policy.is_allowed(merchant, debitor),
            debitor,
            user,
            token,
            amount,
        ) == Ok::<Transfer, UserDelegateError>(
            Transfer { token, from: user, to: delegate.destination, amount },
        ),
{
}

/// The same debit of an amount above the limit fails as over the limit, and
/// so asks for no transfer.
pub proof fn debit_over_limit_is_refused(
    delegate: DelegateState,
    policy: PolicyState,
    approvals: Set<Principal>,
    merchant: u64,
    debitor: Principal,
    user: Principal,
    token: Principal,
    limit: i128,
    amount: i128,
)
    requires
        delegate.limits.contains_key((user, token)),
        delegate.limits[(user, token)] == limit,
        amount > limit,
        policy.is_allowed(merchant, debitor),
        approvals.contains(debitor),
    ensures
        delegate.debit_result(
            approvals,
            policy.is_allowed(merchant, debitor),
            debitor,
            user,
            token,
            amount,
        ) == Err::<Transfer, UserDelegateError>(UserDelegateError::TransferLimitExceeded),
{
}

/// Whenever a debit asks for a transfer, a limit is configured for the user
/// and the asset, and the amount of the transfer is not above it.
pub proof fn transfer_never_exceeds_limit(
    delegate: DelegateState,
    approvals: Set<Principal>,
    allowed: bool,
    debitor: Principal,
    user: Principal,
    token: Principal,
    amount: i128,
)
    requires
        delegate.debit_result(approvals, allowed, debitor, user, token, amount) is Ok,
    ensures
        delegate.limits.contains_key((user, token)),
        delegate.debit_result(approvals, allowed, debitor, user, token, amount)->Ok_0.amount
            <= delegate.limits[(user, token)],
        approvals.contains(debitor),
        allowed,
{
}

/// A debit by a debitor who is not on the merchant's whitelist fails as
/// unauthorized, whatever the amount, the limit and the approvals.
pub proof fn debit_without_whitelist_entry_is_unauthorized(
    delegate: DelegateState,
    policy: PolicyState,
    approvals: Set<Principal>,
    merchant: u64,
    debitor: Principal,
    user: Principal,
    token: Principal,
    amount: i128,
)
    requires
        !policy.whitelist.contains((merchant, debitor)),
    ensures
        delegate.debit_result(
            approvals,
            policy.is_allowed(merchant, debitor),
            debitor,
            user,
            token,
            amount,
        ) == Err::<Transfer, UserDelegateError>(UserDelegateError::Unauthorized),
{
}

/// Once the administrator of the policy store has removed a debitor from a
/// merchant's whitelist, a debit by that debitor fails as unauthorized,
/// also one that succeeded before the removal.
pub proof fn removed_debitor_is_unauthorized(
    delegate: DelegateState,
    policy: PolicyState,
    removal_approvals: Set<Principal>,
    approvals: Set<Principal>,
    merchant: u64,
    debitor: Principal,
    user: Principal,
    token: Principal,
    amount: i128,
)
    requires
        policy.change_result(removal_approvals) is Ok,
    ensures
        ({
            let removed = policy.after_remove(removal_approvals, merchant, debitor);
            &&& !removed.is_allowed(merchant, debitor)
            &&& delegate.debit_result(
                approvals,
                removed.is_allowed(merchant, debitor),
                debitor,
                user,
                token,
                amount,
            ) == Err::<Transfer, UserDelegateError>(UserDelegateError::Unauthorized)
        }),
{
}

/// A change of the whitelist for one pair leaves the answer for every other
/// pair as it was, and a refused change leaves the whole store as it was.
pub proof fn whitelist_change_is_local(
    policy: PolicyState,
    approvals: Set<Principal>,
    merchant: u64,
    debitor: Principal,
    other_merchant: u64,
    other_debitor: Principal,
)
    ensures
        (other_merchant, other_debitor) != (merchant, debitor) ==> {
            &&& policy.after_add(approvals, merchant, debitor).is_allowed(
                other_merchant,
                other_debitor,
            ) == policy.is_allowed(other_merchant, other_debitor)
            &&& policy.after_remove(approvals, merchant, debitor).is_allowed(
                other_merchant,
                other_debitor,
            ) == policy.is_allowed(other_merchant, other_debitor)
        },
        policy.change_result(approvals) is Ok ==> policy.after_add(
            approvals,
            merchant,
            debitor,
        ).is_allowed(merchant, debitor),
        policy.change_result(approvals) is Err ==> {
            &&& policy.after_add(approvals, merchant, debitor) == policy
            &&& policy.after_remove(approvals, merchant, debitor) == policy
        },
{
}

/// In the system, a debit for a configured pair, of an amount that is not
/// above the limit, by a debitor who approved the call and is on the
/// merchant's whitelist, succeeds with exactly one transfer: of that
/// amount, from the user to the payout destination.
pub proof fn system_debit_within_limit_transfers_once(
    system: SystemState,
    approvals: Set<Principal>,
    merchant: u64,
    debitor: Principal,
    user: Principal,
    token: Principal,
    limit: i128,
    amount: i128,
)
    requires
        system.configured(merchant, user, token, limit),
        amount <= limit,
        system.store.is_allowed(merchant, debitor),
        approvals.contains(debitor),
    ensures
        system.debit_user_result(approvals, merchant, debitor, user, token, amount) == Ok::<
            Transfer,
            SystemError,
        >(Transfer { token, from: user, to: system.payout_destination(merchant, user), amount }),
{
}

/// In the system, the same debit of an amount above the limit fails as over
/// the limit, and so asks for no transfer.
pub proof fn system_debit_over_limit_is_refused(
    system: SystemState,
    approvals: Set<Principal>,
    merchant: u64,
    debitor: Principal,
    user: Principal,
    token: Principal,
    limit: i128,
    amount: i128,
)
    requires
        system.configured(merchant, user, token, limit),
        amount > limit,
        system.store.is_allowed(merchant, debitor),
        approvals.contains(debitor),
    ensures
        system.debit_user_result(approvals, merchant, debitor, user, token, amount) == Err::<
            Transfer,
            SystemError,
        >(SystemError::Delegate(UserDelegateError::TransferLimitExceeded)),
{
}

/// In the system, a debit by a debitor who is not on the merchant's
/// whitelist fails in every state and for every amount; where the pair is
/// configured, it fails as unauthorized.
pub proof fn system_debit_without_whitelist_entry_fails(
    system: SystemState,
    approvals: Set<Principal>,
    merchant: u64,
    debitor: Principal,
    user: Principal,
    token: Principal,
    limit: i128,
    amount: i128,
)
    requires
        !system.store.whitelist.contains((merchant, debitor)),
    ensures
        system.debit_user_result(approvals, merchant, debitor, user, token, amount) is Err,
        system.configured(merchant, user, token, limit) ==> system.debit_user_result(
            approvals,
            merchant,
            debitor,
            user,
            token,
            amount,
        ) == Err::<Transfer, SystemError>(SystemError::Delegate(UserDelegateError::Unauthorized)),
{
}

/// In the system, once a debitor has been removed from a merchant's
/// whitelist, a debit by that debitor fails, as unauthorized where the pair
/// is configured, also if the same debit succeeded before the removal.
pub proof fn system_removed_debitor_is_unauthorized(
    system: SystemState,
    removal_approvals: Set<Principal>,
    approvals: Set<Principal>,
    merchant: u64,
    debitor: Principal,
    user: Principal,
    token: Principal,
    limit: i128,
    amount: i128,
)
    requires
        system.change_result(removal_approvals) is Ok,
    ensures
        ({
            let removed = system.after_remove_debitor(removal_approvals, merchant, debitor);
            &&& removed.debit_user_result(approvals, merchant, debitor, user, token, amount) is Err
            &&& system.configured(merchant, user, token, limit) ==> removed.debit_user_result(
                approvals,
                merchant,
                debitor,
                user,
                token,
                amount,
            ) == Err::<Transfer, SystemError>(
                SystemError::Delegate(UserDelegateError::Unauthorized),
            )
        }),
{
}

/// In the system, a deployment for a merchant that is not registered fails
/// and changes nothing: no pair is registered and no instance is placed.
pub proof fn system_unregistered_merchant_never_deploys(
    system: SystemState,
    approvals: Set<Principal>,
    merchant: u64,
    user: Principal,
)
    requires
        !system.manager.merchants.contains_key(merchant),
    ensures
        system.deployment_result(approvals, merchant, user) is Err,
        approvals.contains(system.manager.admin) ==> system.deployment_result(
            approvals,
            merchant,
            user,
        ) == Err::<Principal, SystemError>(
            SystemError::Manager(ManagerError::MerchantNotConfigured),
        ),
        system.after_deployment(approvals, merchant, user) == system,
{
}

/// In the system, after a deployment for a pair has succeeded, every further
/// deployment for the same pair fails and changes nothing: the registry
/// keeps the address of the first, and the delegate that lives there keeps
/// its state.
pub proof fn system_second_deployment_collides(
    system: SystemState,
    first_approvals: Set<Principal>,
    second_approvals: Set<Principal>,
    merchant: u64,
    user: Principal,
)
    requires
        system.deployment_result(first_approvals, merchant, user) is Ok,
    ensures
        ({
            let deployed = system.after_deployment(first_approvals, merchant, user);
            &&& deployed.manager.delegates[(merchant, user)] == delegate_address(merchant, user)
            &&& deployed.deployment_result(second_approvals, merchant, user) is Err
            &&& second_approvals.contains(system.manager.admin) ==> deployed.deployment_result(
                second_approvals,
                merchant,
                user,
            ) == Err::<Principal, SystemError>(
                SystemError::Manager(ManagerError::DeploymentCollision),
            )
            &&& deployed.after_deployment(second_approvals, merchant, user) == deployed
        }),
{
}

/// Onboarding enables debits, up to the limit and until the debitor is
/// removed. In a system whose manager is linked to its policy store, let
/// the administrator register a merchant, have a delegate deployed for a
/// user, set a limit for an asset and whitelist a debitor. Then a debit by
/// that debitor is decided by the debitor's approval and the limit alone,
/// and pays out to the merchant's destination; after the debitor's removal
/// it is unauthorized.
pub proof fn onboarding_enables_debit(
    system: SystemState,
    admin_approvals: Set<Principal>,
    approvals: Set<Principal>,
    merchant: u64,
    destination: Principal,
    user: Principal,
    token: Principal,
    limit: i128,
    debitor: Principal,
    amount: i128,
)
    requires
        system.store_linked(),
        admin_approvals.contains(system.manager.admin),
        admin_approvals.contains(system.store.admin),
        system.after_merchant(admin_approvals, merchant, destination).deployment_result(
            admin_approvals,
            merchant,
            user,
        ) is Ok,
    ensures
        ({
            let registered = system.after_merchant(admin_approvals, merchant, destination);
            let deployed = registered.after_deployment(admin_approvals, merchant, user);
            let limited = deployed.after_limit(
                admin_approvals,
                delegate_address(merchant, user),
                user,
                token,
                limit,
            );
            let whitelisted = limited.after_add_debitor(admin_approvals, merchant, debitor);
            let removed = whitelisted.after_remove_debitor(admin_approvals, merchant, debitor);
            &&& whitelisted.configured(merchant, user, token, limit)
            &&& whitelisted.store.is_allowed(merchant, debitor)
            &&& whitelisted.debit_user_result(approvals, merchant, debitor, user, token, amount)
                == (if !approvals.contains(debitor) {
                Err::<Transfer, SystemError>(SystemError::Delegate(UserDelegateError::Unauthorized))
            } else if amount > limit {
                Err::<Transfer, SystemError>(
                    SystemError::Delegate(UserDelegateError::TransferLimitExceeded),
                )
            } else {
                Ok::<Transfer, SystemError>(Transfer { token, from: user, to: destination, amount })
            })
            &&& removed.debit_user_result(approvals, merchant, debitor, user, token, amount)
                == Err::<Transfer, SystemError>(
                SystemError::Delegate(UserDelegateError::Unauthorized),
            )
        }),
{
}

/// The registry of the manager only grows: whatever call is made, a pair
/// that has a delegate keeps it, at the same address.
pub proof fn registered_delegate_is_never_replaced(
    manager: ManagerState,
    approvals: Set<Principal>,
    merchant: u64,
    user: Principal,
    other_merchant: u64,
    other_user: Principal,
    destination: Principal,
    address: Principal,
)
    requires
        manager.delegates.contains_key((merchant, user)),
    ensures
        ({
            let registered = manager.after_merchant(approvals, other_merchant, destination);
            &&& registered.delegates.contains_key((merchant, user))
            &&& registered.delegates[(merchant, user)] == manager.delegates[(merchant, user)]
        }),
        ({
            let deployed = manager.after_deployment(approvals, other_merchant, other_user, address);
            &&& deployed.delegates.contains_key((merchant, user))
            &&& deployed.delegates[(merchant, user)] == manager.delegates[(merchant, user)]
        }),
{
}

/// A system that starts out with a manager linked to its policy store and
/// with no delegate registered is well linked.
pub proof fn fresh_system_is_well_linked(system: SystemState)
    requires
        system.store_linked(),
        system.manager.delegates == Map::<(u64, Principal), Principal>::empty(),
    ensures
        system.well_linked(),
{
}

/// Every call into a well-linked system leaves it well linked.
pub proof fn calls_keep_the_system_well_linked(
    system: SystemState,
    approvals: Set<Principal>,
    merchant: u64,
    principal: Principal,
    user: Principal,
    token: Principal,
    delegate: Principal,
    per_transfer_limit: i128,
)
    requires
        system.well_linked(),
    ensures
        system.after_merchant(approvals, merchant, principal).well_linked(),
        system.after_deployment(approvals, merchant, user).well_linked(),
        system.after_limit(approvals, delegate, user, token, per_transfer_limit).well_linked(),
        system.after_add_debitor(approvals, merchant, principal).well_linked(),
        system.after_remove_debitor(approvals, merchant, principal).well_linked(),
{
    let deployed = system.after_deployment(approvals, merchant, user);
    assert forall|m: u64, u: Principal| #[trigger]
        deployed.manager.delegates.contains_key((m, u)) implies {
        &&& deployed.delegates.contains_key(deployed.manager.delegates[(m, u)])
        &&& deployed.delegates[deployed.manager.delegates[(m, u)]].merchant_debitor_manager
            == deployed.store_address
    } by {
        if system.deployment_refusal(approvals, merchant, user) is None && (m, u) != (
            merchant,
            user,
        ) {
            assert(system.manager.delegates.contains_key((m, u)));
        }
    }
    let limited = system.after_limit(approvals, delegate, user, token, per_transfer_limit);
    assert forall|m: u64, u: Principal| #[trigger]
        limited.manager.delegates.contains_key((m, u)) implies {
        &&& limited.delegates.contains_key(limited.manager.delegates[(m, u)])
        &&& limited.delegates[limited.manager.delegates[(m, u)]].merchant_debitor_manager
            == limited.store_address
    } by {
        assert(system.manager.delegates.contains_key((m, u)));
    }
}

/// In a well-linked system no call gets lost: a whitelist change reaches
/// the policy store, and a debit for a registered pair reaches its delegate
/// and is decided there.
pub proof fn well_linked_system_loses_no_call(
    system: SystemState,
    approvals: Set<Principal>,
    merchant: u64,
    debitor: Principal,
    user: Principal,
    token: Principal,
    amount: i128,
)
    requires
        system.well_linked(),
    ensures
        system.change_result(approvals) != Err::<(), SystemError>(SystemError::NoContract),
        system.debit_user_result(approvals, merchant, debitor, user, token, amount) != Err::<
            Transfer,
            SystemError,
        >(SystemError::NoContract),
        system.manager.delegates.contains_key((merchant, user)) ==> system.debit_user_result(
            approvals,
            merchant,
            debitor,
            user,
            token,
            amount,
        ) == (match system.delegates[system.manager.delegates[(merchant, user)]].debit_result(
            approvals,
            system.store.is_allowed(merchant, debitor),
            debitor,
            user,
            token,
            amount,
        ) {
            Ok(transfer) => Ok::<Transfer, SystemError>(transfer),
            Err(error) => Err::<Transfer, SystemError>(SystemError::Delegate(error)),
        }),
{
}

/// What is fixed at construction stays fixed: no call changes the
/// administrator of a component or any of its links.
pub proof fn configuration_is_immutable(
    policy: PolicyState,
    manager: ManagerState,
    delegate: DelegateState,
    approvals: Set<Principal>,
    merchant: u64,
    principal: Principal,
    user: Principal,
    token: Principal,
    per_transfer_limit: i128,
)
    ensures
        policy.after_add(approvals, merchant, principal).admin == policy.admin,
        policy.after_remove(approvals, merchant, principal).admin == policy.admin,
        ({
            let registered = manager.after_merchant(approvals, merchant, principal);
            &&& registered.admin == manager.admin
            &&& registered.merchant_debitor_manager == manager.merchant_debitor_manager
            &&& registered.user_delegate_wasm_hash == manager.user_delegate_wasm_hash
        }),
        ({
            let deployed = manager.after_deployment(approvals, merchant, user, principal);
            &&& deployed.admin == manager.admin
            &&& deployed.merchant_debitor_manager == manager.merchant_debitor_manager
            &&& deployed.user_delegate_wasm_hash == manager.user_delegate_wasm_hash
            &&& deployed.merchants == manager.merchants
        }),
        ({
            let limited = delegate.after_limit(approvals, user, token, per_transfer_limit);
            &&& limited.admin == delegate.admin
            &&& limited.manager == delegate.manager
            &&& limited.merchant_debitor_manager == delegate.merchant_debitor_manager
            &&& limited.destination == delegate.destination
        }),
{
}

} // verus!
