use vstd::prelude::*;
use crate::approvals::Approvals;
use crate::manager::{Manager, ManagerError, ManagerState, PolicyCall, PolicyChange};
use crate::policy_store::{MerchantDebitorManager, PolicyError, PolicyState};
use crate::principal::{Principal, PrincipalKind};
use crate::salt::{delegate_salt, deployment_salt};
use crate::table::Table;
use crate::user_delegate::{DelegateState, Transfer, UserDelegate, UserDelegateError};

verus! {

/// Why a call into the system failed: the error of the component that
/// refused it, or that the call was routed to an address where the
/// component it was meant for does not live.
#[derive(Clone, Copy, Debug, PartialEq, Eq)]
pub enum SystemError {
    Policy(PolicyError),
    Manager(ManagerError),
    Delegate(UserDelegateError),
    /// No instance of the expected kind lives at the address that the call
    /// was routed to.
    NoContract,
}

/// The address at which the system places the delegate of
/// `(merchant, user)`: the contract whose identifier is the deployment salt.
pub open spec fn delegate_address(merchant: u64, user: Principal) -> Principal {
    Principal { kind: PrincipalKind::Contract, key: deployment_salt(merchant, user) }
}

/// What the system holds: the policy store and the manager, each with the
/// address it lives at, and the delegates that were deployed, by address.
pub struct SystemState {
    pub store_address: Principal,
    pub store: PolicyState,
    pub manager_address: Principal,
    pub manager: ManagerState,
    pub delegates: Map<Principal, DelegateState>,
}

impl SystemState {
    /// What `add_merchant` returns.
    pub open spec fn merchant_result(self, approvals: Set<Principal>) -> Result<(), SystemError> {
        match self.manager.merchant_result(approvals) {
            Ok(_) => Ok(()),
            Err(error) => Err(SystemError::Manager(error)),
        }
    }

    /// The state after a call of `add_merchant`.
    pub open spec fn after_merchant(
        self,
        approvals: Set<Principal>,
        merchant: u64,
        destination: Principal,
    ) -> SystemState {
        SystemState {
            manager: self.manager.after_merchant(approvals, merchant, destination),
            ..self
        }
    }

    /// Why no delegate is deployed for `(merchant, user)`, if none is: the
    /// manager refuses, or the address of the new instance is taken.
    pub open spec fn deployment_refusal(
        self,
        approvals: Set<Principal>,
        merchant: u64,
        user: Principal,
    ) -> Option<SystemError> {
        match self.manager.deployment_refusal(approvals, merchant, user) {
            Some(error) => Some(SystemError::Manager(error)),
            None => if self.delegates.contains_key(delegate_address(merchant, user)) {
                Some(SystemError::Manager(ManagerError::DeploymentCollision))
            } else {
                None
            },
        }
    }

    /// The delegate that a deployment for a user of the registered merchant
    /// `merchant` constructs: linked to the manager, its administrator and
    /// its policy store, paying out to the merchant's destination, with no
    /// transfer limit.
    pub open spec fn fresh_delegate(self, merchant: u64) -> DelegateState {
        DelegateState {
            admin: self.manager.admin,
            manager: self.manager_address,
            merchant_debitor_manager: self.manager.merchant_debitor_manager,
            destination: self.manager.merchants[merchant],
            limits: Map::empty(),
        }
    }

    /// What `add_user_delegate` returns: the address of the new delegate.
    pub open spec fn deployment_result(
        self,
        approvals: Set<Principal>,
        merchant: u64,
        user: Principal,
    ) -> Result<Principal, SystemError> {
        match self.deployment_refusal(approvals, merchant, user) {
            Some(error) => Err(error),
            None => Ok(delegate_address(merchant, user)),
        }
    }

    /// The state after a call of `add_user_delegate`: unless the call was
    /// refused, the pair is registered and its delegate lives at its address.
    pub open spec fn after_deployment(
        self,
        approvals: Set<Principal>,
        merchant: u64,
        user: Principal,
    ) -> SystemState {
        if self.deployment_refusal(approvals, merchant, user) is None {
            SystemState {
                manager: self.manager.after_deployment(
                    approvals,
                    merchant,
                    user,
                    delegate_address(merchant, user),
                ),
                delegates: self.delegates.insert(
                    delegate_address(merchant, user),
                    self.fresh_delegate(merchant),
                ),
                ..self
            }
        } else {
            self
        }
    }

    /// What `add_transfer_limit` returns.
    pub open spec fn limit_result(self, approvals: Set<Principal>, delegate: Principal) -> Result<
        (),
        SystemError,
    > {
        if !self.delegates.contains_key(delegate) {
            Err(SystemError::NoContract)
        } else {
            match self.delegates[delegate].limit_result(approvals) {
                Ok(_) => Ok(()),
                Err(error) => Err(SystemError::Delegate(error)),
            }
        }
    }

    /// The state after a call of `add_transfer_limit`.
    pub open spec fn after_limit(
        self,
        approvals: Set<Principal>,
        delegate: Principal,
        user: Principal,
        token: Principal,
        per_transfer_limit: i128,
    ) -> SystemState {
        if self.delegates.contains_key(delegate) {
            SystemState {
                delegates: self.delegates.insert(
                    delegate,
                    self.delegates[delegate].after_limit(
                        approvals,
                        user,
                        token,
                        per_transfer_limit,
                    ),
                ),
                ..self
            }
        } else {
            self
        }
    }

    /// Whether the delegate of `(merchant, user)` is deployed and ready to
    /// decide debits of `token`: the pair is registered, its delegate lives
    /// at the registered address and asks the policy store of this system,
    /// and the limit for one transfer of `token` from `user` is `limit`.
    pub open spec fn configured(
        self,
        merchant: u64,
        user: Principal,
        token: Principal,
        limit: i128,
    ) -> bool {
        &&& self.manager.delegates.contains_key((merchant, user))
        &&& self.delegates.contains_key(self.manager.delegates[(merchant, user)])
        &&& self.delegates[self.manager.delegates[(merchant, user)]].merchant_debitor_manager
            == self.store_address
        &&& self.delegates[self.manager.delegates[(merchant, user)]].limits.contains_key(
            (user, token),
        )
        &&& self.delegates[self.manager.delegates[(merchant, user)]].limits[(user, token)] == limit
    }

    /// The payout destination of the delegate of `(merchant, user)`.
    pub open spec fn payout_destination(self, merchant: u64, user: Principal) -> Principal {
        self.delegates[self.manager.delegates[(merchant, user)]].destination
    }

    /// Whether every call that the components make to one another arrives:
    /// the manager is linked to the policy store of this system, and each
    /// registered delegate lives at its registered address and is linked to
    /// that store too.
    pub open spec fn well_linked(self) -> bool {
        &&& self.store_linked()
        &&& forall|merchant: u64, user: Principal| #[trigger]
            self.manager.delegates.contains_key((merchant, user)) ==> {
                &&& self.delegates.contains_key(self.manager.delegates[(merchant, user)])
                &&& self.delegates[self.manager.delegates[(merchant, user)]].merchant_debitor_manager
                    == self.store_address
            }
    }

    /// Whether the manager's link to the policy store leads to the store of
    /// this system.
    pub open spec fn store_linked(self) -> bool {
        self.manager.merchant_debitor_manager == self.store_address
    }

    /// What a change of the whitelist returns.
    pub open spec fn change_result(self, approvals: Set<Principal>) -> Result<(), SystemError> {
        if !self.store_linked() {
            Err(SystemError::NoContract)
        } else {
            match self.store.change_result(approvals) {
                Ok(_) => Ok(()),
                Err(error) => Err(SystemError::Policy(error)),
            }
        }
    }

    /// The state after a call of `add_merchant_debitor`.
    pub open spec fn after_add_debitor(
        self,
        approvals: Set<Principal>,
        merchant: u64,
        debitor: Principal,
    ) -> SystemState {
        if self.store_linked() {
            SystemState { store: self.store.after_add(approvals, merchant, debitor), ..self }
        } else {
            self
        }
    }

    /// The state after a call of `remove_merchant_debitor`.
    pub open spec fn after_remove_debitor(
        self,
        approvals: Set<Principal>,
        merchant: u64,
        debitor: Principal,
    ) -> SystemState {
        if self.store_linked() {
            SystemState { store: self.store.after_remove(approvals, merchant, debitor), ..self }
        } else {
            self
        }
    }

    /// What `debit_user` returns. The manager routes the debit to the
    /// delegate of `(merchant, user)`; the delegate asks its policy store
    /// whether the debitor is whitelisted for the merchant, and decides.
    pub open spec fn debit_user_result(
        self,
        approvals: Set<Principal>,
        merchant: u64,
        debitor: Principal,
        user: Principal,
        token: Principal,
        amount: i128,
    ) -> Result<Transfer, SystemError> {
        if !self.manager.delegates.contains_key((merchant, user)) {
            Err(SystemError::Manager(ManagerError::DelegateNotFound))
        } else if !self.delegates.contains_key(self.manager.delegates[(merchant, user)]) {
            Err(SystemError::NoContract)
        } else {
            let delegate = self.delegates[self.manager.delegates[(merchant, user)]];
            if delegate.merchant_debitor_manager != self.store_address {
                Err(SystemError::NoContract)
            } else {
                match delegate.debit_result(
                    approvals,
                    self.store.is_allowed(merchant, debitor),
                    debitor,
                    user,
                    token,
                    amount,
                ) {
                    Ok(transfer) => Ok(transfer),
                    Err(error) => Err(SystemError::Delegate(error)),
                }
            }
        }
    }
}

/// The three components wired together in memory: a policy store, a
/// manager, and the delegates that the manager has had deployed, each at an
/// address. A call into the system runs through the components as it would
/// on the ledger, and fails as a whole when one of them refuses.
///
/// The asset's contract is not part of the system: a successful debit hands
/// out the transfer that is to be asked of it.
pub struct System {
    store_address: Principal,
    store: MerchantDebitorManager,
    manager_address: Principal,
    manager: Manager,
    delegates: Table<Principal, UserDelegate>,
}

impl View for System {
    type V = SystemState;

    closed spec fn view(&self) -> SystemState {
        SystemState {
            store_address: self.store_address,
            store: self.store@,
            manager_address: self.manager_address,
            manager: self.manager@,
            delegates: Map::new(
                |address: Principal| self.delegates@.contains_key(address),
                |address: Principal| self.delegates@[address]@,
            ),
        }
    }
}

impl System {
    /// A system of a policy store at `store_address` and a manager at
    /// `manager_address`, linked to that store, both with the administrator
    /// `admin`; no merchant, no debitor and no delegate yet.
    pub fn new(
        admin: Principal,
        store_address: Principal,
        manager_address: Principal,
        user_delegate_wasm_hash: [u8; 32],
    ) -> (system: System)
        ensures
            system@ == (SystemState {
                store_address,
                store: PolicyState { admin, whitelist: Set::empty() },
                manager_address,
                manager: ManagerState {
                    admin,
                    merchant_debitor_manager: store_address,
                    user_delegate_wasm_hash,
                    merchants: Map::empty(),
                    delegates: Map::empty(),
                },
                delegates: Map::empty(),
            }),
    {
        let system = System {
            store_address,
            store: MerchantDebitorManager::new(admin),
            manager_address,
            manager: Manager::new(admin, store_address, user_delegate_wasm_hash),
            delegates: Table::new(),
        };
        assert(system@.delegates =~= Map::empty());
        system
    }

    /// A system of the policy store `store`, living at `store_address`, and
    /// the manager `manager`, living at `manager_address`, with no delegate
    /// deployed. Calls that the manager routes to another policy store than
    /// `store_address` find no contract there.
    pub fn assemble(
        store_address: Principal,
        store: MerchantDebitorManager,
        manager_address: Principal,
        manager: Manager,
    ) -> (system: System)
        ensures
            system@ == (SystemState {
                store_address,
                store: store@,
                manager_address,
                manager: manager@,
                delegates: Map::empty(),
            }),
    {
        let system = System {
            store_address,
            store,
            manager_address,
            manager,
            delegates: Table::new(),
        };
        assert(system@.delegates =~= Map::empty());
        system
    }

    /// Registers `merchant` with the manager.
    pub fn add_merchant(
        &mut self,
        approvals: &Approvals,
        merchant: u64,
        destination: Principal,
    ) -> (result: Result<(), SystemError>)
        ensures
            result == old(self)@.merchant_result(approvals@),
            final(self)@ == old(self)@.after_merchant(approvals@, merchant, destination),
    {
        match self.manager.add_merchant(approvals, merchant, destination) {
            Ok(()) => Ok(()),
            Err(error) => Err(SystemError::Manager(error)),
        }
    }

    /// Has the manager deploy the delegate of `(merchant, user)`, and
    /// returns the address at which the new instance lives.
    ///
    /// Fails, and changes nothing, when the manager refuses and when an
    /// instance already lives at that address.
    pub fn add_user_delegate(&mut self, approvals: &Approvals, merchant: u64, user: Principal) -> (result:
        Result<Principal, SystemError>)
        ensures
            result == old(self)@.deployment_result(approvals@, merchant, user),
            final(self)@ == old(self)@.after_deployment(approvals@, merchant, user),
    {
        let salt = delegate_salt(merchant, &user);
        let address = Principal::contract(salt);
        if let Some(error) = self.manager.check_deployment(approvals, merchant, user) {
            return Err(SystemError::Manager(error));
        }
        if self.delegates.contains(&address) {
            return Err(SystemError::Manager(ManagerError::DeploymentCollision));
        }
        let deployed = self.manager.deploy_user_delegate(approvals, merchant, user, salt, address);
        let deployment = match deployed {
            Ok(deployment) => deployment,
            Err(error) => {
                return Err(SystemError::Manager(error));
            },
        };
        let constructed = UserDelegate::construct(
            approvals,
            deployment.admin,
            self.manager_address,
            deployment.merchant_debitor_manager,
            deployment.destination,
        );
        let delegate = match constructed {
            Ok(delegate) => delegate,
            Err(error) => {
                return Err(SystemError::Delegate(error));
            },
        };
        self.delegates.insert(address, delegate);
        assert(self@.delegates =~= old(self)@.delegates.insert(
            address,
            old(self)@.fresh_delegate(merchant),
        ));
        Ok(address)
    }

    /// Sets the limit for one transfer of `token` from `user` at the
    /// delegate that lives at `delegate`.
    pub fn add_transfer_limit(
        &mut self,
        approvals: &Approvals,
        delegate: Principal,
        user: Principal,
        token: Principal,
        per_transfer_limit: i128,
    ) -> (result: Result<(), SystemError>)
        ensures
            result == old(self)@.limit_result(approvals@, delegate),
            final(self)@ == old(self)@.after_limit(
                approvals@,
                delegate,
                user,
                token,
                per_transfer_limit,
            ),
    {
        match self.delegates.remove(&delegate) {
            None => {
                assert(self@.delegates =~= old(self)@.delegates);
                Err(SystemError::NoContract)
            },
            Some(instance) => {
                let mut instance = instance;
                let changed = instance.add_user_delegate(approvals, user, token, per_transfer_limit);
                self.delegates.insert(delegate, instance);
                assert(self@.delegates =~= old(self)@.delegates.insert(
                    delegate,
                    old(self)@.delegates[delegate].after_limit(
                        approvals@,
                        user,
                        token,
                        per_transfer_limit,
                    ),
                ));
                match changed {
                    Ok(()) => Ok(()),
                    Err(error) => Err(SystemError::Delegate(error)),
                }
            },
        }
    }

    /// Carries out a call that the manager passes on to the policy store:
    /// the call reaches the store of this system if it is addressed to it.
    fn pass_on(&mut self, approvals: &Approvals, call: PolicyCall) -> (result: Result<
        (),
        SystemError,
    >)
        ensures
            result == (if call.store != old(self)@.store_address {
                Err(SystemError::NoContract)
            } else {
                match old(self)@.store.change_result(approvals@) {
                    Ok(_) => Ok(()),
                    Err(error) => Err(SystemError::Policy(error)),
                }
            }),
            final(self)@ == (if call.store != old(self)@.store_address {
                old(self)@
            } else {
                SystemState {
                    store: match call.change {
                        PolicyChange::Add => old(self)@.store.after_add(
                            approvals@,
                            call.merchant,
                            call.debitor,
                        ),
                        PolicyChange::Remove => old(self)@.store.after_remove(
                            approvals@,
                            call.merchant,
                            call.debitor,
                        ),
                    },
                    ..old(self)@
                }
            }),
    {
        if !call.store.same(&self.store_address) {
            return Err(SystemError::NoContract);
        }
        let changed = match call.change {
            PolicyChange::Add => self.store.add_merchant_debitor(
                approvals,
                call.merchant,
                call.debitor,
            ),
            PolicyChange::Remove => self.store.remove_merchant_debitor(
                approvals,
                call.merchant,
                call.debitor,
            ),
        };
        match changed {
            Ok(()) => Ok(()),
            Err(error) => Err(SystemError::Policy(error)),
        }
    }

    /// Puts `(merchant, debitor)` on the whitelist, through the manager.
    pub fn add_merchant_debitor(
        &mut self,
        approvals: &Approvals,
        merchant: u64,
        debitor: Principal,
    ) -> (result: Result<(), SystemError>)
        ensures
            result == old(self)@.change_result(approvals@),
            final(self)@ == old(self)@.after_add_debitor(approvals@, merchant, debitor),
    {
        let call = self.manager.add_merchant_debitor(merchant, debitor);
        self.pass_on(approvals, call)
    }

    /// Takes `(merchant, debitor)` off the whitelist, through the manager.
    pub fn remove_merchant_debitor(
        &mut self,
        approvals: &Approvals,
        merchant: u64,
        debitor: Principal,
    ) -> (result: Result<(), SystemError>)
        ensures
            result == old(self)@.change_result(approvals@),
            final(self)@ == old(self)@.after_remove_debitor(approvals@, merchant, debitor),
    {
        let call = self.manager.remove_merchant_debitor(merchant, debitor);
        self.pass_on(approvals, call)
    }

    /// Whether `(merchant, debitor)` is on the whitelist of the policy store.
    pub fn is_allowed(&self, merchant: u64, debitor: Principal) -> (allowed: bool)
        ensures
            allowed == self@.store.is_allowed(merchant, debitor),
    {
        self.store.is_allowed(merchant, debitor)
    }

    /// Debits `amount` of `token` from `user` for `merchant`, on behalf of
    /// `debitor`: the manager routes the debit to the pair's delegate, the
    /// delegate asks the policy store about the debitor and decides. On
    /// success the result is the one transfer to ask of the asset's
    /// contract. The system itself does not change.
    pub fn debit_user(
        &self,
        approvals: &Approvals,
        merchant: u64,
        debitor: Principal,
        user: Principal,
        token: Principal,
        amount: i128,
    ) -> (result: Result<Transfer, SystemError>)
        ensures
            result == self@.debit_user_result(approvals@, merchant, debitor, user, token, amount),
    {
        let call = match self.manager.debit_user(merchant, debitor, user, token, amount) {
            Ok(call) => call,
            Err(error) => {
                return Err(SystemError::Manager(error));
            },
        };
        let delegate = match self.delegates.get_ref(&call.delegate) {
            Some(delegate) => delegate,
            None => {
                return Err(SystemError::NoContract);
            },
        };
        if !delegate.merchant_debitor_manager().same(&self.store_address) {
            return Err(SystemError::NoContract);
        }
        let allowed = self.store.is_allowed(call.merchant, call.debitor);
        match delegate.debit(
            approvals,
            allowed,
            call.debitor,
            call.user,
            call.token,
            call.amount,
        ) {
            Ok(transfer) => Ok(transfer),
            Err(error) => Err(SystemError::Delegate(error)),
        }
    }

    /// The policy store of the system.
    pub fn store(&self) -> (store: &MerchantDebitorManager)
        ensures
            store@ == self@.store,
    {
        &self.store
    }

    /// The manager of the system.
    pub fn manager(&self) -> (manager: &Manager)
        ensures
            manager@ == self@.manager,
    {
        &self.manager
    }

    /// The delegate that lives at `address`, if one does.
    pub fn delegate(&self, address: Principal) -> (delegate: Option<&UserDelegate>)
        ensures
            match delegate {
                Some(instance) => self@.delegates.contains_key(address) && instance@
                    == self@.delegates[address],
                None => !self@.delegates.contains_key(address),
            },
    {
        self.delegates.get_ref(&address)
    }
}

} // verus!
