use vstd::prelude::*;
use crate::approvals::Approvals;
use crate::principal::Principal;
use crate::salt::{delegate_salt, deployment_salt};
use crate::table::Table;

verus! {

/// Why the manager refused a call.
#[derive(Clone, Copy, Debug, PartialEq, Eq)]
pub enum ManagerError {
    /// The recorded administrator did not approve the call.
    Unauthorized,
    /// The merchant was never registered, so it has no payout destination.
    MerchantNotConfigured,
    /// No delegate is registered for the merchant and the user.
    DelegateNotFound,
    /// A delegate is already registered for the merchant and the user; its
    /// address is taken and stays as it is.
    DeploymentCollision,
}

impl ManagerError {
    /// Whether the error says that something referred to was never set up,
    /// as opposed to a denial.
    pub fn is_not_found(&self) -> (not_found: bool)
        ensures
            not_found == (*self is MerchantNotConfigured || *self is DelegateNotFound),
    {
        match self {
            ManagerError::MerchantNotConfigured => true,
            ManagerError::DelegateNotFound => true,
            ManagerError::Unauthorized => false,
            ManagerError::DeploymentCollision => false,
        }
    }
}

/// What to do to the whitelist of the policy store.
#[derive(Clone, Copy, Debug, PartialEq, Eq)]
pub enum PolicyChange {
    Add,
    Remove,
}

/// A call that the manager passes on to the policy store.
#[derive(Clone, Copy, Debug, PartialEq, Eq)]
pub struct PolicyCall {
    /// The policy store to call.
    pub store: Principal,
    pub change: PolicyChange,
    pub merchant: u64,
    pub debitor: Principal,
}

/// A debit that the manager passes on to a delegate.
#[derive(Clone, Copy, Debug, PartialEq, Eq)]
pub struct DebitCall {
    /// The delegate to call.
    pub delegate: Principal,
    pub merchant: u64,
    pub debitor: Principal,
    pub user: Principal,
    pub token: Principal,
    pub amount: i128,
}

/// The instantiation of a delegate that the manager asks of the ledger.
///
/// The ledger places the instance at the address that it derives from the
/// manager's own address and `salt`, and refuses to place a second one there.
#[derive(Clone, Copy, Debug, PartialEq, Eq)]
pub struct Deployment {
    /// The code that the instance runs.
    pub wasm_hash: [u8; 32],
    pub salt: [u8; 32],
    /// The administrator of the new delegate: the manager's own.
    pub admin: Principal,
    /// The policy store that the new delegate asks about debitors.
    pub merchant_debitor_manager: Principal,
    /// The payout destination of the merchant.
    pub destination: Principal,
}

/// What a manager holds: its administrator and links, fixed at construction,
/// the payout destination of each registered merchant, and the address of
/// the delegate of each `(merchant, user)` pair that has one.
pub struct ManagerState {
    pub admin: Principal,
    pub merchant_debitor_manager: Principal,
    pub user_delegate_wasm_hash: [u8; 32],
    pub merchants: Map<u64, Principal>,
    pub delegates: Map<(u64, Principal), Principal>,
}

impl ManagerState {
    /// What `add_merchant` returns: it succeeds exactly when the
    /// administrator is among those who approved the call.
    pub open spec fn merchant_result(self, approvals: Set<Principal>) -> Result<(), ManagerError> {
        if approvals.contains(self.admin) {
            Ok(())
        } else {
            Err(ManagerError::Unauthorized)
        }
    }

    /// The state after a call of `add_merchant`.
    pub open spec fn after_merchant(
        self,
        approvals: Set<Principal>,
        merchant: u64,
        destination: Principal,
    ) -> ManagerState {
        if approvals.contains(self.admin) {
            ManagerState { merchants: self.merchants.insert(merchant, destination), ..self }
        } else {
            self
        }
    }

    /// Why no delegate is deployed for `(merchant, user)`, if none is: the
    /// administrator did not approve, the merchant is not registered, or the
    /// pair has its delegate already.
    pub open spec fn deployment_refusal(
        self,
        approvals: Set<Principal>,
        merchant: u64,
        user: Principal,
    ) -> Option<ManagerError> {
        if !approvals.contains(self.admin) {
            Some(ManagerError::Unauthorized)
        } else if !self.merchants.contains_key(merchant) {
            Some(ManagerError::MerchantNotConfigured)
        } else if self.delegates.contains_key((merchant, user)) {
            Some(ManagerError::DeploymentCollision)
        } else {
            None
        }
    }

    /// The instantiation asked of the ledger for a user of the registered
    /// merchant `merchant`, under `salt`.
    pub open spec fn deployment(self, merchant: u64, salt: [u8; 32]) -> Deployment {
        Deployment {
            wasm_hash: self.user_delegate_wasm_hash,
            salt,
            admin: self.admin,
            merchant_debitor_manager: self.merchant_debitor_manager,
            destination: self.merchants[merchant],
        }
    }

    /// What a deployment under `salt` returns.
    pub open spec fn deployment_result(
        self,
        approvals: Set<Principal>,
        merchant: u64,
        user: Principal,
        salt: [u8; 32],
    ) -> Result<Deployment, ManagerError> {
        match self.deployment_refusal(approvals, merchant, user) {
            Some(error) => Err(error),
            None => Ok(self.deployment(merchant, salt)),
        }
    }

    /// The state after a deployment for `(merchant, user)` at `address`: the
    /// pair is registered with that address unless the call was refused.
    pub open spec fn after_deployment(
        self,
        approvals: Set<Principal>,
        merchant: u64,
        user: Principal,
        address: Principal,
    ) -> ManagerState {
        if self.deployment_refusal(approvals, merchant, user) is None {
            ManagerState { delegates: self.delegates.insert((merchant, user), address), ..self }
        } else {
            self
        }
    }

    /// Where a debit of a user of `merchant` goes: to the delegate
    /// registered for the pair, with the arguments as they came.
    pub open spec fn debit_route(
        self,
        merchant: u64,
        debitor: Principal,
        user: Principal,
        token: Principal,
        amount: i128,
    ) -> Result<DebitCall, ManagerError> {
        if self.delegates.contains_key((merchant, user)) {
            Ok(
                DebitCall {
                    delegate: self.delegates[(merchant, user)],
                    merchant,
                    debitor,
                    user,
                    token,
                    amount,
                },
            )
        } else {
            Err(ManagerError::DelegateNotFound)
        }
    }
}

/// The manager: it registers merchants, has a delegate deployed for each
/// `(merchant, user)` pair, and routes debits and whitelist changes to the
/// component that decides them.
pub struct Manager {
    admin: Principal,
    merchant_debitor_manager: Principal,
    user_delegate_wasm_hash: [u8; 32],
    merchants: Table<u64, Principal>,
    delegates: Table<(u64, Principal), Principal>,
}

impl View for Manager {
    type V = ManagerState;

    closed spec fn view(&self) -> ManagerState {
        ManagerState {
            admin: self.admin,
            merchant_debitor_manager: self.merchant_debitor_manager,
            user_delegate_wasm_hash: self.user_delegate_wasm_hash,
            merchants: self.merchants@,
            delegates: self.delegates@,
        }
    }
}

impl Manager {
    /// A manager with the given administrator and links, no merchant and no
    /// delegate.
    pub fn new(
        admin: Principal,
        merchant_debitor_manager: Principal,
        user_delegate_wasm_hash: [u8; 32],
    ) -> (manager: Manager)
        ensures
            manager@ == (ManagerState {
                admin,
                merchant_debitor_manager,
                user_delegate_wasm_hash,
                merchants: Map::empty(),
                delegates: Map::empty(),
            }),
    {
        Manager {
            admin,
            merchant_debitor_manager,
            user_delegate_wasm_hash,
            merchants: Table::new(),
            delegates: Table::new(),
        }
    }

    /// This manager with `merchant` registered with the payout destination
    /// `destination`: a record that was stored earlier, put back without
    /// asking for anybody's approval.
    pub fn with_merchant(self, merchant: u64, destination: Principal) -> (manager: Manager)
        ensures
            manager@ == (ManagerState {
                merchants: self@.merchants.insert(merchant, destination),
                ..self@
            }),
    {
        let mut manager = self;
        manager.merchants.insert(merchant, destination);
        manager
    }

    /// This manager with the delegate of `(merchant, user)` registered at
    /// `address`: a record that was stored earlier, put back without asking
    /// for anybody's approval.
    pub fn with_user_delegate(self, merchant: u64, user: Principal, address: Principal) -> (manager:
        Manager)
        ensures
            manager@ == (ManagerState {
                delegates: self@.delegates.insert((merchant, user), address),
                ..self@
            }),
    {
        let mut manager = self;
        manager.delegates.insert((merchant, user), address);
        manager
    }

    /// Registers `merchant` with the payout destination `destination`, in
    /// place of an earlier one. Fails, and changes nothing, unless the
    /// administrator approved the call.
    pub fn add_merchant(
        &mut self,
        approvals: &Approvals,
        merchant: u64,
        destination: Principal,
    ) -> (result: Result<(), ManagerError>)
        ensures
            result == old(self)@.merchant_result(approvals@),
            final(self)@ == old(self)@.after_merchant(approvals@, merchant, destination),
    {
        if !approvals.approves(&self.admin) {
            return Err(ManagerError::Unauthorized);
        }
        self.merchants.insert(merchant, destination);
        Ok(())
    }

    /// Why a deployment for `(merchant, user)` would be refused, if it would
    /// be. The manager does not change.
    pub fn check_deployment(&self, approvals: &Approvals, merchant: u64, user: Principal) -> (refusal:
        Option<ManagerError>)
        ensures
            refusal == self@.deployment_refusal(approvals@, merchant, user),
    {
        if !approvals.approves(&self.admin) {
            Some(ManagerError::Unauthorized)
        } else if !self.merchants.contains(&merchant) {
            Some(ManagerError::MerchantNotConfigured)
        } else if self.delegates.contains(&(merchant, user)) {
            Some(ManagerError::DeploymentCollision)
        } else {
            None
        }
    }

    /// Registers the delegate of `(merchant, user)` at `address`, the
    /// address at which the ledger places an instance deployed under `salt`,
    /// and returns the instantiation to ask of the ledger.
    ///
    /// Fails, and changes nothing, when the administrator did not approve,
    /// when the merchant is not registered, and when the pair has a delegate
    /// already: the address of the first one stays.
    pub fn deploy_user_delegate(
        &mut self,
        approvals: &Approvals,
        merchant: u64,
        user: Principal,
        salt: [u8; 32],
        address: Principal,
    ) -> (result: Result<Deployment, ManagerError>)
        ensures
            result == old(self)@.deployment_result(approvals@, merchant, user, salt),
            final(self)@ == old(self)@.after_deployment(approvals@, merchant, user, address),
    {
        if let Some(error) = self.check_deployment(approvals, merchant, user) {
            return Err(error);
        }
        let destination = match self.merchants.get(&merchant) {
            Some(destination) => destination,
            None => {
                return Err(ManagerError::MerchantNotConfigured);
            },
        };
        self.delegates.insert((merchant, user), address);
        Ok(
            Deployment {
                wasm_hash: self.user_delegate_wasm_hash,
                salt,
                admin: self.admin,
                merchant_debitor_manager: self.merchant_debitor_manager,
                destination,
            },
        )
    }

    /// Has a delegate deployed for `(merchant, user)`: registers it at
    /// `address` and returns the instantiation to ask of the ledger, under
    /// the salt that is the digest of the serialized pair.
    ///
    /// `address` is the address at which the ledger places an instance that
    /// this manager deploys under that salt. The call fails, and changes
    /// nothing, when the administrator did not approve, when the merchant is
    /// not registered, and when the pair has a delegate already.
    pub fn add_user_delegate(
        &mut self,
        approvals: &Approvals,
        merchant: u64,
        user: Principal,
        address: Principal,
    ) -> (result: Result<Deployment, ManagerError>)
        ensures
            result == old(self)@.deployment_result(
                approvals@,
                merchant,
                user,
                deployment_salt(merchant, user),
            ),
            final(self)@ == old(self)@.after_deployment(approvals@, merchant, user, address),
    {
        let salt = delegate_salt(merchant, &user);
        self.deploy_user_delegate(approvals, merchant, user, salt, address)
    }

    /// The call to the policy store that puts `(merchant, debitor)` on the
    /// whitelist. The manager passes it on as it is: whether it is
    /// authorized is for the policy store to decide.
    pub fn add_merchant_debitor(&self, merchant: u64, debitor: Principal) -> (call: PolicyCall)
        ensures
            call == (PolicyCall {
                store: self@.merchant_debitor_manager,
                change: PolicyChange::Add,
                merchant,
                debitor,
            }),
    {
        PolicyCall {
            store: self.merchant_debitor_manager,
            change: PolicyChange::Add,
            merchant,
            debitor,
        }
    }

    /// The call to the policy store that takes `(merchant, debitor)` off the
    /// whitelist. The manager passes it on as it is.
    pub fn remove_merchant_debitor(&self, merchant: u64, debitor: Principal) -> (call: PolicyCall)
        ensures
            call == (PolicyCall {
                store: self@.merchant_debitor_manager,
                change: PolicyChange::Remove,
                merchant,
                debitor,
            }),
    {
        PolicyCall {
            store: self.merchant_debitor_manager,
            change: PolicyChange::Remove,
            merchant,
            debitor,
        }
    }

    /// Routes a debit to the delegate of `(merchant, user)`, with the
    /// arguments as they came. Fails when the pair has no delegate. The
    /// delegate decides the debit; the manager itself does not change.
    pub fn debit_user(
        &self,
        merchant: u64,
        debitor: Principal,
        user: Principal,
        token: Principal,
        amount: i128,
    ) -> (result: Result<DebitCall, ManagerError>)
        ensures
            result == self@.debit_route(merchant, debitor, user, token, amount),
    {
        match self.delegates.get(&(merchant, user)) {
            Some(delegate) => Ok(DebitCall { delegate, merchant, debitor, user, token, amount }),
            None => Err(ManagerError::DelegateNotFound),
        }
    }

    /// The administrator recorded at construction.
    pub fn admin(&self) -> (admin: Principal)
        ensures
            admin == self@.admin,
    {
        self.admin
    }

    /// The policy store recorded at construction.
    pub fn merchant_debitor_manager(&self) -> (store: Principal)
        ensures
            store == self@.merchant_debitor_manager,
    {
        self.merchant_debitor_manager
    }

    /// The code of the delegates, recorded at construction.
    pub fn user_delegate_wasm_hash(&self) -> (wasm_hash: [u8; 32])
        ensures
            wasm_hash == self@.user_delegate_wasm_hash,
    {
        self.user_delegate_wasm_hash
    }

    /// The payout destination of `merchant`, if it is registered.
    pub fn merchant_destination(&self, merchant: u64) -> (destination: Option<Principal>)
        ensures
            destination == (if self@.merchants.contains_key(merchant) {
                Some(self@.merchants[merchant])
            } else {
                None
            }),
    {
        self.merchants.get(&merchant)
    }

    /// The address of the delegate of `(merchant, user)`, if it has one.
    pub fn user_delegate(&self, merchant: u64, user: Principal) -> (delegate: Option<Principal>)
        ensures
            delegate == (if self@.delegates.contains_key((merchant, user)) {
                Some(self@.delegates[(merchant, user)])
            } else {
                None
            }),
    {
        self.delegates.get(&(merchant, user))
    }
}

} // verus!
