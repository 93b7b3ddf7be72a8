use vstd::prelude::*;
use crate::approvals::Approvals;
use crate::principal::Principal;
use crate::table::Table;

verus! {

/// Why a delegate refused a call.
#[derive(Clone, Copy, Debug, PartialEq, Eq)]
pub enum UserDelegateError {
    /// A required approval is missing, the debitor is not whitelisted, or no
    /// transfer limit is configured for the user and the asset.
    Unauthorized,
    /// The amount is above the configured limit for one transfer.
    TransferLimitExceeded,
}

/// The one transfer that a successful debit asks of the asset's contract:
/// `transfer_from` with the delegate itself as spender.
#[derive(Clone, Copy, Debug, PartialEq, Eq)]
pub struct Transfer {
    /// The asset whose contract carries out the transfer.
    pub token: Principal,
    /// The user whose balance is debited.
    pub from: Principal,
    /// The merchant's payout destination.
    pub to: Principal,
    pub amount: i128,
}

/// What a delegate holds: its links, fixed at construction, and the limit
/// for one transfer of each configured `(user, asset)` pair.
pub struct DelegateState {
    pub admin: Principal,
    pub manager: Principal,
    pub merchant_debitor_manager: Principal,
    pub destination: Principal,
    pub limits: Map<(Principal, Principal), i128>,
}

impl DelegateState {
    /// What a call that sets a transfer limit returns: it succeeds exactly
    /// when the administrator is among those who approved it.
    pub open spec fn limit_result(self, approvals: Set<Principal>) -> Result<
        (),
        UserDelegateError,
    > {
        if approvals.contains(self.admin) {
            Ok(())
        } else {
            Err(UserDelegateError::Unauthorized)
        }
    }

    /// The state after a call of `add_user_delegate`.
    pub open spec fn after_limit(
        self,
        approvals: Set<Principal>,
        user: Principal,
        token: Principal,
        per_transfer_limit: i128,
    ) -> DelegateState {
        if approvals.contains(self.admin) {
            DelegateState { limits: self.limits.insert((user, token), per_transfer_limit), ..self }
        } else {
            self
        }
    }

    /// Whether a debit is authorized at all: the debitor approved the call,
    /// the policy store has the debitor on its whitelist, and a limit is
    /// configured for the user and the asset. A missing limit authorizes
    /// nothing.
    pub open spec fn debit_authorized(
        self,
        approvals: Set<Principal>,
        allowed: bool,
        debitor: Principal,
        user: Principal,
        token: Principal,
    ) -> bool {
        &&& approvals.contains(debitor)
        &&& allowed
        &&& self.limits.contains_key((user, token))
    }

    /// What a debit returns: the transfer to carry out, or the reason why
    /// there is none.
    pub open spec fn debit_result(
        self,
        approvals: Set<Principal>,
        allowed: bool,
        debitor: Principal,
        user: Principal,
        token: Principal,
        amount: i128,
    ) -> Result<Transfer, UserDelegateError> {
        if !self.debit_authorized(approvals, allowed, debitor, user, token) {
            Err(UserDelegateError::Unauthorized)
        } else if amount > self.limits[(user, token)] {
            Err(UserDelegateError::TransferLimitExceeded)
        } else {
            Ok(Transfer { token, from: user, to: self.destination, amount })
        }
    }
}

/// A delegate: the component that holds the transfer limits of a merchant's
/// users and turns an authorized debit into a transfer to the merchant's
/// payout destination.
pub struct UserDelegate {
    admin: Principal,
    manager: Principal,
    merchant_debitor_manager: Principal,
    destination: Principal,
    limits: Table<(Principal, Principal), i128>,
}

impl View for UserDelegate {
    type V = DelegateState;

    closed spec fn view(&self) -> DelegateState {
        DelegateState {
            admin: self.admin,
            manager: self.manager,
            merchant_debitor_manager: self.merchant_debitor_manager,
            destination: self.destination,
            limits: self.limits@,
        }
    }
}

impl UserDelegate {
    /// A delegate with the given links and no transfer limit.
    pub fn new(
        admin: Principal,
        manager: Principal,
        merchant_debitor_manager: Principal,
        destination: Principal,
    ) -> (delegate: UserDelegate)
        ensures
            delegate@ == (DelegateState {
                admin,
                manager,
                merchant_debitor_manager,
                destination,
                limits: Map::empty(),
            }),
    {
        UserDelegate { admin, manager, merchant_debitor_manager, destination, limits: Table::new() }
    }

    /// This delegate with the limit for one transfer of `token` from `user`
    /// set to `per_transfer_limit`: a record that was stored earlier, put
    /// back without asking for anybody's approval.
    pub fn with_transfer_limit(
        self,
        user: Principal,
        token: Principal,
        per_transfer_limit: i128,
    ) -> (delegate: UserDelegate)
        ensures
            delegate@ == (DelegateState {
                limits: self@.limits.insert((user, token), per_transfer_limit),
                ..self@
            }),
    {
        let mut delegate = self;
        delegate.limits.insert((user, token), per_transfer_limit);
        delegate
    }

    /// Constructs a delegate at its deployment: one with the given links and
    /// no transfer limit. Fails unless `admin` approved the call.
    pub fn construct(
        approvals: &Approvals,
        admin: Principal,
        manager: Principal,
        merchant_debitor_manager: Principal,
        destination: Principal,
    ) -> (result: Result<UserDelegate, UserDelegateError>)
        ensures
            match result {
                Ok(delegate) => approvals@.contains(admin) && delegate@ == (DelegateState {
                    admin,
                    manager,
                    merchant_debitor_manager,
                    destination,
                    limits: Map::empty(),
                }),
                Err(error) => !approvals@.contains(admin) && error
                    == UserDelegateError::Unauthorized,
            },
    {
        if !approvals.approves(&admin) {
            return Err(UserDelegateError::Unauthorized);
        }
        Ok(UserDelegate::new(admin, manager, merchant_debitor_manager, destination))
    }

    /// Sets the limit for one transfer of `token` from `user`, in place of
    /// an earlier one. Fails, and changes nothing, unless the administrator
    /// approved the call.
    pub fn add_user_delegate(
        &mut self,
        approvals: &Approvals,
        user: Principal,
        token: Principal,
        per_transfer_limit: i128,
    ) -> (result: Result<(), UserDelegateError>)
        ensures
            result == old(self)@.limit_result(approvals@),
            final(self)@ == old(self)@.after_limit(approvals@, user, token, per_transfer_limit),
    {
        if !approvals.approves(&self.admin) {
            return Err(UserDelegateError::Unauthorized);
        }
        self.limits.insert((user, token), per_transfer_limit);
        Ok(())
    }

    /// Decides a debit of `amount` of `token` from `user` by `debitor`.
    ///
    /// `allowed` is the answer of the linked policy store to the question
    /// whether the debitor is on the merchant's whitelist. The debit is
    /// refused as unauthorized unless the debitor approved the call, the
    /// answer is yes and a limit is configured for `(user, token)`; it is
    /// refused as over the limit when `amount` is above that limit. Else the
    /// result is the one transfer to carry out, from the user to the payout
    /// destination. The delegate itself does not change.
    pub fn debit(
        &self,
        approvals: &Approvals,
        allowed: bool,
        debitor: Principal,
        user: Principal,
        token: Principal,
        amount: i128,
    ) -> (result: Result<Transfer, UserDelegateError>)
        ensures
            result == self@.debit_result(approvals@, allowed, debitor, user, token, amount),
    {
        if !approvals.approves(&debitor) {
            return Err(UserDelegateError::Unauthorized);
        }
        if !allowed {
            return Err(UserDelegateError::Unauthorized);
        }
        match self.limits.get(&(user, token)) {
            None => Err(UserDelegateError::Unauthorized),
            Some(per_transfer_limit) => {
                if amount > per_transfer_limit {
                    Err(UserDelegateError::TransferLimitExceeded)
                } else {
                    Ok(Transfer { token, from: user, to: self.destination, amount })
                }
            },
        }
    }

    /// The hook by which the ledger asks the delegate, as a custom account,
    /// whether it authorizes the invocation with the given signature payload.
    ///
    /// It approves every request. This stands in for a signature scheme that
    /// is yet to be chosen: a delegate that is deployed with this hook lets
    /// anybody act in its name.
    pub fn check_auth(&self, _signature_payload: [u8; 32]) -> (result: Result<
        (),
        UserDelegateError,
    >)
        ensures
            result is Ok,
    {
        Ok(())
    }

    /// The administrator recorded at construction.
    pub fn admin(&self) -> (admin: Principal)
        ensures
            admin == self@.admin,
    {
        self.admin
    }

    /// The manager recorded at construction.
    pub fn manager(&self) -> (manager: Principal)
        ensures
            manager == self@.manager,
    {
        self.manager
    }

    /// The policy store that answers for the whitelist.
    pub fn merchant_debitor_manager(&self) -> (store: Principal)
        ensures
            store == self@.merchant_debitor_manager,
    {
        self.merchant_debitor_manager
    }

    /// The payout destination that every transfer goes to.
    pub fn destination(&self) -> (destination: Principal)
        ensures
            destination == self@.destination,
    {
        self.destination
    }

    /// The limit configured for one transfer of `token` from `user`.
    pub fn transfer_limit(&self, user: Principal, token: Principal) -> (limit: Option<i128>)
        ensures
            limit == (if self@.limits.contains_key((user, token)) {
                Some(self@.limits[(user, token)])
            } else {
                None
            }),
    {
        self.limits.get(&(user, token))
    }
}

} // verus!
