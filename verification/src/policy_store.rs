use vstd::prelude::*;
use crate::approvals::Approvals;
use crate::principal::Principal;
use crate::table::Table;

verus! {

/// Why the policy store refused a call.
#[derive(Clone, Copy, Debug, PartialEq, Eq)]
pub enum PolicyError {
    /// The recorded administrator did not approve the call.
    Unauthorized,
}

/// What a policy store holds: its administrator and the set of
/// `(merchant, debitor)` pairs that may currently debit.
pub struct PolicyState {
    pub admin: Principal,
    pub whitelist: Set<(u64, Principal)>,
}

impl PolicyState {
    /// Whether `debitor` may debit the users of `merchant`.
    pub open spec fn is_allowed(self, merchant: u64, debitor: Principal) -> bool {
        self.whitelist.contains((merchant, debitor))
    }

    /// What a call that changes the whitelist returns: it succeeds exactly
    /// when the administrator is among those who approved it.
    pub open spec fn change_result(self, approvals: Set<Principal>) -> Result<(), PolicyError> {
        if approvals.contains(self.admin) {
            Ok(())
        } else {
            Err(PolicyError::Unauthorized)
        }
    }

    /// The state after a call of `add_merchant_debitor`.
    pub open spec fn after_add(
        self,
        approvals: Set<Principal>,
        merchant: u64,
        debitor: Principal,
    ) -> PolicyState {
        if approvals.contains(self.admin) {
            PolicyState { admin: self.admin, whitelist: self.whitelist.insert((merchant, debitor)) }
        } else {
            self
        }
    }

    /// The state after a call of `remove_merchant_debitor`.
    pub open spec fn after_remove(
        self,
        approvals: Set<Principal>,
        merchant: u64,
        debitor: Principal,
    ) -> PolicyState {
        if approvals.contains(self.admin) {
            PolicyState { admin: self.admin, whitelist: self.whitelist.remove((merchant, debitor)) }
        } else {
            self
        }
    }
}

/// The policy store: for each merchant, the debitors that it has authorized.
///
/// Only the administrator recorded at construction can change the whitelist;
/// anybody can query it.
pub struct MerchantDebitorManager {
    admin: Principal,
    whitelist: Table<(u64, Principal), ()>,
}

impl View for MerchantDebitorManager {
    type V = PolicyState;

    closed spec fn view(&self) -> PolicyState {
        PolicyState { admin: self.admin, whitelist: self.whitelist@.dom() }
    }
}

impl MerchantDebitorManager {
    /// A policy store with the administrator `admin` and an empty whitelist.
    pub fn new(admin: Principal) -> (store: MerchantDebitorManager)
        ensures
            store@ == (PolicyState { admin, whitelist: Set::empty() }),
    {
        let store = MerchantDebitorManager { admin, whitelist: Table::new() };
        assert(store@.whitelist =~= Set::empty());
        store
    }

    /// This store with `(merchant, debitor)` on the whitelist: a record that
    /// was stored earlier, put back without asking for anybody's approval.
    pub fn with_merchant_debitor(self, merchant: u64, debitor: Principal) -> (store:
        MerchantDebitorManager)
        ensures
            store@ == (PolicyState {
                admin: self@.admin,
                whitelist: self@.whitelist.insert((merchant, debitor)),
            }),
    {
        let mut store = self;
        store.whitelist.insert((merchant, debitor), ());
        assert(store@.whitelist =~= self@.whitelist.insert((merchant, debitor)));
        store
    }

    /// The administrator recorded at construction.
    pub fn admin(&self) -> (admin: Principal)
        ensures
            admin == self@.admin,
    {
        self.admin
    }

    /// Puts `(merchant, debitor)` on the whitelist. A pair that is already
    /// there stays there. Fails, and changes nothing, unless the
    /// administrator approved the call.
    pub fn add_merchant_debitor(
        &mut self,
        approvals: &Approvals,
        merchant: u64,
        debitor: Principal,
    ) -> (result: Result<(), PolicyError>)
        ensures
            result == old(self)@.change_result(approvals@),
            final(self)@ == old(self)@.after_add(approvals@, merchant, debitor),
    {
        if !approvals.approves(&self.admin) {
            return Err(PolicyError::Unauthorized);
        }
        self.whitelist.insert((merchant, debitor), ());
        assert(self@.whitelist =~= old(self)@.whitelist.insert((merchant, debitor)));
        Ok(())
    }

    /// Takes `(merchant, debitor)` off the whitelist. A pair that is not
    /// there is no error. Fails, and changes nothing, unless the
    /// administrator approved the call.
    pub fn remove_merchant_debitor(
        &mut self,
        approvals: &Approvals,
        merchant: u64,
        debitor: Principal,
    ) -> (result: Result<(), PolicyError>)
        ensures
            result == old(self)@.change_result(approvals@),
            final(self)@ == old(self)@.after_remove(approvals@, merchant, debitor),
    {
        if !approvals.approves(&self.admin) {
            return Err(PolicyError::Unauthorized);
        }
        self.whitelist.remove(&(merchant, debitor));
        assert(self@.whitelist =~= old(self)@.whitelist.remove((merchant, debitor)));
        Ok(())
    }

    /// Whether `(merchant, debitor)` is on the whitelist. Needs nobody's
    /// approval.
    pub fn is_allowed(&self, merchant: u64, debitor: Principal) -> (allowed: bool)
        ensures
            allowed == self@.is_allowed(merchant, debitor),
    {
        self.whitelist.contains(&(merchant, debitor))
    }
}

} // verus!
