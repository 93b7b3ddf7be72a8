use vstd::prelude::*;

verus! {

/// The two sorts of identity that the ledger can address.
#[derive(Clone, Copy, Debug, PartialEq, Eq, Hash)]
pub enum PrincipalKind {
    /// An account, named by its ed25519 public key.
    Account,
    /// A contract instance, named by its 32-byte identifier.
    Contract,
}

/// An addressable identity: a user, a merchant's payout destination, an
/// administrator, a debitor, an asset or a contract instance.
///
/// Two principals are the same exactly when their kind and their 32 key bytes
/// agree; every value of the type stands for an address of the ledger.
#[derive(Clone, Copy, Debug, PartialEq, Eq, Hash)]
pub struct Principal {
    pub kind: PrincipalKind,
    pub key: [u8; 32],
}

impl Principal {
    /// The account with the public key `key`.
    pub fn account(key: [u8; 32]) -> (p: Principal)
        ensures
            p == (Principal { kind: PrincipalKind::Account, key }),
    {
        Principal { kind: PrincipalKind::Account, key }
    }

    /// The contract instance with the identifier `key`.
    pub fn contract(key: [u8; 32]) -> (p: Principal)
        ensures
            p == (Principal { kind: PrincipalKind::Contract, key }),
    {
        Principal { kind: PrincipalKind::Contract, key }
    }

    /// Whether this principal is a contract instance.
    pub fn is_contract(&self) -> (b: bool)
        ensures
            b == (self.kind is Contract),
    {
        match self.kind {
            PrincipalKind::Contract => true,
            PrincipalKind::Account => false,
        }
    }

    /// Whether `self` and `other` are the same principal.
    pub fn same(&self, other: &Principal) -> (b: bool)
        ensures
            b == (*self == *other),
    {
        if self.is_contract() != other.is_contract() {
            return false;
        }
        let mut i: usize = 0;
        while i < 32
            invariant
                i <= 32,
                forall|j: int| 0 <= j < i ==> self.key[j] == other.key[j],
            decreases 32 - i,
        {
            if self.key[i] != other.key[i] {
                return false;
            }
            i += 1;
        }
        assert(self.key =~= other.key);
        true
    }
}

} // verus!
