use vstd::prelude::*;
use crate::principal::Principal;

verus! {

/// The authorization proofs that accompany one call: the principals that
/// have approved it.
///
/// The ledger checks signatures before a call reaches a component. What a
/// component sees is this set, and it asks of it whether a given principal
/// is among those who approved.
pub struct Approvals {
    signers: Vec<Principal>,
}

impl View for Approvals {
    type V = Set<Principal>;

    closed spec fn view(&self) -> Set<Principal> {
        self.signers@.to_set()
    }
}

impl Approvals {
    /// A call that nobody approved.
    pub fn none() -> (approvals: Approvals)
        ensures
            approvals@ == Set::<Principal>::empty(),
    {
        let approvals = Approvals { signers: Vec::new() };
        assert(approvals@ =~= Set::<Principal>::empty());
        approvals
    }

    /// A call that `signer` alone approved.
    pub fn of(signer: Principal) -> (approvals: Approvals)
        ensures
            approvals@ == Set::<Principal>::empty().insert(signer),
    {
        Approvals::none().and(signer)
    }

    /// These approvals together with that of `signer`.
    pub fn and(self, signer: Principal) -> (approvals: Approvals)
        ensures
            approvals@ == self@.insert(signer),
    {
        let mut signers = self.signers;
        let ghost before = signers@;
        signers.push(signer);
        let approvals = Approvals { signers };
        proof {
            assert forall|p: Principal| approvals@.contains(p) <==> before.to_set().insert(
                signer,
            ).contains(p) by {
                if before.push(signer).contains(p) {
                    let i = choose|i: int| 0 <= i < before.len() + 1 && before.push(signer)[i] == p;
                    if i < before.len() {
                        assert(before[i] == p);
                    }
                }
                if before.contains(p) {
                    let i = choose|i: int| 0 <= i < before.len() && before[i] == p;
                    assert(before.push(signer)[i] == p);
                }
                if p == signer {
                    assert(before.push(signer)[before.len() as int] == p);
                }
            }
            assert(approvals@ =~= before.to_set().insert(signer));
        }
        approvals
    }

    /// Whether `principal` approved the call.
    pub fn approves(&self, principal: &Principal) -> (approved: bool)
        ensures
            approved == self@.contains(*principal),
    {
        let mut i: usize = 0;
        while i < self.signers.len()
            invariant
                i <= self.signers@.len(),
                forall|j: int| 0 <= j < i ==> self.signers@[j] != *principal,
            decreases self.signers@.len() - i,
        {
            if self.signers[i].same(principal) {
                assert(self.signers@.contains(*principal));
                return true;
            }
            i += 1;
        }
        assert(!self.signers@.contains(*principal));
        false
    }
}

} // verus!
