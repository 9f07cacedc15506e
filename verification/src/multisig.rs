use vstd::prelude::*;

use crate::constants::{MAX_MULTISIG_OPERATIONS, MAX_MULTISIG_SIGNERS};
use crate::error::EscrowError;
use crate::escrow::LiquifactEscrow;
use crate::admin::{flag, flag_of};
use crate::events::{Event, InvestorPayoutClaimed, LegalHoldChangedMultisig};
use crate::types::{AccountId, Invocation, MultisigPolicy, Transfer};

verus! {

broadcast use vstd::std_specs::hash::group_hash_axioms;

/// Whether some address occurs twice in `s`.
pub open spec fn has_duplicate(s: Seq<AccountId>) -> bool {
    exists|i: int, j: int| 0 <= i < j < s.len() && s[i] == s[j]
}

/// Why a multisig policy is rejected, if it is: 1 to [`MAX_MULTISIG_OPERATIONS`]
/// operations, 1 to [`MAX_MULTISIG_SIGNERS`] distinct signers, and a threshold
/// between 1 and the number of signers.
pub open spec fn policy_error(operations: nat, signers: Seq<AccountId>, threshold: u32) -> Option<EscrowError> {
    if operations == 0 || operations > MAX_MULTISIG_OPERATIONS {
        Some(EscrowError::MultisigOperationsListEmpty)
    } else if signers.len() == 0 || signers.len() > MAX_MULTISIG_SIGNERS || has_duplicate(signers) {
        Some(EscrowError::MultisigSignerListInvalid)
    } else if threshold == 0 || threshold > signers.len() {
        Some(EscrowError::MultisigThresholdInvalid)
    } else {
        None
    }
}

/// Whether signer `i` of `signers` is refused: not a member of `members`, or listed
/// earlier already.
pub open spec fn bad_signer(signers: Seq<AccountId>, members: Seq<AccountId>, i: int) -> bool {
    !members.contains(signers[i]) || exists|j: int| 0 <= j < i && signers[j] == signers[i]
}

impl LiquifactEscrow {
    /// Whether the configured policy covers operation `op`.
    pub open spec fn covers(self, op: Seq<char>) -> bool {
        self.multisig_policy matches Some(p) && exists|i: int| 0 <= i < p.operations@.len() && (#[trigger] p.operations@[i])@ == op
    }

    /// Why the multisig gate of `op` refuses `signers`, if it does. Without a policy
    /// covering `op` nothing is checked (the admin signs instead).
    pub open spec fn multisig_error(self, op: Seq<char>, signers: Seq<AccountId>) -> Option<EscrowError> {
        if !self.covers(op) {
            None
        } else if signers.len() < self.multisig_policy->Some_0.threshold {
            Some(EscrowError::MultisigInsufficientSigners)
        } else if exists|i: int| 0 <= i < signers.len() && bad_signer(signers, self.multisig_policy->Some_0.signers@, i) {
            Some(EscrowError::MultisigSignerNotAuthorized)
        } else {
            None
        }
    }

    /// Who must authorize an operation gated by `op`: the signers when a policy covers
    /// it, else the admin.
    pub open spec fn multisig_auths(self, op: Seq<char>, signers: Seq<AccountId>) -> Seq<AccountId> {
        if self.covers(op) {
            signers
        } else {
            seq![self.esc().admin]
        }
    }

    /// Check the multisig gate of operation `op`.
    pub(crate) fn check_multisig(&self, op: &String, signers: &Vec<AccountId>) -> (r: Result<(), EscrowError>)
        ensures
            match r {
                Ok(()) => self.multisig_error(op@, signers@) is None,
                Err(e) => self.multisig_error(op@, signers@) == Some(e),
            },
    {
        let p = match &self.multisig_policy {
            Some(p) => p,
            None => {
                return Ok(());
            },
        };
        let mut covered = false;
        let no = p.operations.len();
        let mut k: usize = 0;
        while k < no
            invariant
                no == p.operations@.len(),
                0 <= k <= no,
                covered == exists|i: int| 0 <= i < k && (#[trigger] p.operations@[i])@ == op@,
            decreases no - k,
        {
            if p.operations[k] == *op {
                covered = true;
            }
            k += 1;
        }
        if !covered {
            return Ok(());
        }
        assert(self.covers(op@));
        let n = signers.len();
        if n < p.threshold as usize {
            return Err(EscrowError::MultisigInsufficientSigners);
        }
        let ns = p.signers.len();
        let mut i: usize = 0;
        while i < n
            invariant
                n == signers@.len(),
                ns == p.signers@.len(),
                0 <= i <= n,
                self.covers(op@),
                self.multisig_policy == Some(*p),
                n >= p.threshold,
                forall|a: int| 0 <= a < i ==> !bad_signer(signers@, p.signers@, a),
            decreases n - i,
        {
            let s = signers[i];
            let mut member = false;
            let mut j: usize = 0;
            while j < ns
                invariant
                    ns == p.signers@.len(),
                    0 <= j <= ns,
                    member == exists|b: int| 0 <= b < j && p.signers@[b] == s,
                decreases ns - j,
            {
                if p.signers[j] == s {
                    member = true;
                }
                j += 1;
            }
            if !member {
                assert(bad_signer(signers@, p.signers@, i as int));
                return Err(EscrowError::MultisigSignerNotAuthorized);
            }
            let mut j2: usize = 0;
            while j2 < i
                invariant
                    0 <= j2 <= i < n,
                    n == signers@.len(),
                    self.covers(op@),
                    self.multisig_policy == Some(*p),
                    n >= p.threshold,
                    s == signers@[i as int],
                    forall|b: int| 0 <= b < j2 ==> signers@[b] != s,
                decreases i - j2,
            {
                if signers[j2] == s {
                    assert(bad_signer(signers@, p.signers@, i as int));
                    return Err(EscrowError::MultisigSignerNotAuthorized);
                }
                j2 += 1;
            }
            assert(p.signers@.contains(s));
            i += 1;
        }
        Ok(())
    }

    /// Configure the multisig policy (admin-authorized): the listed operations then
    /// need `threshold` distinct signers out of `signers`.
    pub fn init_multisig_policy(&mut self, call: &mut Invocation, operations: Vec<String>, signers: Vec<AccountId>, threshold: u32) -> (r: Result<(), EscrowError>)
        ensures
            match r {
                Ok(()) => old(self).admin_gate_error() is None && policy_error(operations@.len(), signers@, threshold) is None
                    && *final(self) == (LiquifactEscrow { multisig_policy: Some(MultisigPolicy { operations, signers, threshold }), ..*old(self) })
                    && final(call).extends(*old(call), seq![old(self).esc().admin], seq![]),
                Err(e) => (if old(self).admin_gate_error() is Some {
                        old(self).admin_gate_error() == Some(e)
                    } else {
                        policy_error(operations@.len(), signers@, threshold) == Some(e)
                    })
                    && *final(self) == *old(self) && *final(call) == *old(call),
            },
    {
        let admin = match self.admin_gate() {
            Ok(a) => a,
            Err(e) => {
                return Err(e);
            },
        };
        if operations.len() == 0 || operations.len() > MAX_MULTISIG_OPERATIONS as usize {
            return Err(EscrowError::MultisigOperationsListEmpty);
        }
        let n = signers.len();
        if n == 0 || n > MAX_MULTISIG_SIGNERS as usize {
            return Err(EscrowError::MultisigSignerListInvalid);
        }
        let mut j: usize = 1;
        while j < n
            invariant
                n == signers@.len(),
                1 <= j <= n,
                n <= MAX_MULTISIG_SIGNERS,
                0 < operations@.len() <= MAX_MULTISIG_OPERATIONS,
                *self == *old(self),
                self.admin_gate_error() is None,
                forall|a: int, b: int| 0 <= a < b < j ==> signers@[a] != signers@[b],
            decreases n - j,
        {
            let mut i: usize = 0;
            while i < j
                invariant
                    n == signers@.len(),
                    0 <= i <= j < n,
                    n <= MAX_MULTISIG_SIGNERS,
                    0 < operations@.len() <= MAX_MULTISIG_OPERATIONS,
                    *self == *old(self),
                    self.admin_gate_error() is None,
                    forall|a: int, b: int| 0 <= a < b < j ==> signers@[a] != signers@[b],
                    forall|a: int| 0 <= a < i ==> signers@[a] != signers@[j as int],
                decreases j - i,
            {
                if signers[i] == signers[j] {
                    assert(has_duplicate(signers@));
                    return Err(EscrowError::MultisigSignerListInvalid);
                }
                i += 1;
            }
            j += 1;
        }
        assert(!has_duplicate(signers@));
        if threshold == 0 || threshold as usize > n {
            return Err(EscrowError::MultisigThresholdInvalid);
        }
        self.multisig_policy = Some(MultisigPolicy { operations, signers, threshold });
        call.require_auth(admin);
        Ok(())
    }

    /// Demand the authorizations that the multisig gate of `op` asks for.
    fn demand_multisig_auths(&self, call: &mut Invocation, op: &String, signers: &Vec<AccountId>)
        requires
            self.escrow is Some,
        ensures
            final(call).extends(*old(call), self.multisig_auths(op@, signers@), seq![]),
    {
        let mut covered = false;
        match &self.multisig_policy {
            Some(p) => {
                let no = p.operations.len();
                let mut k: usize = 0;
                while k < no
                    invariant
                        no == p.operations@.len(),
                        0 <= k <= no,
                        covered == exists|i: int| 0 <= i < k && (#[trigger] p.operations@[i])@ == op@,
                    decreases no - k,
                {
                    if p.operations[k] == *op {
                        covered = true;
                    }
                    k += 1;
                }
            },
            None => {},
        }
        if covered {
            let n = signers.len();
            let mut i: usize = 0;
            assert(call.auths@ =~= old(call).auths@ + signers@.take(0));
            assert(call.transfers@ =~= old(call).transfers@ + Seq::<Transfer>::empty());
            while i < n
                invariant
                    n == signers@.len(),
                    0 <= i <= n,
                    call.extends(*old(call), signers@.take(i as int), seq![]),
                decreases n - i,
            {
                call.require_auth(signers[i]);
                assert(signers@.take(i + 1) =~= signers@.take(i as int).push(signers@[i as int]));
                assert(call.auths@ =~= old(call).auths@ + signers@.take(i + 1));
                assert(call.transfers@ =~= old(call).transfers@ + Seq::<Transfer>::empty());
                i += 1;
            }
            assert(signers@.take(n as int) =~= signers@);
        } else {
            let admin = match &self.escrow {
                Some(e) => e.admin,
                None => 0,
            };
            call.require_auth(admin);
        }
    }

    /// The first guard that refuses `set_legal_hold_multisig(signers, active, ..)` at
    /// `now`.
    pub open spec fn legal_hold_multisig_error(self, signers: Seq<AccountId>, active: bool, now: u64) -> Option<EscrowError> {
        if self.escrow is None {
            Some(EscrowError::EscrowNotInitialized)
        } else if self.multisig_error("legal_hold"@, signers) is Some {
            self.multisig_error("legal_hold"@, signers)
        } else {
            self.hold_clear_error(active, now)
        }
    }

    /// Set or lift the compliance hold under the multisig gate of operation
    /// `"legal_hold"` (the signers, or the admin when no policy covers it, authorize),
    /// with the same clear-delay gate as [`Self::set_legal_hold`]. Any pending clear
    /// request is consumed. The reason is not stored.
    pub fn set_legal_hold_multisig(&mut self, call: &mut Invocation, signers: Vec<AccountId>, active: bool, reason: String) -> (r: Result<(), EscrowError>)
        ensures
            match r {
                Ok(()) => old(self).legal_hold_multisig_error(signers@, active, old(call).timestamp) is None
                    && *final(self) == (LiquifactEscrow { legal_hold: active, legal_hold_clearable_at: None, ..*old(self) })
                    && (final(call).emits(*old(call), old(self).multisig_auths("legal_hold"@, signers@), seq![],
                        seq![Event::LegalHoldChangedMultisig(LegalHoldChangedMultisig {
                            invoice_id: old(self).esc().invoice_id,
                            active: flag(active),
                            reason,
                            signer_count: signers@.len() as u32,
                        })])),
                Err(e) => old(self).legal_hold_multisig_error(signers@, active, old(call).timestamp) == Some(e)
                    && *final(self) == *old(self) && *final(call) == *old(call),
            },
    {
        if self.escrow.is_none() {
            return Err(EscrowError::EscrowNotInitialized);
        }
        let op = "legal_hold".to_owned();
        match self.check_multisig(&op, &signers) {
            Ok(()) => {},
            Err(e) => {
                return Err(e);
            },
        }
        if !active && self.legal_hold && self.legal_hold_clear_delay > 0 {
            match self.legal_hold_clearable_at {
                None => {
                    return Err(EscrowError::LegalHoldClearRequestMissing);
                },
                Some(c) => if call.timestamp < c {
                    return Err(EscrowError::LegalHoldClearNotReady);
                },
            }
        }
        self.demand_multisig_auths(call, &op, &signers);
        self.legal_hold_clearable_at = None;
        self.legal_hold = active;
        let e = self.escrow_record();
        call.emit(Event::LegalHoldChangedMultisig(LegalHoldChangedMultisig {
            invoice_id: e.invoice_id,
            active: flag_of(active),
            reason,
            signer_count: signers.len() as u32,
        }));
        Ok(())
    }

    /// The first guard that refuses `release_large_claim_multisig(signers, investor)` at
    /// `now`.
    pub open spec fn large_claim_error(self, signers: Seq<AccountId>, investor: AccountId, now: u64) -> Option<EscrowError> {
        if self.legal_hold {
            Some(EscrowError::LegalHoldBlocksInvestorClaims)
        } else if self.dispute_active(now) {
            Some(EscrowError::DisputePausedBlocksInvestorClaims)
        } else if self.escrow is None {
            Some(EscrowError::EscrowNotInitialized)
        } else if self.multisig_error("large_claim"@, signers) is Some {
            self.multisig_error("large_claim"@, signers)
        } else if self.pos(investor).contribution <= 0 {
            Some(EscrowError::NoContributionToClaim)
        } else if !self.claims_open() {
            Some(EscrowError::InvestorClaimNotSettled)
        } else if self.payout_result(investor) is Err {
            Some(self.payout_result(investor)->Err_0)
        } else {
            None
        }
    }

    /// Release `investor`'s payout under the multisig gate of operation
    /// `"large_claim"`: marks the investor claimed, once, records the settlement
    /// checkpoint, and returns the payout (also on a repeated release, which changes
    /// nothing).
    pub fn release_large_claim_multisig(&mut self, call: &mut Invocation, signers: Vec<AccountId>, investor: AccountId) -> (r: Result<i128, EscrowError>)
        ensures
            match r {
                Ok(payout) => old(self).large_claim_error(signers@, investor, old(call).timestamp) is None
                    && old(self).payout_result(investor) == Ok::<i128, EscrowError>(payout)
                    && (if old(self).pos(investor).claimed {
                        *final(self) == *old(self)
                    } else {
                        old(self).claim_recorded(*final(self), investor, old(call).timestamp)
                    })
                    && final(call).emits(*old(call), old(self).multisig_auths("large_claim"@, signers@), seq![], if old(self).pos(investor).claimed {
                        seq![]
                    } else {
                        seq![Event::InvestorPayoutClaimed(InvestorPayoutClaimed { investor, invoice_id: old(self).esc().invoice_id })]
                    }),
                Err(e) => old(self).large_claim_error(signers@, investor, old(call).timestamp) == Some(e)
                    && *final(self) == *old(self) && *final(call) == *old(call),
            },
    {
        let now = call.timestamp;
        if self.legal_hold {
            return Err(EscrowError::LegalHoldBlocksInvestorClaims);
        }
        if self.is_dispute_paused(now) {
            return Err(EscrowError::DisputePausedBlocksInvestorClaims);
        }
        if self.escrow.is_none() {
            return Err(EscrowError::EscrowNotInitialized);
        }
        let op = "large_claim".to_owned();
        match self.check_multisig(&op, &signers) {
            Ok(()) => {},
            Err(e) => {
                return Err(e);
            },
        }
        let p = self.investor_position(investor);
        if p.contribution <= 0 {
            return Err(EscrowError::NoContributionToClaim);
        }
        let status = self.escrow_record().status;
        if !(status == 2 || (status == 1 && self.settled_amount > 0)) {
            return Err(EscrowError::InvestorClaimNotSettled);
        }
        let payout = match self.compute_investor_payout(investor) {
            Ok(v) => v,
            Err(e) => {
                return Err(e);
            },
        };
        self.demand_multisig_auths(call, &op, &signers);
        let mut evs: Vec<Event> = Vec::new();
        if !p.claimed {
            let e = self.escrow_record();
            evs.push(Event::InvestorPayoutClaimed(InvestorPayoutClaimed { investor, invoice_id: e.invoice_id }));
            assert(evs@ =~= seq![Event::InvestorPayoutClaimed(InvestorPayoutClaimed { investor, invoice_id: old(self).esc().invoice_id })]);
            self.record_claim(investor, payout, now);
        }
        call.emit_all(evs);
        Ok(payout)
    }
}

} // verus!
