use soroban_sdk::Env;
use vstd::prelude::*;
use vstd::string::StringExecFns;

use crate::constants::{MAX_ADMIN_ROLES, SCHEMA_VERSION};
use crate::error::EscrowError;
use crate::escrow::LiquifactEscrow;
use crate::events::{AdminIsContractWarning, EscrowCloned, EscrowInitialized, Event};
use crate::merkle::{empty_merkle_root, empty_root};
use crate::types::{AccountId, AdminRole, Digest, InvoiceEscrow, Invocation, TokenMetadataCache, YieldTier};
use crate::validation::{invoice_id_error, tiers_error, tiers_view, validate_invoice_id, validate_yield_tiers_table};

verus! {

/// Whether some address occurs twice in a role table.
pub open spec fn has_duplicate_address(roles: Seq<(AccountId, AdminRole)>) -> bool {
    exists|i: int, j: int| 0 <= i < j < roles.len() && roles[i].0 == roles[j].0
}

/// Why a role table is rejected, if it is: it must hold 1 to [`MAX_ADMIN_ROLES`]
/// entries with distinct addresses.
pub open spec fn admin_roles_error(roles: Seq<(AccountId, AdminRole)>) -> Option<EscrowError> {
    if roles.len() == 0 || roles.len() > MAX_ADMIN_ROLES || has_duplicate_address(roles) {
        Some(EscrowError::InvalidAdminRoleList)
    } else {
        None
    }
}

/// Validate a role table (see [`admin_roles_error`]).
pub fn validate_admin_roles(roles: &Vec<(AccountId, AdminRole)>) -> (r: Result<(), EscrowError>)
    ensures
        match r {
            Ok(()) => admin_roles_error(roles@) is None,
            Err(e) => admin_roles_error(roles@) == Some(e),
        },
{
    let n = roles.len();
    if n == 0 || n > MAX_ADMIN_ROLES as usize {
        return Err(EscrowError::InvalidAdminRoleList);
    }
    let mut j: usize = 1;
    while j < n
        invariant
            n == roles@.len(),
            1 <= j <= n,
            forall|a: int, b: int| 0 <= a < b < j ==> roles@[a].0 != roles@[b].0,
        decreases n - j,
    {
        let mut i: usize = 0;
        while i < j
            invariant
                n == roles@.len(),
                0 <= i <= j < n,
                forall|a: int, b: int| 0 <= a < b < j ==> roles@[a].0 != roles@[b].0,
                forall|a: int| 0 <= a < i ==> roles@[a].0 != roles@[j as int].0,
            decreases j - i,
        {
            if roles[i].0 == roles[j].0 {
                assert(has_duplicate_address(roles@)) by {
                    assert(roles@[i as int].0 == roles@[j as int].0);
                }
                return Err(EscrowError::InvalidAdminRoleList);
            }
            i += 1;
        }
        j += 1;
    }
    assert(!has_duplicate_address(roles@));
    Ok(())
}

/// The arguments of [`LiquifactEscrow::init`], gathered for its specification, with
/// what the host read for it: whether `admin` is a contract and the funding token's
/// decimals.
pub struct InitArgs {
    pub admin: AccountId,
    pub invoice_id: String,
    pub sme_address: AccountId,
    pub amount: i128,
    pub yield_bps: i64,
    pub maturity: u64,
    pub funding_token: AccountId,
    pub registry: Option<AccountId>,
    pub treasury: AccountId,
    pub yield_tiers: Option<Vec<YieldTier>>,
    pub min_contribution: Option<i128>,
    pub max_unique_investors: Option<u32>,
    pub max_per_investor: Option<i128>,
    pub legal_hold_clear_delay: Option<u64>,
    pub funding_deadline: Option<u64>,
    pub max_funding_rate: Option<u64>,
    pub yield_slippage_threshold: Option<i64>,
    pub settlement_notifier_contract: Option<AccountId>,
    pub kyc_provider_contract: Option<AccountId>,
    pub admin_roles: Option<Vec<(AccountId, AdminRole)>>,
    pub reject_contract_admin: Option<bool>,
    pub admin_is_contract: bool,
    pub token_decimals: u32,
    pub empty_merkle_root: Digest,
}

/// The public state of a settled template escrow, read by the host for
/// [`LiquifactEscrow::clone_settled_escrow`].
pub struct CloneTemplate {
    pub escrow: InvoiceEscrow,
    pub funding_token: AccountId,
    pub treasury: AccountId,
    pub registry: Option<AccountId>,
    pub yield_tiers: Option<Vec<YieldTier>>,
    pub min_contribution_floor: i128,
    pub max_unique_investors_cap: Option<u32>,
    pub max_per_investor_cap: Option<i128>,
    pub legal_hold_clear_delay: u64,
    pub funding_deadline: Option<u64>,
}

impl LiquifactEscrow {
    /// The first guard that refuses `init` with `a` at ledger time `now`.
    pub open spec fn init_error(self, a: InitArgs, now: u64) -> Option<EscrowError> {
        if a.admin_is_contract && a.reject_contract_admin == Some(true) {
            Some(EscrowError::ContractAdminRejected)
        } else if a.amount <= 0 {
            Some(EscrowError::AmountMustBePositive)
        } else if !(0 <= a.yield_bps <= 10_000) {
            Some(EscrowError::YieldBpsOutOfRange)
        } else if self.escrow is Some {
            Some(EscrowError::EscrowAlreadyInitialized)
        } else if (a.funding_deadline matches Some(d) && d <= now) {
            Some(EscrowError::FundingDeadlinePassed)
        } else if tiers_error(tiers_view(a.yield_tiers), a.yield_bps) is Some {
            tiers_error(tiers_view(a.yield_tiers), a.yield_bps)
        } else if invoice_id_error(vstd::utf8::encode_utf8(a.invoice_id@)) is Some {
            invoice_id_error(vstd::utf8::encode_utf8(a.invoice_id@))
        } else if (a.admin_roles matches Some(r) && admin_roles_error(r@) is Some) {
            Some(EscrowError::InvalidAdminRoleList)
        } else if (a.min_contribution matches Some(f) && f <= 0) {
            Some(EscrowError::MinContributionNotPositive)
        } else if (a.min_contribution matches Some(f) && f > a.amount) {
            Some(EscrowError::MinContributionExceedsAmount)
        } else if (a.max_per_investor matches Some(c) && c <= 0) {
            Some(EscrowError::MaxPerInvestorNotPositive)
        } else if (a.max_unique_investors matches Some(c) && c == 0) {
            Some(EscrowError::MaxUniqueInvestorsNotPositive)
        } else if (a.yield_slippage_threshold matches Some(t) && t > 10_000) {
            Some(EscrowError::YieldSlippageThresholdOutOfRange)
        } else {
            None
        }
    }

    /// The escrow record written by `init`: open, nothing funded, target = amount.
    pub open spec fn init_record(a: InitArgs) -> InvoiceEscrow {
        InvoiceEscrow {
            invoice_id: a.invoice_id,
            admin: a.admin,
            sme_address: a.sme_address,
            amount: a.amount,
            funding_target: a.amount,
            funded_amount: 0,
            yield_bps: a.yield_bps,
            maturity: a.maturity,
            status: 0,
        }
    }

    /// The state after an accepted `init` with `a` at ledger time `now` and sequence
    /// `seq`. Optional settings are written only when given (and, for the delay and the
    /// slippage threshold, only when positive); an empty tier ladder is not stored.
    pub open spec fn initialized_state(self, new: Self, a: InitArgs, now: u64, seq: u32) -> bool {
        &&& new == (LiquifactEscrow {
            escrow: Some(Self::init_record(a)),
            version: SCHEMA_VERSION,
            version_history: new.version_history,
            funding_token: Some(a.funding_token),
            treasury: Some(a.treasury),
            token_cache: Some(TokenMetadataCache { decimals: a.token_decimals, cached_at_ledger_timestamp: now, cached_at_ledger_sequence: seq }),
            registry: if a.registry is Some { a.registry } else { self.registry },
            kyc_provider: if a.kyc_provider_contract is Some { a.kyc_provider_contract } else { self.kyc_provider },
            admin_roles: if a.admin_roles is Some { a.admin_roles } else { self.admin_roles },
            yield_tiers: match a.yield_tiers {
                Some(t) => if t@.len() > 0 { Some(t) } else { self.yield_tiers },
                None => self.yield_tiers,
            },
            min_contribution_floor: match a.min_contribution { Some(f) => f, None => 0 },
            unique_funder_count: 0,
            investor_index: new.investor_index,
            max_per_investor_cap: if a.max_per_investor is Some { a.max_per_investor } else { self.max_per_investor_cap },
            max_unique_investors_cap: if a.max_unique_investors is Some { a.max_unique_investors } else { self.max_unique_investors_cap },
            legal_hold_clear_delay: match a.legal_hold_clear_delay {
                Some(d) => if d > 0 { d } else { self.legal_hold_clear_delay },
                None => self.legal_hold_clear_delay,
            },
            yield_slippage_threshold: match a.yield_slippage_threshold {
                Some(t) => if t > 0 { t } else { self.yield_slippage_threshold },
                None => self.yield_slippage_threshold,
            },
            settlement_notifier: if a.settlement_notifier_contract is Some { a.settlement_notifier_contract } else { self.settlement_notifier },
            funding_deadline: if a.funding_deadline is Some { a.funding_deadline } else { self.funding_deadline },
            max_funding_rate: if a.max_funding_rate is Some { a.max_funding_rate } else { self.max_funding_rate },
            created_at: now,
            empty_merkle_root: Some(a.empty_merkle_root),
            ..self
        })
        &&& new.version_history@ == seq![(SCHEMA_VERSION, now)]
        &&& new.investor_index@.len() == 0
    }

    fn init_check(&self, a: &InitArgs, now: u64) -> (r: Result<(), EscrowError>)
        ensures
            match r {
                Ok(()) => self.init_error(*a, now) is None,
                Err(e) => self.init_error(*a, now) == Some(e),
            },
    {
        if a.admin_is_contract && a.reject_contract_admin == Some(true) {
            return Err(EscrowError::ContractAdminRejected);
        }
        if a.amount <= 0 {
            return Err(EscrowError::AmountMustBePositive);
        }
        if !(0 <= a.yield_bps && a.yield_bps <= 10_000) {
            return Err(EscrowError::YieldBpsOutOfRange);
        }
        if self.escrow.is_some() {
            return Err(EscrowError::EscrowAlreadyInitialized);
        }
        match a.funding_deadline {
            Some(d) => if d <= now {
                return Err(EscrowError::FundingDeadlinePassed);
            },
            None => {},
        }
        match validate_yield_tiers_table(&a.yield_tiers, a.yield_bps) {
            Ok(()) => {},
            Err(e) => {
                return Err(e);
            },
        }
        match validate_invoice_id(a.invoice_id.as_str()) {
            Ok(_) => {},
            Err(e) => {
                return Err(e);
            },
        }
        match &a.admin_roles {
            Some(r) => match validate_admin_roles(r) {
                Ok(()) => {},
                Err(e) => {
                    return Err(e);
                },
            },
            None => {},
        }
        match a.min_contribution {
            Some(f) => {
                if f <= 0 {
                    return Err(EscrowError::MinContributionNotPositive);
                }
                if f > a.amount {
                    return Err(EscrowError::MinContributionExceedsAmount);
                }
            },
            None => {},
        }
        match a.max_per_investor {
            Some(c) => if c <= 0 {
                return Err(EscrowError::MaxPerInvestorNotPositive);
            },
            None => {},
        }
        match a.max_unique_investors {
            Some(c) => if c == 0 {
                return Err(EscrowError::MaxUniqueInvestorsNotPositive);
            },
            None => {},
        }
        match a.yield_slippage_threshold {
            Some(t) => if t > 10_000 {
                return Err(EscrowError::YieldSlippageThresholdOutOfRange);
            },
            None => {},
        }
        Ok(())
    }

    #[verifier::rlimit(100)]
    fn init_apply(&mut self, a: InitArgs, now: u64, seq: u32)
        ensures
            old(self).initialized_state(*final(self), a, now, seq),
            final(self).escrow is Some,
    {
        let mut vh: Vec<(u32, u64)> = Vec::new();
        vh.push((SCHEMA_VERSION, now));
        assert(vh@ =~= seq![(SCHEMA_VERSION, now)]);
        let tiers = match a.yield_tiers {
            Some(t) => if t.len() > 0 {
                Some(t)
            } else {
                self.yield_tiers.take()
            },
            None => self.yield_tiers.take(),
        };
        let roles = if a.admin_roles.is_some() {
            a.admin_roles
        } else {
            self.admin_roles.take()
        };
        self.escrow = Some(InvoiceEscrow {
            invoice_id: a.invoice_id,
            admin: a.admin,
            sme_address: a.sme_address,
            amount: a.amount,
            funding_target: a.amount,
            funded_amount: 0,
            yield_bps: a.yield_bps,
            maturity: a.maturity,
            status: 0,
        });
        self.version = SCHEMA_VERSION;
        self.version_history = vh;
        self.funding_token = Some(a.funding_token);
        self.treasury = Some(a.treasury);
        self.token_cache = Some(TokenMetadataCache {
            decimals: a.token_decimals,
            cached_at_ledger_timestamp: now,
            cached_at_ledger_sequence: seq,
        });
        self.registry = if a.registry.is_some() { a.registry } else { self.registry };
        self.kyc_provider = if a.kyc_provider_contract.is_some() { a.kyc_provider_contract } else { self.kyc_provider };
        self.admin_roles = roles;
        self.yield_tiers = tiers;
        self.min_contribution_floor = match a.min_contribution {
            Some(f) => f,
            None => 0,
        };
        self.unique_funder_count = 0;
        self.investor_index = Vec::new();
        self.max_per_investor_cap = if a.max_per_investor.is_some() { a.max_per_investor } else { self.max_per_investor_cap };
        self.max_unique_investors_cap = if a.max_unique_investors.is_some() { a.max_unique_investors } else { self.max_unique_investors_cap };
        self.legal_hold_clear_delay = match a.legal_hold_clear_delay {
            Some(d) => if d > 0 { d } else { self.legal_hold_clear_delay },
            None => self.legal_hold_clear_delay,
        };
        self.yield_slippage_threshold = match a.yield_slippage_threshold {
            Some(t) => if t > 0 { t } else { self.yield_slippage_threshold },
            None => self.yield_slippage_threshold,
        };
        self.settlement_notifier = if a.settlement_notifier_contract.is_some() { a.settlement_notifier_contract } else { self.settlement_notifier };
        self.funding_deadline = if a.funding_deadline.is_some() { a.funding_deadline } else { self.funding_deadline };
        self.max_funding_rate = if a.max_funding_rate.is_some() { a.max_funding_rate } else { self.max_funding_rate };
        self.created_at = now;
        self.empty_merkle_root = Some(a.empty_merkle_root);
    }

    /// Initialize the escrow (admin-authorized): binds the funding token, the treasury
    /// and the optional registry, stores the invoice record (target = `amount`, status
    /// open) and the optional limits and providers.
    ///
    /// `maturity == 0` means no maturity lock. `admin_is_contract` and
    /// `token_decimals` come from the host: whether `admin` is a deployed contract and
    /// the funding token's decimals. The root of the empty investor tree, bound when
    /// funding closes, is hashed with the host `env`.
    pub fn init(
        &mut self,
        call: &mut Invocation,
        admin: AccountId,
        invoice_id: String,
        sme_address: AccountId,
        amount: i128,
        yield_bps: i64,
        maturity: u64,
        funding_token: AccountId,
        registry: Option<AccountId>,
        treasury: AccountId,
        yield_tiers: Option<Vec<YieldTier>>,
        min_contribution: Option<i128>,
        max_unique_investors: Option<u32>,
        max_per_investor: Option<i128>,
        legal_hold_clear_delay: Option<u64>,
        funding_deadline: Option<u64>,
        max_funding_rate: Option<u64>,
        yield_slippage_threshold: Option<i64>,
        settlement_notifier_contract: Option<AccountId>,
        kyc_provider_contract: Option<AccountId>,
        admin_roles: Option<Vec<(AccountId, AdminRole)>>,
        reject_contract_admin: Option<bool>,
        admin_is_contract: bool,
        token_decimals: u32,
        env: &Env,
    ) -> (r: Result<InvoiceEscrow, EscrowError>)
        ensures
            ({
                let a = InitArgs {
                    admin,
                    invoice_id,
                    sme_address,
                    amount,
                    yield_bps,
                    maturity,
                    funding_token,
                    registry,
                    treasury,
                    yield_tiers,
                    min_contribution,
                    max_unique_investors,
                    max_per_investor,
                    legal_hold_clear_delay,
                    funding_deadline,
                    max_funding_rate,
                    yield_slippage_threshold,
                    settlement_notifier_contract,
                    kyc_provider_contract,
                    admin_roles,
                    reject_contract_admin,
                    admin_is_contract,
                    token_decimals,
                    empty_merkle_root: final(self).empty_merkle_root->Some_0,
                };
                match r {
                    Ok(e) => old(self).init_error(a, old(call).timestamp) is None
                        && (final(self).empty_merkle_root matches Some(root) && root@ == empty_root())
                        && old(self).initialized_state(*final(self), a, old(call).timestamp, old(call).sequence)
                        && e == final(self).esc()
                        && final(call).emits(*old(call), seq![admin], seq![], final(call).events@.skip(old(call).events@.len() as int))
                        && Self::init_events(final(call).events@.skip(old(call).events@.len() as int), a, e),
                    Err(e) => old(self).init_error(a, old(call).timestamp) == Some(e)
                        && *final(self) == *old(self) && *final(call) == *old(call),
                }
            }),
    {
        let empty_merkle_root = empty_merkle_root(env);
        let a = InitArgs {
            admin,
            invoice_id,
            sme_address,
            amount,
            yield_bps,
            maturity,
            funding_token,
            registry,
            treasury,
            yield_tiers,
            min_contribution,
            max_unique_investors,
            max_per_investor,
            legal_hold_clear_delay,
            funding_deadline,
            max_funding_rate,
            yield_slippage_threshold,
            settlement_notifier_contract,
            kyc_provider_contract,
            admin_roles,
            reject_contract_admin,
            admin_is_contract,
            token_decimals,
            empty_merkle_root,
        };
        match self.init_check(&a, call.timestamp) {
            Ok(()) => {},
            Err(e) => {
                return Err(e);
            },
        }
        let funding_token = a.funding_token;
        let treasury = a.treasury;
        let registry = a.registry;
        let has_maturity_lock = a.maturity != 0;
        let ghost ga = a;
        self.init_apply(a, call.timestamp, call.sequence);
        call.require_auth(admin);
        let ghost mid = call.events@;
        if admin_is_contract {
            call.emit(Event::AdminIsContractWarning(AdminIsContractWarning { invoice_id: String::from_str("pending"), admin }));
        }
        let e = self.escrow_record();
        let ghost pre = call.events@;
        call.emit(Event::EscrowInitialized(EscrowInitialized { escrow: e.clone(), funding_token, treasury, registry, has_maturity_lock }));
        proof {
            let n = old(call).events@.len() as int;
            assert(old(call).events@ + call.events@.skip(n) =~= call.events@);
            if admin_is_contract {
                assert(call.events@.skip(n)[0] == pre[n]);
                assert(call.events@.skip(n)[1] == call.events@[n + 1]);
            } else {
                assert(call.events@.skip(n) =~= seq![call.events@[n]]);
            }
        }
        Ok(e)
    }

    /// The events published by a successful `init` with arguments `a` that stored `e`:
    /// a warning first when the admin is a deployed contract (its invoice id a
    /// placeholder), then the initialization record.
    pub open spec fn init_events(evs: Seq<Event>, a: InitArgs, e: InvoiceEscrow) -> bool {
        let inited = Event::EscrowInitialized(EscrowInitialized {
            escrow: e,
            funding_token: a.funding_token,
            treasury: a.treasury,
            registry: a.registry,
            has_maturity_lock: a.maturity != 0,
        });
        if a.admin_is_contract {
            &&& evs.len() == 2
            &&& evs[0] matches Event::AdminIsContractWarning(w) && w.admin == a.admin && w.invoice_id@ == "pending"@
            &&& evs[1] == inited
        } else {
            evs == seq![inited]
        }
    }

    /// The init arguments that cloning `t` for `new_invoice_id` and `new_amount`
    /// passes: the template's admin, SME, yield, maturity and configuration, with the
    /// new invoice and amount.
    pub open spec fn clone_args(t: CloneTemplate, new_invoice_id: String, new_amount: i128, token_decimals: u32, empty_merkle_root: Digest) -> InitArgs {
        InitArgs {
            admin: t.escrow.admin,
            invoice_id: new_invoice_id,
            sme_address: t.escrow.sme_address,
            amount: new_amount,
            yield_bps: t.escrow.yield_bps,
            maturity: t.escrow.maturity,
            funding_token: t.funding_token,
            registry: t.registry,
            treasury: t.treasury,
            yield_tiers: t.yield_tiers,
            min_contribution: if t.min_contribution_floor > 0 { Some(t.min_contribution_floor) } else { None },
            max_unique_investors: t.max_unique_investors_cap,
            max_per_investor: t.max_per_investor_cap,
            legal_hold_clear_delay: if t.legal_hold_clear_delay > 0 { Some(t.legal_hold_clear_delay) } else { None },
            funding_deadline: t.funding_deadline,
            max_funding_rate: None,
            yield_slippage_threshold: None,
            settlement_notifier_contract: None,
            kyc_provider_contract: None,
            admin_roles: None,
            reject_contract_admin: None,
            admin_is_contract: false,
            token_decimals,
            empty_merkle_root,
        }
    }

    /// The first guard that refuses cloning `t`.
    pub open spec fn clone_error(self, t: CloneTemplate, new_invoice_id: String, new_amount: i128, token_decimals: u32, empty_merkle_root: Digest, now: u64) -> Option<EscrowError> {
        if t.escrow.status != 2 {
            Some(EscrowError::CloneNotSettled)
        } else if new_amount <= 0 {
            Some(EscrowError::CloneAmountNotPositive)
        } else {
            self.init_error(Self::clone_args(t, new_invoice_id, new_amount, token_decimals, empty_merkle_root), now)
        }
    }

    /// Initialize this escrow as a clone of a settled template escrow whose public
    /// state the host read into `template`: same admin, SME, yield, maturity and
    /// configuration, for a new invoice and amount (template-admin-authorized).
    pub fn clone_settled_escrow(&mut self, call: &mut Invocation, template: CloneTemplate, new_invoice_id: String, new_amount: i128, token_decimals: u32, env: &Env) -> (r: Result<InvoiceEscrow, EscrowError>)
        ensures
            ({
                let root = final(self).empty_merkle_root->Some_0;
                match r {
                    Ok(e) => old(self).clone_error(template, new_invoice_id, new_amount, token_decimals, root, old(call).timestamp) is None
                        && (final(self).empty_merkle_root matches Some(d) && d@ == empty_root())
                        && old(self).initialized_state(*final(self), Self::clone_args(template, new_invoice_id, new_amount, token_decimals, root), old(call).timestamp, old(call).sequence)
                        && e == final(self).esc()
                        && (final(call).emits(*old(call), seq![template.escrow.admin, template.escrow.admin], seq![], seq![
                            Event::EscrowInitialized(EscrowInitialized {
                                escrow: e,
                                funding_token: template.funding_token,
                                treasury: template.treasury,
                                registry: template.registry,
                                has_maturity_lock: template.escrow.maturity != 0,
                            }),
                            Event::EscrowCloned(EscrowCloned {
                                template_invoice_id: template.escrow.invoice_id,
                                new_invoice_id: e.invoice_id,
                                admin: template.escrow.admin,
                                sme_address: template.escrow.sme_address,
                                yield_bps: template.escrow.yield_bps,
                                maturity: template.escrow.maturity,
                                new_amount,
                            }),
                        ])),
                    Err(e) => old(self).clone_error(template, new_invoice_id, new_amount, token_decimals, root, old(call).timestamp) == Some(e)
                        && *final(self) == *old(self) && *final(call) == *old(call),
                }
            }),
    {
        if template.escrow.status != 2 {
            return Err(EscrowError::CloneNotSettled);
        }
        if new_amount <= 0 {
            return Err(EscrowError::CloneAmountNotPositive);
        }
        let admin = template.escrow.admin;
        let empty_merkle_root = empty_merkle_root(env);
        let a = InitArgs {
            admin,
            invoice_id: new_invoice_id,
            sme_address: template.escrow.sme_address,
            amount: new_amount,
            yield_bps: template.escrow.yield_bps,
            maturity: template.escrow.maturity,
            funding_token: template.funding_token,
            registry: template.registry,
            treasury: template.treasury,
            yield_tiers: template.yield_tiers,
            min_contribution: if template.min_contribution_floor > 0 { Some(template.min_contribution_floor) } else { None },
            max_unique_investors: template.max_unique_investors_cap,
            max_per_investor: template.max_per_investor_cap,
            legal_hold_clear_delay: if template.legal_hold_clear_delay > 0 { Some(template.legal_hold_clear_delay) } else { None },
            funding_deadline: template.funding_deadline,
            max_funding_rate: None,
            yield_slippage_threshold: None,
            settlement_notifier_contract: None,
            kyc_provider_contract: None,
            admin_roles: None,
            reject_contract_admin: None,
            admin_is_contract: false,
            token_decimals,
            empty_merkle_root,
        };
        match self.init_check(&a, call.timestamp) {
            Ok(()) => {},
            Err(e) => {
                return Err(e);
            },
        }
        let funding_token = template.funding_token;
        let treasury = template.treasury;
        let registry = template.registry;
        self.init_apply(a, call.timestamp, call.sequence);
        call.require_auth(admin);
        call.require_auth(admin);
        assert(call.auths@ =~= old(call).auths@ + seq![admin, admin]);
        assert(call.transfers@ =~= old(call).transfers@ + Seq::<crate::types::Transfer>::empty());
        let e = self.escrow_record();
        call.emit(Event::EscrowInitialized(EscrowInitialized {
            escrow: e.clone(),
            funding_token,
            treasury,
            registry,
            has_maturity_lock: template.escrow.maturity != 0,
        }));
        call.emit(Event::EscrowCloned(EscrowCloned {
            template_invoice_id: template.escrow.invoice_id.clone(),
            new_invoice_id: e.invoice_id.clone(),
            admin,
            sme_address: template.escrow.sme_address,
            yield_bps: template.escrow.yield_bps,
            maturity: template.escrow.maturity,
            new_amount,
        }));
        proof {
            let n = old(call).events@.len() as int;
            assert(call.events@ =~= old(call).events@ + seq![call.events@[n], call.events@[n + 1]]);
        }
        Ok(e)
    }
}

} // verus!
