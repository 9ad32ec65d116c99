use vstd::prelude::*;

use crate::contracts::types::TaskEnvelope;
use crate::runtime::circuit::sat_sub;
use crate::runtime::kernel::RuntimeKernel;
use crate::text::{concat2, concat3, decimal, decimal_string, starts, starts_with_str};

verus! {

/// Token, tool and duration cost of one execution, and their total, in micro-units.
#[derive(Debug, Clone, Copy, PartialEq, Eq, Structural)]
pub struct CostBreakdown {
    pub token_cost_micros: u64,
    pub tool_cost_micros: u64,
    pub duration_cost_micros: u64,
    pub total_cost_micros: u64,
}

/// A tenant account's budget: total, currently reserved, and spent.
#[derive(Debug, Clone)]
pub struct BudgetAccount {
    pub account_id: String,
    pub tenant_id: String,
    pub principal_id: String,
    pub policy_id: String,
    pub total_budget_micros: u64,
    pub reserved_micros: u64,
    pub spent_micros: u64,
    pub blocked_count: u64,
    pub updated_at_ms: u64,
}

/// An account's consumption within one quota window.
#[derive(Debug, Clone)]
pub struct QuotaWindow {
    pub window_id: String,
    pub tenant_id: String,
    pub account_id: String,
    pub window_start_ms: u64,
    pub window_end_ms: u64,
    pub window_budget_micros: u64,
    pub consumed_micros: u64,
    pub blocked_count: u64,
    pub updated_at_ms: u64,
}

/// What a ledger entry records.
#[derive(Debug, Clone, Copy, PartialEq, Eq, Structural)]
pub enum SpendLedgerKind {
    Reserve,
    Settle,
    Refund,
    Blocked,
}

/// One entry of an account's spend ledger.
#[derive(Debug, Clone)]
pub struct SpendLedger {
    pub ledger_id: String,
    pub tenant_id: String,
    pub account_id: String,
    pub session_id: String,
    pub trace_id: String,
    pub task_id: String,
    pub capability_id: String,
    pub kind: SpendLedgerKind,
    pub amount_micros: i64,
    pub token_cost_micros: u64,
    pub tool_cost_micros: u64,
    pub duration_cost_micros: u64,
    pub reason: String,
    pub created_at_ms: u64,
}

/// The settled cost of one execution, attributed to its tenant, principal and policy.
#[derive(Debug, Clone)]
pub struct CostAttribution {
    pub attribution_id: String,
    pub tenant_id: String,
    pub principal_id: String,
    pub policy_id: String,
    pub session_id: String,
    pub trace_id: String,
    pub task_id: String,
    pub capability_id: String,
    pub provider_tokens: u32,
    pub tool_invocations: u32,
    pub duration_ms: u64,
    pub token_cost_micros: u64,
    pub tool_cost_micros: u64,
    pub duration_cost_micros: u64,
    pub total_cost_micros: u64,
    pub settled_at_ms: u64,
}

/// A budget reservation made before an execution.
#[derive(Debug)]
pub struct BudgetReservation {
    pub(crate) reservation_id: String,
    pub(crate) account_id: String,
    pub(crate) tenant_id: String,
    pub(crate) principal_id: String,
    pub(crate) policy_id: String,
    pub(crate) reserved_micros: u64,
    pub(crate) started_at_ms: u64,
}

/// What a reservation holds: its ids, its amount and when it was made.
pub struct ReservationView {
    pub reservation_id: Seq<char>,
    pub account_id: Seq<char>,
    pub tenant_id: Seq<char>,
    pub principal_id: Seq<char>,
    pub policy_id: Seq<char>,
    pub reserved_micros: u64,
    pub started_at_ms: u64,
}

impl View for BudgetReservation {
    type V = ReservationView;

    closed spec fn view(&self) -> ReservationView {
        ReservationView {
            reservation_id: self.reservation_id@,
            account_id: self.account_id@,
            tenant_id: self.tenant_id@,
            principal_id: self.principal_id@,
            policy_id: self.policy_id@,
            reserved_micros: self.reserved_micros,
            started_at_ms: self.started_at_ms,
        }
    }
}

/// The largest amount a precharge ever reserves: 10 per token for `u32::MAX`
/// tokens, the tool cost of a tool, and 2 per millisecond of a 5 s timeout.
pub const MAX_RESERVATION_MICROS: u64 = 42_949_683_450;

impl BudgetReservation {
    /// A reservation holds no more than the largest precharge estimate.
    #[verifier::type_invariant]
    spec fn within_precharge_bound(self) -> bool {
        self.reserved_micros <= MAX_RESERVATION_MICROS
    }

    /// The amount held.
    pub fn reserved_micros(&self) -> (r: u64)
        ensures
            r == self@.reserved_micros,
    {
        self.reserved_micros
    }

    /// The reservation's ledger id.
    pub fn reservation_id(&self) -> (r: String)
        ensures
            r@ == self@.reservation_id,
    {
        self.reservation_id.clone()
    }
}

/// How an account's records compare with its ledger.
#[derive(Debug, Clone)]
pub struct BudgetReconciliationReport {
    pub tenant_id: String,
    pub account_id: String,
    pub ledger_settled_micros: u64,
    pub ledger_reserved_open_micros: i64,
    pub account_spent_micros: u64,
    pub account_reserved_micros: u64,
    pub consistent: bool,
}

/// `a + b`, saturating at `u64::MAX`.
pub open spec fn sat_add(a: u64, b: u64) -> u64 {
    if a + b > u64::MAX {
        u64::MAX
    } else {
        (a + b) as u64
    }
}

/// `a * b`, saturating at `u64::MAX`.
pub open spec fn sat_mul(a: u64, b: u64) -> u64 {
    if a * b > u64::MAX {
        u64::MAX
    } else {
        (a * b) as u64
    }
}

/// Tool cost of a capability: 200 for provider calls, 500 for tools.
pub open spec fn tool_cost(capability_id: Seq<char>) -> u64 {
    if starts(capability_id, "provider:"@) {
        200
    } else {
        500
    }
}

/// The amount reserved before an execution: 10 per estimated token, the tool cost,
/// and 2 per millisecond of timeout up to 5 s, with a floor of 1000.
pub open spec fn precharge_estimate(e: TaskEnvelope, estimated_tokens: u32) -> u64 {
    let timeout = if e.constraints.timeout_ms < 5000 { e.constraints.timeout_ms } else { 5000 };
    let sum = sat_add(sat_add((estimated_tokens * 10) as u64, tool_cost(e.capability_id@)), (timeout * 2) as u64);
    if sum < 1000 {
        1000
    } else {
        sum
    }
}

/// Cost of an execution: 10 per token, 500 per tool invocation, 2 per millisecond
/// (at least one millisecond).
pub open spec fn cost_of(provider_tokens: u32, tool_invocations: u32, duration_ms: u64) -> CostBreakdown {
    let token = (provider_tokens * 10) as u64;
    let tool = (tool_invocations * 500) as u64;
    let duration = sat_mul(if duration_ms < 1 { 1 } else { duration_ms }, 2);
    CostBreakdown {
        token_cost_micros: token,
        tool_cost_micros: tool,
        duration_cost_micros: duration,
        total_cost_micros: sat_add(sat_add(token, tool), duration),
    }
}

/// Key of the account a task is charged to: `"{tenant}:{principal}:{policy}"`.
pub open spec fn account_key(e: TaskEnvelope) -> Seq<char> {
    e.identity.tenant_id@ + ":"@ + e.identity.principal_id@ + ":"@ + e.identity.policy_id@
}

/// An account's budget left for new reservations.
pub open spec fn account_remaining(a: BudgetAccount) -> u64 {
    sat_sub(a.total_budget_micros, sat_add(a.spent_micros, a.reserved_micros))
}

/// A window's budget left.
pub open spec fn window_remaining(w: QuotaWindow) -> u64 {
    sat_sub(w.window_budget_micros, w.consumed_micros)
}

/// A reservation of `estimate` fits both the account and the window.
pub open spec fn precharge_fits(a: BudgetAccount, w: QuotaWindow, estimate: u64) -> bool {
    estimate <= account_remaining(a) && estimate <= window_remaining(w)
}

/// The effect of a precharge on the numbers of an account and a window.
pub enum PrechargeOutcome {
    /// Budgets are not enforced; nothing is written.
    NotEnforced,
    /// The estimate does not fit: both blocked counters are raised and a `Blocked`
    /// entry is recorded.
    Blocked { account: BudgetAccount, window: QuotaWindow, ledger: SpendLedger },
    /// The estimate is reserved against the account and consumed from the window.
    Reserved { account: BudgetAccount, window: QuotaWindow, ledger: SpendLedger, reservation: BudgetReservation },
}

/// The records a settlement writes.
pub struct SettleOutcome {
    pub breakdown: CostBreakdown,
    pub account: BudgetAccount,
    pub window: QuotaWindow,
    pub settle_entry: SpendLedger,
    pub refund_entry: Option<SpendLedger>,
    pub attribution: CostAttribution,
}

/// The records a rollback writes.
pub struct RollbackOutcome {
    pub account: BudgetAccount,
    pub window: QuotaWindow,
    pub refund_entry: SpendLedger,
}

fn add_sat(a: u64, b: u64) -> (r: u64)
    ensures
        r == sat_add(a, b),
{
    if a > u64::MAX - b {
        u64::MAX
    } else {
        a + b
    }
}

fn sub_sat(a: u64, b: u64) -> (r: u64)
    ensures
        r == sat_sub(a, b),
{
    if a >= b {
        a - b
    } else {
        0
    }
}

fn mul_sat(a: u64, b: u64) -> (r: u64)
    ensures
        r == sat_mul(a, b),
{
    if b != 0 && a > u64::MAX / b {
        proof {
            assert(a * b > u64::MAX) by (nonlinear_arith)
                requires
                    b != 0,
                    a > u64::MAX / b,
            ;
        }
        u64::MAX
    } else {
        proof {
            assert(a * b <= u64::MAX) by (nonlinear_arith)
                requires
                    b == 0 || a <= u64::MAX / b,
            ;
        }
        a * b
    }
}

fn entry(
    e: &TaskEnvelope,
    ledger_id: String,
    tenant_id: &String,
    account_id: &String,
    kind: SpendLedgerKind,
    amount: i64,
    token_cost: u64,
    tool_cost: u64,
    duration_cost: u64,
    reason: String,
    created_at_ms: u64,
) -> (l: SpendLedger)
    ensures
        l.ledger_id == ledger_id,
        l.tenant_id@ == tenant_id@,
        l.account_id@ == account_id@,
        l.session_id@ == e.session_id@,
        l.trace_id@ == e.trace_id@,
        l.task_id@ == e.task_id@,
        l.capability_id@ == e.capability_id@,
        l.kind == kind,
        l.amount_micros == amount,
        l.token_cost_micros == token_cost,
        l.tool_cost_micros == tool_cost,
        l.duration_cost_micros == duration_cost,
        l.reason == reason,
        l.created_at_ms == created_at_ms,
{
    SpendLedger {
        ledger_id,
        tenant_id: tenant_id.clone(),
        account_id: account_id.clone(),
        session_id: e.session_id.clone(),
        trace_id: e.trace_id.clone(),
        task_id: e.task_id.clone(),
        capability_id: e.capability_id.clone(),
        kind,
        amount_micros: amount,
        token_cost_micros: token_cost,
        tool_cost_micros: tool_cost,
        duration_cost_micros: duration_cost,
        reason,
        created_at_ms,
    }
}

/// `"{prefix}:{trace}:{task}:{now}"`, the id of a ledger entry.
pub open spec fn entry_id(prefix: Seq<char>, e: TaskEnvelope, now_ms: u64) -> Seq<char> {
    prefix + ":"@ + e.trace_id@ + ":"@ + e.task_id@ + ":"@ + decimal(now_ms as nat)
}

fn entry_id_string(prefix: &str, e: &TaskEnvelope, now_ms: u64) -> (r: String)
    ensures
        r@ == entry_id(prefix@, *e, now_ms),
{
    let a = concat3(prefix, ":", e.trace_id.as_str());
    let b = concat3(a.as_str(), ":", e.task_id.as_str());
    let n = decimal_string(now_ms);
    concat3(b.as_str(), ":", n.as_str())
}

impl RuntimeKernel {
    /// The amount reserved before running `envelope` with `estimated_tokens`.
    pub fn estimate_precharge_micros(&self, envelope: &TaskEnvelope, estimated_tokens: u32) -> (r: u64)
        ensures
            r == precharge_estimate(*envelope, estimated_tokens),
    {
        let tool: u64 = if starts_with_str(envelope.capability_id.as_str(), "provider:") { 200 } else { 500 };
        let token: u64 = (estimated_tokens as u64) * 10;
        let timeout = if envelope.constraints.timeout_ms < 5000 { envelope.constraints.timeout_ms } else { 5000 };
        let sum = add_sat(add_sat(token, tool), timeout * 2);
        if sum < 1000 {
            1000
        } else {
            sum
        }
    }

    /// The cost of an execution.
    pub fn cost_breakdown(&self, provider_tokens: u32, tool_invocations: u32, duration_ms: u64) -> (c: CostBreakdown)
        ensures
            c == cost_of(provider_tokens, tool_invocations, duration_ms),
    {
        let token = (provider_tokens as u64) * 10;
        let tool = (tool_invocations as u64) * 500;
        let duration = mul_sat(if duration_ms < 1 { 1 } else { duration_ms }, 2);
        CostBreakdown {
            token_cost_micros: token,
            tool_cost_micros: tool,
            duration_cost_micros: duration,
            total_cost_micros: add_sat(add_sat(token, tool), duration),
        }
    }

    /// Key of the account a task is charged to.
    pub fn account_id_for(&self, envelope: &TaskEnvelope) -> (r: String)
        ensures
            r@ == account_key(*envelope),
    {
        let a = concat3(envelope.identity.tenant_id.as_str(), ":", envelope.identity.principal_id.as_str());
        concat3(a.as_str(), ":", envelope.identity.policy_id.as_str())
    }

    /// The quota window a moment falls in, numbered from the epoch.
    pub fn window_id_for(&self, timestamp_ms: u64) -> (r: String)
        requires
            self.quota_window_ms > 0,
        ensures
            r@ == decimal((timestamp_ms / self.quota_window_ms) as nat),
    {
        decimal_string(timestamp_ms / self.quota_window_ms)
    }

    /// Start and end of the quota window a moment falls in.
    pub fn window_bounds(&self, timestamp_ms: u64) -> (r: (u64, u64))
        requires
            self.quota_window_ms > 0,
        ensures
            r.0 == (timestamp_ms / self.quota_window_ms) * self.quota_window_ms,
            r.0 <= timestamp_ms,
            r.1 == sat_add(r.0, self.quota_window_ms),
    {
        let w = self.quota_window_ms;
        let q = timestamp_ms / w;
        proof {
            assert(q * w <= timestamp_ms) by (nonlinear_arith)
                requires
                    w > 0,
                    q == timestamp_ms / w,
            ;
        }
        let start = q * w;
        (start, add_sat(start, w))
    }
}


/// The budget numbers of an account: total, reserved, spent, blocked count.
pub open spec fn account_numbers(a: BudgetAccount) -> (u64, u64, u64, u64) {
    (a.total_budget_micros, a.reserved_micros, a.spent_micros, a.blocked_count)
}

/// The numbers of a window: start, end, budget, consumed, blocked count.
pub open spec fn window_numbers(w: QuotaWindow) -> (u64, u64, u64, u64, u64) {
    (w.window_start_ms, w.window_end_ms, w.window_budget_micros, w.consumed_micros, w.blocked_count)
}

/// The identifying texts of an account: id, tenant, principal, policy.
pub open spec fn account_keys(a: BudgetAccount) -> (Seq<char>, Seq<char>, Seq<char>, Seq<char>) {
    (a.account_id@, a.tenant_id@, a.principal_id@, a.policy_id@)
}

/// The identifying texts of a window: id, tenant, account.
pub open spec fn window_keys(w: QuotaWindow) -> (Seq<char>, Seq<char>, Seq<char>) {
    (w.window_id@, w.tenant_id@, w.account_id@)
}

/// The account a precharge starts from: the stored one, or a fresh one with the
/// default budget.
pub open spec fn start_account(k: RuntimeKernel, e: TaskEnvelope, stored: Option<BudgetAccount>) -> (
    (Seq<char>, Seq<char>, Seq<char>, Seq<char>),
    (u64, u64, u64, u64),
) {
    match stored {
        Some(a) => (account_keys(a), account_numbers(a)),
        None => (
            (account_key(e), e.identity.tenant_id@, e.identity.principal_id@, e.identity.policy_id@),
            (k.default_budget_micros, 0, 0, 0),
        ),
    }
}

/// The window a precharge at `now_ms` starts from: the stored one, or a fresh one
/// covering `now_ms` with the default window budget.
pub open spec fn start_window(k: RuntimeKernel, e: TaskEnvelope, stored: Option<QuotaWindow>, now_ms: u64) -> (
    (Seq<char>, Seq<char>, Seq<char>),
    (u64, u64, u64, u64, u64),
) {
    match stored {
        Some(w) => (window_keys(w), window_numbers(w)),
        None => {
            let start = ((now_ms / k.quota_window_ms) * k.quota_window_ms) as u64;
            (
                (decimal((now_ms / k.quota_window_ms) as nat), e.identity.tenant_id@, account_key(e)),
                (start, sat_add(start, k.quota_window_ms), k.quota_window_budget_micros, 0, 0),
            )
        },
    }
}

/// `a + 1`, saturating.
pub open spec fn inc64(a: u64) -> u64 {
    sat_add(a, 1)
}

impl RuntimeKernel {
    fn starting_account(&self, e: &TaskEnvelope, stored: Option<BudgetAccount>, now_ms: u64) -> (a: BudgetAccount)
        ensures
            (account_keys(a), account_numbers(a)) == start_account(*self, *e, stored),
            stored is Some ==> a.updated_at_ms == stored->0.updated_at_ms,
    {
        match stored {
            Some(a) => a,
            None => BudgetAccount {
                account_id: self.account_id_for(e),
                tenant_id: e.identity.tenant_id.clone(),
                principal_id: e.identity.principal_id.clone(),
                policy_id: e.identity.policy_id.clone(),
                total_budget_micros: self.default_budget_micros,
                reserved_micros: 0,
                spent_micros: 0,
                blocked_count: 0,
                updated_at_ms: now_ms,
            },
        }
    }

    fn starting_window(&self, e: &TaskEnvelope, stored: Option<QuotaWindow>, now_ms: u64) -> (w: QuotaWindow)
        requires
            self.quota_window_ms > 0,
        ensures
            (window_keys(w), window_numbers(w)) == start_window(*self, *e, stored, now_ms),
    {
        match stored {
            Some(w) => w,
            None => {
                let (start, end) = self.window_bounds(now_ms);
                QuotaWindow {
                    window_id: self.window_id_for(now_ms),
                    tenant_id: e.identity.tenant_id.clone(),
                    account_id: self.account_id_for(e),
                    window_start_ms: start,
                    window_end_ms: end,
                    window_budget_micros: self.quota_window_budget_micros,
                    consumed_micros: 0,
                    blocked_count: 0,
                    updated_at_ms: now_ms,
                }
            },
        }
    }

    /// Reserves the estimated cost of running `envelope` against its account and the
    /// current quota window, given the stored account and window (fresh ones start
    /// with the default budgets). When the estimate exceeds what is left in either,
    /// nothing is reserved: both blocked counters rise and a `Blocked` entry is
    /// written instead.
    pub fn precharge_budget(
        &self,
        envelope: &TaskEnvelope,
        estimated_tokens: u32,
        stored_account: Option<BudgetAccount>,
        stored_window: Option<QuotaWindow>,
        now_ms: u64,
    ) -> (r: PrechargeOutcome)
        requires
            self.budget_enforced ==> self.quota_window_ms > 0,
        ensures
            !self.budget_enforced ==> r is NotEnforced,
            self.budget_enforced ==> {
                let (akeys, an) = start_account(*self, *envelope, stored_account);
                let (wkeys, wn) = start_window(*self, *envelope, stored_window, now_ms);
                let est = precharge_estimate(*envelope, estimated_tokens);
                let fits = est <= sat_sub(an.0, sat_add(an.2, an.1)) && est <= sat_sub(wn.2, wn.3);
                match r {
                    PrechargeOutcome::NotEnforced => false,
                    PrechargeOutcome::Blocked { account, window, ledger } => {
                        &&& !fits
                        &&& account_keys(account) == akeys
                        &&& account_numbers(account) == (an.0, an.1, an.2, inc64(an.3))
                        &&& account.updated_at_ms == now_ms
                        &&& window_keys(window) == wkeys
                        &&& window_numbers(window) == (wn.0, wn.1, wn.2, wn.3, inc64(wn.4))
                        &&& window.updated_at_ms == now_ms
                        &&& ledger.ledger_id@ == entry_id("blocked"@, *envelope, now_ms)
                        &&& ledger.kind == SpendLedgerKind::Blocked
                        &&& ledger.amount_micros == est as i64
                        &&& ledger.account_id@ == account_key(*envelope)
                        &&& ledger.tenant_id@ == envelope.identity.tenant_id@
                        &&& ledger.reason@ == "budget_precharge_exceeded"@
                        &&& ledger.token_cost_micros == (estimated_tokens * 10) as u64
                        &&& ledger.tool_cost_micros == tool_cost(envelope.capability_id@)
                    },
                    PrechargeOutcome::Reserved { account, window, ledger, reservation } => {
                        &&& fits
                        &&& account_keys(account) == akeys
                        &&& account_numbers(account) == (an.0, (an.1 + est) as u64, an.2, an.3)
                        &&& account.updated_at_ms == now_ms
                        &&& window_keys(window) == wkeys
                        &&& window_numbers(window) == (wn.0, wn.1, wn.2, (wn.3 + est) as u64, wn.4)
                        &&& window.updated_at_ms == now_ms
                        &&& ledger.ledger_id@ == entry_id("reserve"@, *envelope, now_ms)
                        &&& ledger.kind == SpendLedgerKind::Reserve
                        &&& ledger.amount_micros == est as i64
                        &&& ledger.account_id@ == account_key(*envelope)
                        &&& ledger.tenant_id@ == envelope.identity.tenant_id@
                        &&& ledger.reason@ == "precharge"@
                        &&& ledger.token_cost_micros == (estimated_tokens * 10) as u64
                        &&& ledger.tool_cost_micros == tool_cost(envelope.capability_id@)
                        &&& ledger.duration_cost_micros == 0
                        &&& reservation@.reservation_id == ledger.ledger_id@
                        &&& reservation@.account_id == account_key(*envelope)
                        &&& reservation@.tenant_id == envelope.identity.tenant_id@
                        &&& reservation@.principal_id == envelope.identity.principal_id@
                        &&& reservation@.policy_id == envelope.identity.policy_id@
                        &&& reservation@.reserved_micros == est
                        &&& reservation@.started_at_ms == now_ms
                    },
                }
            },
    {
        if !self.budget_enforced {
            return PrechargeOutcome::NotEnforced;
        }
        let account_id = self.account_id_for(envelope);
        let mut account = self.starting_account(envelope, stored_account, now_ms);
        let mut window = self.starting_window(envelope, stored_window, now_ms);
        let estimated = self.estimate_precharge_micros(envelope, estimated_tokens);
        let account_remaining = sub_sat(
            account.total_budget_micros,
            add_sat(account.spent_micros, account.reserved_micros),
        );
        let window_remaining = sub_sat(window.window_budget_micros, window.consumed_micros);
        let tool: u64 = if starts_with_str(envelope.capability_id.as_str(), "provider:") { 200 } else { 500 };
        let token_cost: u64 = (estimated_tokens as u64) * 10;
        if estimated > account_remaining || estimated > window_remaining {
            account.blocked_count = add_sat(account.blocked_count, 1);
            account.updated_at_ms = now_ms;
            window.blocked_count = add_sat(window.blocked_count, 1);
            window.updated_at_ms = now_ms;
            let ledger = entry(
                envelope,
                entry_id_string("blocked", envelope, now_ms),
                &envelope.identity.tenant_id,
                &account_id,
                SpendLedgerKind::Blocked,
                estimated as i64,
                token_cost,
                tool,
                0,
                String::from_str("budget_precharge_exceeded"),
                now_ms,
            );
            return PrechargeOutcome::Blocked { account, window, ledger };
        }
        account.reserved_micros = account.reserved_micros + estimated;
        account.updated_at_ms = now_ms;
        window.consumed_micros = window.consumed_micros + estimated;
        window.updated_at_ms = now_ms;
        let reservation_id = entry_id_string("reserve", envelope, now_ms);
        let ledger = entry(
            envelope,
            reservation_id.clone(),
            &envelope.identity.tenant_id,
            &account_id,
            SpendLedgerKind::Reserve,
            estimated as i64,
            token_cost,
            tool,
            0,
            String::from_str("precharge"),
            now_ms,
        );
        let reservation = BudgetReservation {
            reservation_id,
            account_id,
            tenant_id: envelope.identity.tenant_id.clone(),
            principal_id: envelope.identity.principal_id.clone(),
            policy_id: envelope.identity.policy_id.clone(),
            reserved_micros: estimated,
            started_at_ms: now_ms,
        };
        PrechargeOutcome::Reserved { account, window, ledger, reservation }
    }
}

/// The records a settlement writes, or nothing when budgets are not enforced.
pub enum SettleResult {
    NotEnforced,
    Settled(SettleOutcome),
}

/// The records a rollback writes, or nothing when budgets are not enforced.
pub enum RollbackResult {
    NotEnforced,
    RolledBack(RollbackOutcome),
}

/// `"{trace}:{task}:{now}"`, the id of a cost attribution.
pub open spec fn attribution_id(e: TaskEnvelope, now_ms: u64) -> Seq<char> {
    e.trace_id@ + ":"@ + e.task_id@ + ":"@ + decimal(now_ms as nat)
}

impl RuntimeKernel {
    /// Settles a reservation at the execution's actual cost, given the stored account
    /// and the stored window of the reservation's start: the reservation is released,
    /// the cost is spent and consumed, a `Settle` entry records the cost and, when the
    /// reservation exceeded the cost, a `Refund` entry returns the difference.
    pub fn settle_budget(
        &self,
        envelope: &TaskEnvelope,
        reservation: &BudgetReservation,
        provider_tokens: u32,
        tool_invocations: u32,
        duration_ms: u64,
        stored_account: Option<BudgetAccount>,
        stored_window: Option<QuotaWindow>,
        now_ms: u64,
    ) -> (r: Result<SettleResult, String>)
        ensures
            !self.budget_enforced ==> r matches Ok(SettleResult::NotEnforced),
            self.budget_enforced && stored_account is None ==> r is Err
                && r->Err_0@ == "budget account missing during settle"@,
            self.budget_enforced && stored_account is Some && stored_window is None ==> r is Err
                && r->Err_0@ == "quota window missing during settle"@,
            self.budget_enforced && stored_account is Some && stored_window is Some ==> {
                let a = stored_account->0;
                let w = stored_window->0;
                let cost = cost_of(provider_tokens, tool_invocations, duration_ms);
                let res = reservation@.reserved_micros;
                &&& r matches Ok(SettleResult::Settled(o))
                &&& {
                    let o = r->Ok_0->Settled_0;
                    &&& o.breakdown == cost
                    &&& account_keys(o.account) == account_keys(a)
                    &&& account_numbers(o.account) == (a.total_budget_micros, sat_sub(a.reserved_micros, res),
                        sat_add(a.spent_micros, cost.total_cost_micros), a.blocked_count)
                    &&& o.account.updated_at_ms == now_ms
                    &&& window_keys(o.window) == window_keys(w)
                    &&& window_numbers(o.window) == (w.window_start_ms, w.window_end_ms, w.window_budget_micros,
                        sat_add(sat_sub(w.consumed_micros, res), cost.total_cost_micros), w.blocked_count)
                    &&& o.window.updated_at_ms == now_ms
                    &&& o.settle_entry.ledger_id@ == entry_id("settle"@, *envelope, now_ms)
                    &&& o.settle_entry.kind == SpendLedgerKind::Settle
                    &&& o.settle_entry.amount_micros == cost.total_cost_micros as i64
                    &&& o.settle_entry.tenant_id@ == reservation@.tenant_id
                    &&& o.settle_entry.account_id@ == reservation@.account_id
                    &&& o.settle_entry.reason@ == "settled_from:"@ + reservation@.reservation_id
                    &&& o.settle_entry.token_cost_micros == cost.token_cost_micros
                    &&& o.settle_entry.tool_cost_micros == cost.tool_cost_micros
                    &&& o.settle_entry.duration_cost_micros == cost.duration_cost_micros
                    &&& o.refund_entry is Some <==> res > cost.total_cost_micros
                    &&& o.refund_entry is Some ==> {
                        let f = o.refund_entry->0;
                        &&& f.ledger_id@ == entry_id("refund"@, *envelope, now_ms)
                        &&& f.kind == SpendLedgerKind::Refund
                        &&& f.amount_micros == -((res - cost.total_cost_micros) as i64)
                        &&& f.reason@ == "refund_from:"@ + reservation@.reservation_id
                        &&& f.created_at_ms == sat_add(now_ms, 1)
                    }
                    &&& o.attribution.attribution_id@ == attribution_id(*envelope, now_ms)
                    &&& o.attribution.total_cost_micros == cost.total_cost_micros
                    &&& o.attribution.provider_tokens == provider_tokens
                    &&& o.attribution.tool_invocations == tool_invocations
                    &&& o.attribution.duration_ms == duration_ms
                    &&& o.attribution.tenant_id@ == reservation@.tenant_id
                    &&& o.attribution.principal_id@ == reservation@.principal_id
                    &&& o.attribution.policy_id@ == reservation@.policy_id
                }
            },
    {
        if !self.budget_enforced {
            return Ok(SettleResult::NotEnforced);
        }
        let mut account = match stored_account {
            Some(a) => a,
            None => {
                return Err(String::from_str("budget account missing during settle"));
            },
        };
        let mut window = match stored_window {
            Some(w) => w,
            None => {
                return Err(String::from_str("quota window missing during settle"));
            },
        };
        let breakdown = self.cost_breakdown(provider_tokens, tool_invocations, duration_ms);
        proof {
            use_type_invariant(reservation);
        }
        let res = reservation.reserved_micros;
        account.reserved_micros = sub_sat(account.reserved_micros, res);
        account.spent_micros = add_sat(account.spent_micros, breakdown.total_cost_micros);
        account.updated_at_ms = now_ms;
        window.consumed_micros = add_sat(sub_sat(window.consumed_micros, res), breakdown.total_cost_micros);
        window.updated_at_ms = now_ms;
        let settle_entry = entry(
            envelope,
            entry_id_string("settle", envelope, now_ms),
            &reservation.tenant_id,
            &reservation.account_id,
            SpendLedgerKind::Settle,
            breakdown.total_cost_micros as i64,
            breakdown.token_cost_micros,
            breakdown.tool_cost_micros,
            breakdown.duration_cost_micros,
            concat2("settled_from:", reservation.reservation_id.as_str()),
            now_ms,
        );
        let refund_entry = if res > breakdown.total_cost_micros {
            let refund = res - breakdown.total_cost_micros;
            Some(
                entry(
                    envelope,
                    entry_id_string("refund", envelope, now_ms),
                    &reservation.tenant_id,
                    &reservation.account_id,
                    SpendLedgerKind::Refund,
                    -(refund as i64),
                    0,
                    0,
                    0,
                    concat2("refund_from:", reservation.reservation_id.as_str()),
                    add_sat(now_ms, 1),
                ),
            )
        } else {
            None
        };
        let id_head = concat3(envelope.trace_id.as_str(), ":", envelope.task_id.as_str());
        let now_text = decimal_string(now_ms);
        let attribution = CostAttribution {
            attribution_id: concat3(id_head.as_str(), ":", now_text.as_str()),
            tenant_id: reservation.tenant_id.clone(),
            principal_id: reservation.principal_id.clone(),
            policy_id: reservation.policy_id.clone(),
            session_id: envelope.session_id.clone(),
            trace_id: envelope.trace_id.clone(),
            task_id: envelope.task_id.clone(),
            capability_id: envelope.capability_id.clone(),
            provider_tokens,
            tool_invocations,
            duration_ms,
            token_cost_micros: breakdown.token_cost_micros,
            tool_cost_micros: breakdown.tool_cost_micros,
            duration_cost_micros: breakdown.duration_cost_micros,
            total_cost_micros: breakdown.total_cost_micros,
            settled_at_ms: now_ms,
        };
        Ok(SettleResult::Settled(SettleOutcome { breakdown, account, window, settle_entry, refund_entry, attribution }))
    }

    /// Releases a reservation without spending it, given the stored account and the
    /// stored window of the reservation's start, and records a `Refund` entry for the
    /// full reserved amount.
    pub fn rollback_budget(
        &self,
        envelope: &TaskEnvelope,
        reservation: &BudgetReservation,
        reason: &str,
        stored_account: Option<BudgetAccount>,
        stored_window: Option<QuotaWindow>,
        now_ms: u64,
    ) -> (r: Result<RollbackResult, String>)
        ensures
            !self.budget_enforced ==> r matches Ok(RollbackResult::NotEnforced),
            self.budget_enforced && stored_account is None ==> r is Err
                && r->Err_0@ == "budget account missing during rollback"@,
            self.budget_enforced && stored_account is Some && stored_window is None ==> r is Err
                && r->Err_0@ == "quota window missing during rollback"@,
            self.budget_enforced && stored_account is Some && stored_window is Some ==> {
                let a = stored_account->0;
                let w = stored_window->0;
                let res = reservation@.reserved_micros;
                &&& r matches Ok(RollbackResult::RolledBack(o))
                &&& {
                    let o = r->Ok_0->RolledBack_0;
                    &&& account_keys(o.account) == account_keys(a)
                    &&& account_numbers(o.account) == (a.total_budget_micros, sat_sub(a.reserved_micros, res),
                        a.spent_micros, a.blocked_count)
                    &&& o.account.updated_at_ms == now_ms
                    &&& window_keys(o.window) == window_keys(w)
                    &&& window_numbers(o.window) == (w.window_start_ms, w.window_end_ms, w.window_budget_micros,
                        sat_sub(w.consumed_micros, res), w.blocked_count)
                    &&& o.window.updated_at_ms == now_ms
                    &&& o.refund_entry.ledger_id@ == entry_id("rollback"@, *envelope, now_ms)
                    &&& o.refund_entry.kind == SpendLedgerKind::Refund
                    &&& o.refund_entry.amount_micros == -(res as i64)
                    &&& o.refund_entry.tenant_id@ == reservation@.tenant_id
                    &&& o.refund_entry.account_id@ == reservation@.account_id
                    &&& o.refund_entry.reason@ == "rollback:"@ + reason@
                    &&& o.refund_entry.created_at_ms == now_ms
                }
            },
    {
        if !self.budget_enforced {
            return Ok(RollbackResult::NotEnforced);
        }
        let mut account = match stored_account {
            Some(a) => a,
            None => {
                return Err(String::from_str("budget account missing during rollback"));
            },
        };
        let mut window = match stored_window {
            Some(w) => w,
            None => {
                return Err(String::from_str("quota window missing during rollback"));
            },
        };
        proof {
            use_type_invariant(reservation);
        }
        let res = reservation.reserved_micros;
        account.reserved_micros = sub_sat(account.reserved_micros, res);
        account.updated_at_ms = now_ms;
        window.consumed_micros = sub_sat(window.consumed_micros, res);
        window.updated_at_ms = now_ms;
        let refund_entry = entry(
            envelope,
            entry_id_string("rollback", envelope, now_ms),
            &reservation.tenant_id,
            &reservation.account_id,
            SpendLedgerKind::Refund,
            -(res as i64),
            0,
            0,
            0,
            concat2("rollback:", reason),
            now_ms,
        );
        Ok(RollbackResult::RolledBack(RollbackOutcome { account, window, refund_entry }))
    }
}

/// `a + b` for signed values, saturating at the `i64` bounds.
pub open spec fn sat_add_i(a: i64, b: i64) -> i64 {
    if a + b > i64::MAX {
        i64::MAX
    } else if a + b < i64::MIN {
        i64::MIN
    } else {
        (a + b) as i64
    }
}

/// `a - b` for signed values, saturating at the `i64` bounds.
pub open spec fn sat_sub_i(a: i64, b: i64) -> i64 {
    if a - b > i64::MAX {
        i64::MAX
    } else if a - b < i64::MIN {
        i64::MIN
    } else {
        (a - b) as i64
    }
}

/// `max(v, 0)`.
pub open spec fn pos(v: i64) -> i64 {
    if v < 0 {
        0
    } else {
        v
    }
}

/// Total of the settled amounts in a ledger.
pub open spec fn settled_sum(ledger: Seq<SpendLedger>) -> int
    decreases ledger.len(),
{
    if ledger.len() == 0 {
        0
    } else {
        settled_sum(ledger.drop_last()) + (if ledger.last().kind == SpendLedgerKind::Settle {
            pos(ledger.last().amount_micros) as int
        } else {
            0
        })
    }
}

/// One ledger entry's effect on the amount still held in reservations.
pub open spec fn open_step(acc: i64, e: SpendLedger) -> i64 {
    match e.kind {
        SpendLedgerKind::Reserve => sat_add_i(acc, pos(e.amount_micros)),
        SpendLedgerKind::Settle => sat_sub_i(acc, pos(e.amount_micros)),
        SpendLedgerKind::Refund => sat_sub_i(acc, if e.amount_micros < 0 { -e.amount_micros } else { e.amount_micros as int } as i64),
        SpendLedgerKind::Blocked => acc,
    }
}

/// The amount a ledger still holds in reservations, entry by entry from zero.
pub open spec fn open_reserved(ledger: Seq<SpendLedger>) -> i64
    decreases ledger.len(),
{
    if ledger.len() == 0 {
        0
    } else {
        open_step(open_reserved(ledger.drop_last()), ledger.last())
    }
}

/// An account's spent and reserved amounts agree with its ledger.
pub open spec fn ledger_consistent(spent: u64, reserved: u64, ledger: Seq<SpendLedger>) -> bool {
    settled_sum(ledger) == spent as int && open_reserved(ledger) == reserved as i64
}

fn add_sat_i(a: i64, b: i64) -> (r: i64)
    ensures
        r == sat_add_i(a, b),
{
    if b > 0 && a > i64::MAX - b {
        i64::MAX
    } else if b < 0 && a < i64::MIN - b {
        i64::MIN
    } else {
        a + b
    }
}

fn sub_sat_i(a: i64, b: i64) -> (r: i64)
    ensures
        r == sat_sub_i(a, b),
{
    if b < 0 && a > i64::MAX + b {
        i64::MAX
    } else if b > 0 && a < i64::MIN + b {
        i64::MIN
    } else {
        a - b
    }
}

impl RuntimeKernel {
    /// Compares an account with its ledger: the sum of settled amounts must equal what
    /// the account has spent, and the amount the ledger still holds in reservations
    /// must equal what the account has reserved.
    pub fn reconcile_budget_account(
        &self,
        tenant_id: &str,
        account_id: &str,
        stored_account: Option<BudgetAccount>,
        ledger: &Vec<SpendLedger>,
    ) -> (r: Result<BudgetReconciliationReport, String>)
        requires
            settled_sum(ledger@) <= u64::MAX,
            forall|i: int| 0 <= i < ledger@.len() ==> (#[trigger] ledger@[i]).amount_micros != i64::MIN,
        ensures
            stored_account is None ==> r is Err && r->Err_0@ == "budget account not found"@,
            stored_account is Some ==> {
                let a = stored_account->0;
                &&& r is Ok
                &&& r->Ok_0.tenant_id@ == tenant_id@
                &&& r->Ok_0.account_id@ == account_id@
                &&& r->Ok_0.ledger_settled_micros == settled_sum(ledger@)
                &&& r->Ok_0.ledger_reserved_open_micros == open_reserved(ledger@)
                &&& r->Ok_0.account_spent_micros == a.spent_micros
                &&& r->Ok_0.account_reserved_micros == a.reserved_micros
                &&& r->Ok_0.consistent == (settled_sum(ledger@) == a.spent_micros as int
                    && open_reserved(ledger@) == a.reserved_micros as i64)
            },
    {
        let account = match stored_account {
            Some(a) => a,
            None => {
                return Err(String::from_str("budget account not found"));
            },
        };
        let mut settled: u64 = 0;
        let mut open: i64 = 0;
        let mut i: usize = 0;
        while i < ledger.len()
            invariant
                i <= ledger.len(),
                settled_sum(ledger@) <= u64::MAX,
                forall|j: int| 0 <= j < ledger@.len() ==> (#[trigger] ledger@[j]).amount_micros != i64::MIN,
                settled == settled_sum(ledger@.subrange(0, i as int)),
                open == open_reserved(ledger@.subrange(0, i as int)),
            decreases ledger.len() - i,
        {
            let e = &ledger[i];
            let ghost prefix = ledger@.subrange(0, i + 1);
            proof {
                assert(prefix.drop_last() =~= ledger@.subrange(0, i as int));
                lemma_settled_prefix_bounded(ledger@, i + 1);
            }
            let amount = e.amount_micros;
            let positive = if amount < 0 { 0 } else { amount };
            match e.kind {
                SpendLedgerKind::Settle => {
                    settled = settled + (positive as u64);
                    open = sub_sat_i(open, positive);
                },
                SpendLedgerKind::Reserve => {
                    open = add_sat_i(open, positive);
                },
                SpendLedgerKind::Refund => {
                    let magnitude = if amount < 0 { -amount } else { amount };
                    open = sub_sat_i(open, magnitude);
                },
                SpendLedgerKind::Blocked => {},
            }
            i = i + 1;
        }
        assert(ledger@.subrange(0, ledger.len() as int) =~= ledger@);
        let consistent = settled == account.spent_micros && open == account.reserved_micros as i64;
        Ok(BudgetReconciliationReport {
            tenant_id: String::from_str(tenant_id),
            account_id: String::from_str(account_id),
            ledger_settled_micros: settled,
            ledger_reserved_open_micros: open,
            account_spent_micros: account.spent_micros,
            account_reserved_micros: account.reserved_micros,
            consistent,
        })
    }
}

proof fn lemma_settled_monotone(ledger: Seq<SpendLedger>)
    ensures
        ledger.len() > 0 ==> settled_sum(ledger.drop_last()) <= settled_sum(ledger),
        settled_sum(ledger) >= 0,
    decreases ledger.len(),
{
    if ledger.len() > 0 {
        lemma_settled_monotone(ledger.drop_last());
    }
}

proof fn lemma_settled_prefix_bounded(ledger: Seq<SpendLedger>, n: int)
    requires
        0 <= n <= ledger.len(),
    ensures
        0 <= settled_sum(ledger.subrange(0, n)) <= settled_sum(ledger),
    decreases ledger.len() - n,
{
    lemma_settled_monotone(ledger.subrange(0, n));
    if n < ledger.len() {
        lemma_settled_prefix_bounded(ledger, n + 1);
        let p = ledger.subrange(0, n + 1);
        assert(p.drop_last() =~= ledger.subrange(0, n));
        lemma_settled_monotone(p);
    } else {
        assert(ledger.subrange(0, n) =~= ledger);
    }
}

/// The cost of an execution: 10 per provider token, 500 per tool invocation
/// and 2 per millisecond of duration (at least one), summed and capped at
/// `u64::MAX`; no part exceeds the total, and more usage never costs less.
pub proof fn law_cost_is_the_sum_of_its_parts(p: u32, t: u32, d: u64, p2: u32, t2: u32, d2: u64)
    ensures
        cost_of(p, t, d).token_cost_micros == 10 * p,
        cost_of(p, t, d).tool_cost_micros == 500 * t,
        cost_of(p, t, d).duration_cost_micros == (if d < 1 { 2 } else if 2 * d > u64::MAX { u64::MAX as int } else {
            2 * d
        }),
        cost_of(p, t, d).total_cost_micros == (if 10 * p + 500 * t + 2 * (if d < 1 { 1 } else { d as int }) > u64::MAX {
            u64::MAX as int
        } else {
            10 * p + 500 * t + 2 * (if d < 1 { 1 } else { d as int })
        }),
        cost_of(p, t, d).token_cost_micros <= cost_of(p, t, d).total_cost_micros,
        cost_of(p, t, d).tool_cost_micros <= cost_of(p, t, d).total_cost_micros,
        cost_of(p, t, d).duration_cost_micros <= cost_of(p, t, d).total_cost_micros,
        (p <= p2 && t <= t2 && d <= d2) ==> cost_of(p, t, d).total_cost_micros <= cost_of(p2, t2, d2).total_cost_micros,
{
}

/// A precharge reserves 10 per estimated token, 200 for a provider call or 500
/// for a tool, and 2 per millisecond of the timeout up to 5 s, and never less
/// than 1000.
pub proof fn law_precharge_estimate(e: TaskEnvelope, tokens: u32)
    ensures
        ({
            let timeout = if e.constraints.timeout_ms < 5000 { e.constraints.timeout_ms as int } else { 5000 };
            let tool = if starts(e.capability_id@, "provider:"@) { 200int } else { 500int };
            let sum = 10 * tokens + tool + 2 * timeout;
            precharge_estimate(e, tokens) == if sum < 1000 { 1000 } else { sum }
        }),
        precharge_estimate(e, tokens) >= 1000,
        precharge_estimate(e, tokens) <= MAX_RESERVATION_MICROS,
{
}

/// A reservation followed by a rollback leaves the account's reserved amount and the
/// window's consumption where they were.
pub proof fn law_rollback_undoes_precharge(a: BudgetAccount, w: QuotaWindow, est: u64)
    requires
        precharge_fits(a, w, est),
    ensures
        sat_sub((a.reserved_micros + est) as u64, est) == a.reserved_micros,
        sat_sub((w.consumed_micros + est) as u64, est) == w.consumed_micros,
{
}

/// A reservation followed by its settlement at cost `cost` leaves the reserved amount
/// where it was, adds `cost` to what was spent, and leaves the window consumed by
/// exactly `cost` more than before.
pub proof fn law_settle_charges_actual_cost(a: BudgetAccount, w: QuotaWindow, est: u64, cost: u64)
    requires
        precharge_fits(a, w, est),
        a.spent_micros + cost <= u64::MAX,
        w.consumed_micros + cost <= u64::MAX,
    ensures
        sat_sub((a.reserved_micros + est) as u64, est) == a.reserved_micros,
        sat_add(a.spent_micros, cost) == a.spent_micros + cost,
        sat_add(sat_sub((w.consumed_micros + est) as u64, est), cost) == w.consumed_micros + cost,
{
}

/// A reservation never pushes an account past its total budget or a window past its
/// budget.
pub proof fn law_reservation_within_budget(a: BudgetAccount, w: QuotaWindow, est: u64)
    requires
        precharge_fits(a, w, est),
        est > 0,
    ensures
        a.spent_micros + a.reserved_micros + est <= a.total_budget_micros,
        w.consumed_micros + est <= w.window_budget_micros,
{
}

/// The ledger stays reconcilable with its account: recording a reservation, then
/// either its rollback or its settlement at a cost within the reservation (with the
/// refund of the difference), keeps the account's spent and reserved amounts equal to
/// what the ledger says.
pub proof fn law_ledger_stays_consistent(
    spent: u64,
    reserved: u64,
    ledger: Seq<SpendLedger>,
    reserve: SpendLedger,
    settle: SpendLedger,
    refund: SpendLedger,
    rollback: SpendLedger,
    est: u64,
    cost: u64,
)
    requires
        ledger_consistent(spent, reserved, ledger),
        reserved + est <= i64::MAX,
        spent + cost <= u64::MAX,
        cost <= est,
        reserve.kind == SpendLedgerKind::Reserve && reserve.amount_micros == est as i64,
        settle.kind == SpendLedgerKind::Settle && settle.amount_micros == cost as i64,
        refund.kind == SpendLedgerKind::Refund && refund.amount_micros == -((est - cost) as i64),
        rollback.kind == SpendLedgerKind::Refund && rollback.amount_micros == -(est as i64),
    ensures
        ledger_consistent(spent, (reserved + est) as u64, ledger.push(reserve)),
        ledger_consistent(spent, reserved, ledger.push(reserve).push(rollback)),
        est > cost ==> ledger_consistent((spent + cost) as u64, reserved, ledger.push(reserve).push(settle).push(refund)),
        est == cost ==> ledger_consistent((spent + cost) as u64, reserved, ledger.push(reserve).push(settle)),
{
    let l1 = ledger.push(reserve);
    assert(l1.drop_last() =~= ledger);
    assert(open_reserved(l1) == (reserved + est) as i64);
    assert(settled_sum(l1) == spent as int);
    let l2 = l1.push(rollback);
    assert(l2.drop_last() =~= l1);
    assert(l2.last() == rollback);
    assert(open_reserved(l2) == open_step(open_reserved(l1), rollback));
    assert(open_reserved(l2) == reserved as i64);
    assert(settled_sum(l2) == spent as int);
    let l3 = l1.push(settle);
    assert(l3.drop_last() =~= l1);
    assert(open_reserved(l3) == open_step(open_reserved(l1), settle));
    assert(open_reserved(l3) == (reserved + est - cost) as i64);
    assert(settled_sum(l3) == settled_sum(l1) + cost);
    let l4 = l3.push(refund);
    assert(l4.drop_last() =~= l3);
    assert(l4.last() == refund);
    if est > cost {
        assert(open_reserved(l4) == open_step(open_reserved(l3), refund));
        assert(refund.amount_micros < 0);
        assert(-refund.amount_micros == est - cost);
        assert(open_reserved(l4) == reserved as i64);
        assert(settled_sum(l4) == settled_sum(l3));
    }
}
} // verus!
