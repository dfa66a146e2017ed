//! The auto-compounding lending vault: lenders deposit the asset for
//! shares, harvested yield is reinvested, and shares are redeemed for their
//! proportional part of the managed assets.
use vstd::prelude::*;

use crate::access::Account;
use crate::arith::fits_i128;
use crate::errors::ContractError;

verus! {

/// Harvest fee before the admin configures one (1%).
pub const DEFAULT_HARVEST_FEE_BPS: u32 = 100;

/// Largest harvest fee the admin may set (10%).
pub const MAX_HARVEST_FEE_BPS: u32 = 1000;

/// Fixed-point scale of the exchange rate: 1.0000000.
pub const PRECISION: i128 = 10_000_000;

/// The vault's addresses, fixed at initialisation.
#[derive(Debug, Clone, Copy, PartialEq, Eq, Structural)]
pub struct VaultConfig {
    pub admin: Account,
    /// The token lenders deposit and redeem.
    pub asset_token: Account,
    pub lending_contract: Account,
}

/// Vault shares held by one account.
#[derive(Debug, Clone, Copy, PartialEq, Eq, Structural)]
pub struct Holding {
    pub account: Account,
    pub shares: i128,
}

/// A token transfer the vault makes or an event it publishes.
#[derive(Debug, Clone, Copy, PartialEq, Eq, Structural)]
pub enum VaultEffect {
    /// The asset token moves `amount` from `from` to the vault.
    TransferIn { from: Account, amount: i128 },
    /// The asset token moves `amount` from the vault to `to`.
    TransferOut { to: Account, amount: i128 },
    /// `("vault", "deposit")` with `(from, amount, shares)`.
    Deposited { from: Account, amount: i128, shares: i128 },
    /// `("vault", "withdraw")` with `(from, shares, amount)`.
    Withdrawn { from: Account, shares: i128, amount: i128 },
    /// `("vault", "harvest")` with `(caller, yield_amount, fee, reinvest)`.
    Harvested { caller: Account, yield_amount: i128, fee: i128, reinvest: i128 },
}

/// The vault contract's ledger state.
pub struct AutoCompoundVaultContract {
    pub config: Option<VaultConfig>,
    pub harvest_fee_bps: u32,
    pub total_shares: i128,
    /// Assets under management: deposits plus reinvested yield, minus
    /// redemptions.
    pub total_managed_assets: i128,
    /// Share balances; accounts without shares have no entry.
    pub holdings: Vec<Holding>,
    /// Transfers and events of the latest successful operation, in order.
    pub effects: Vec<VaultEffect>,
}

/// The mathematical content of an `AutoCompoundVaultContract`.
pub struct VaultView {
    pub config: Option<VaultConfig>,
    pub harvest_fee_bps: u32,
    pub total_shares: i128,
    pub total_managed_assets: i128,
    pub holdings: Seq<Holding>,
    pub effects: Seq<VaultEffect>,
}

impl View for AutoCompoundVaultContract {
    type V = VaultView;

    open spec fn view(&self) -> VaultView {
        VaultView {
            config: self.config,
            harvest_fee_bps: self.harvest_fee_bps,
            total_shares: self.total_shares,
            total_managed_assets: self.total_managed_assets,
            holdings: self.holdings@,
            effects: self.effects@,
        }
    }
}

/// Shares of `a` recorded in `h` (zero when `a` has no entry).
pub open spec fn shares_in(h: Seq<Holding>, a: Account) -> int
    decreases h.len(),
{
    if h.len() == 0 {
        0
    } else if h.last().account == a {
        h.last().shares as int
    } else {
        shares_in(h.drop_last(), a)
    }
}

/// Sum of all share balances in `h`.
pub open spec fn sum_shares(h: Seq<Holding>) -> int
    decreases h.len(),
{
    if h.len() == 0 {
        0
    } else {
        sum_shares(h.drop_last()) + h.last().shares
    }
}

/// No account has two entries.
pub open spec fn accounts_unique(h: Seq<Holding>) -> bool {
    forall|i: int, j: int|
        0 <= i < h.len() && 0 <= j < h.len() && i != j ==> #[trigger] h[i].account
            != #[trigger] h[j].account
}

/// Every entry holds a positive number of shares.
pub open spec fn balances_positive(h: Seq<Holding>) -> bool {
    forall|i: int| 0 <= i < h.len() ==> #[trigger] h[i].shares > 0
}

/// The vault's invariant: one positive entry per holder, the holders'
/// shares add up to the total, assets are never negative, there are assets
/// exactly when there are shares, the harvest fee is within its cap, and
/// nothing is held before initialisation.
pub open spec fn vault_wf(v: VaultView) -> bool {
    &&& accounts_unique(v.holdings)
    &&& balances_positive(v.holdings)
    &&& sum_shares(v.holdings) == v.total_shares
    &&& v.total_managed_assets >= 0
    &&& (v.total_shares == 0 <==> v.total_managed_assets == 0)
    &&& v.harvest_fee_bps <= MAX_HARVEST_FEE_BPS
    &&& (v.config is None ==> v.total_shares == 0)
}

/// Shares minted for a deposit of `amount`: one per unit into an empty
/// vault, otherwise `amount × total_shares / total_managed`, rounded down.
pub open spec fn minted_shares(total_shares: int, total_managed: int, amount: int) -> int {
    if total_shares == 0 || total_managed == 0 {
        amount
    } else {
        amount * total_shares / total_managed
    }
}

/// Assets paid for redeeming `shares`: `shares × total_managed /
/// total_shares`, rounded down.
pub open spec fn redeemed_assets(total_shares: int, total_managed: int, shares: int) -> int {
    shares * total_managed / total_shares
}

/// Assets a holder of `shares` could redeem (zero in an empty vault).
pub open spec fn asset_value(total_shares: int, total_managed: int, shares: int) -> int {
    if total_shares == 0 {
        0
    } else {
        shares * total_managed / total_shares
    }
}

/// Assets per share, scaled by `PRECISION` (exactly `PRECISION` in an empty
/// vault).
pub open spec fn exchange_rate(total_shares: int, total_managed: int) -> int {
    if total_shares == 0 {
        PRECISION as int
    } else {
        total_managed * PRECISION / total_shares
    }
}

/// Harvest fee on `yield_amount` at `fee_bps`, rounded down.
pub open spec fn harvest_fee(yield_amount: int, fee_bps: int) -> int {
    yield_amount * fee_bps / 10_000
}

/// Outcome of `initialize`.
pub open spec fn spec_vault_initialize(v: VaultView, config: VaultConfig, harvest_fee_bps: u32) -> Result<
    VaultView,
    ContractError,
> {
    if v.config is Some {
        Err(ContractError::VaultAlreadyInitialised)
    } else if harvest_fee_bps > MAX_HARVEST_FEE_BPS {
        Err(ContractError::HarvestFeeTooHigh)
    } else {
        Ok(
            VaultView {
                config: Some(config),
                harvest_fee_bps,
                total_shares: 0,
                total_managed_assets: 0,
                effects: Seq::empty(),
                ..v
            },
        )
    }
}

/// Result of `deposit`: the shares minted, or why the deposit is refused.
pub open spec fn spec_deposit_outcome(v: VaultView, from: Account, amount: i128) -> Result<
    i128,
    ContractError,
> {
    let ts = v.total_shares as int;
    let tm = v.total_managed_assets as int;
    let minted = minted_shares(ts, tm, amount as int);
    if amount <= 0 {
        Err(ContractError::DepositNotPositive)
    } else if v.config is None {
        Err(ContractError::VaultNotInitialised)
    } else if ts != 0 && tm != 0 && !fits_i128(amount * ts) {
        Err(ContractError::ArithmeticOverflow)
    } else if minted <= 0 {
        Err(ContractError::ZeroSharesMinted)
    } else if !fits_i128(shares_in(v.holdings, from) + minted) || !fits_i128(ts + minted)
        || !fits_i128(tm + amount) {
        Err(ContractError::ArithmeticOverflow)
    } else {
        Ok(minted as i128)
    }
}

/// Result of `withdraw`: the assets paid out, or why it is refused.
pub open spec fn spec_withdraw_outcome(v: VaultView, from: Account, shares: i128) -> Result<
    i128,
    ContractError,
> {
    let ts = v.total_shares as int;
    let tm = v.total_managed_assets as int;
    if shares <= 0 {
        Err(ContractError::SharesNotPositive)
    } else if shares_in(v.holdings, from) < shares {
        Err(ContractError::InsufficientShares)
    } else if !fits_i128(shares * tm) {
        Err(ContractError::ArithmeticOverflow)
    } else if redeemed_assets(ts, tm, shares as int) <= 0 {
        Err(ContractError::ZeroPayout)
    } else if v.config is None {
        Err(ContractError::VaultNotInitialised)
    } else {
        Ok(redeemed_assets(ts, tm, shares as int) as i128)
    }
}

/// Result of `harvest`: the yield reinvested, or why it is refused.
pub open spec fn spec_harvest_outcome(v: VaultView, yield_amount: i128) -> Result<
    i128,
    ContractError,
> {
    let fee = harvest_fee(yield_amount as int, v.harvest_fee_bps as int);
    if yield_amount <= 0 {
        Err(ContractError::YieldNotPositive)
    } else if v.total_shares == 0 {
        Err(ContractError::NoActiveDeposits)
    } else if !fits_i128(yield_amount * v.harvest_fee_bps) {
        Err(ContractError::ArithmeticOverflow)
    } else if fee > 0 && v.config is None {
        Err(ContractError::VaultNotInitialised)
    } else if !fits_i128(v.total_managed_assets + (yield_amount - fee)) {
        Err(ContractError::ArithmeticOverflow)
    } else {
        Ok((yield_amount - fee) as i128)
    }
}

/// Result of `set_harvest_fee_bps`.
pub open spec fn spec_set_fee_outcome(v: VaultView, caller: Account, fee_bps: u32) -> Result<
    (),
    ContractError,
> {
    match v.config {
        None => Err(ContractError::VaultNotInitialised),
        Some(c) => if caller != c.admin {
            Err(ContractError::UnauthorisedCaller)
        } else if fee_bps > MAX_HARVEST_FEE_BPS {
            Err(ContractError::HarvestFeeTooHigh)
        } else {
            Ok(())
        },
    }
}

/// `after` is `before` with `delta` shares added to `account` and nothing
/// else changed in the share ledger.
pub open spec fn shares_moved(before: Seq<Holding>, after: Seq<Holding>, account: Account, delta: int) -> bool {
    forall|a: Account|
        #[trigger] shares_in(after, a) == if a == account {
            shares_in(before, a) + delta
        } else {
            shares_in(before, a)
        }
}

// ----- share-ledger lemmas -----

proof fn lemma_shares_in_at(h: Seq<Holding>, i: int, a: Account)
    requires
        accounts_unique(h),
        0 <= i < h.len(),
        h[i].account == a,
    ensures
        shares_in(h, a) == h[i].shares,
    decreases h.len(),
{
    if i < h.len() - 1 {
        assert(h[h.len() - 1].account != h[i].account);
        let t = h.drop_last();
        assert forall|x: int, y: int|
            0 <= x < t.len() && 0 <= y < t.len() && x != y implies #[trigger] t[x].account
            != #[trigger] t[y].account by {
            assert(t[x] == h[x] && t[y] == h[y]);
        }
        lemma_shares_in_at(t, i, a);
    }
}

proof fn lemma_shares_in_absent(h: Seq<Holding>, a: Account)
    requires
        forall|j: int| 0 <= j < h.len() ==> h[j].account != a,
    ensures
        shares_in(h, a) == 0,
    decreases h.len(),
{
    if h.len() > 0 {
        let t = h.drop_last();
        assert forall|j: int| 0 <= j < t.len() implies t[j].account != a by {
            assert(t[j] == h[j]);
        }
        assert(h[h.len() - 1].account != a);
        lemma_shares_in_absent(t, a);
    }
}

proof fn lemma_sum_update(h: Seq<Holding>, i: int, x: Holding)
    requires
        0 <= i < h.len(),
    ensures
        sum_shares(h.update(i, x)) == sum_shares(h) - h[i].shares + x.shares,
    decreases h.len(),
{
    let h2 = h.update(i, x);
    if i == h.len() - 1 {
        assert(h2.drop_last() =~= h.drop_last());
    } else {
        lemma_sum_update(h.drop_last(), i, x);
        assert(h2.drop_last() =~= h.drop_last().update(i, x));
    }
}

proof fn lemma_sum_remove(h: Seq<Holding>, i: int)
    requires
        0 <= i < h.len(),
    ensures
        sum_shares(h.remove(i)) == sum_shares(h) - h[i].shares,
    decreases h.len(),
{
    if i == h.len() - 1 {
        assert(h.remove(i) =~= h.drop_last());
    } else {
        lemma_sum_remove(h.drop_last(), i);
        assert(h.remove(i).drop_last() =~= h.drop_last().remove(i));
        assert(h.remove(i).last() == h.last());
    }
}

proof fn lemma_sum_push(h: Seq<Holding>, x: Holding)
    ensures
        sum_shares(h.push(x)) == sum_shares(h) + x.shares,
{
    assert(h.push(x).drop_last() =~= h);
}

proof fn lemma_entry_le_sum(h: Seq<Holding>, i: int)
    requires
        balances_positive(h),
        0 <= i < h.len(),
    ensures
        0 < h[i].shares <= sum_shares(h),
    decreases h.len(),
{
    let t = h.drop_last();
    assert(balances_positive(t)) by {
        assert forall|j: int| 0 <= j < t.len() implies #[trigger] t[j].shares > 0 by {
            assert(t[j] == h[j]);
        }
    }
    lemma_sum_nonneg(t);
    if i < h.len() - 1 {
        lemma_entry_le_sum(t, i);
    }
}

proof fn lemma_sum_nonneg(h: Seq<Holding>)
    requires
        balances_positive(h),
    ensures
        sum_shares(h) >= 0,
        sum_shares(h) == 0 ==> h.len() == 0,
    decreases h.len(),
{
    if h.len() > 0 {
        let t = h.drop_last();
        assert(balances_positive(t)) by {
            assert forall|j: int| 0 <= j < t.len() implies #[trigger] t[j].shares > 0 by {
                assert(t[j] == h[j]);
            }
        }
        lemma_sum_nonneg(t);
        assert(h[h.len() - 1].shares > 0);
    }
}

/// In a well-formed vault every holder's shares lie between zero and the
/// total.
pub proof fn holder_shares_within_total(v: VaultView, a: Account)
    requires
        vault_wf(v),
    ensures
        0 <= shares_in(v.holdings, a) <= v.total_shares,
        v.total_shares >= 0,
{
    lemma_sum_nonneg(v.holdings);
    if exists|j: int| 0 <= j < v.holdings.len() && v.holdings[j].account == a {
        let j = choose|j: int| 0 <= j < v.holdings.len() && v.holdings[j].account == a;
        lemma_shares_in_at(v.holdings, j, a);
        lemma_entry_le_sum(v.holdings, j);
    } else {
        lemma_shares_in_absent(v.holdings, a);
    }
}

/// Index of `a`'s entry, if any.
fn find_holding(holdings: &Vec<Holding>, a: Account) -> (result: Option<usize>)
    ensures
        match result {
            Some(i) => i < holdings@.len() && holdings@[i as int].account == a,
            None => forall|j: int| 0 <= j < holdings@.len() ==> holdings@[j].account != a,
        },
{
    let mut i: usize = 0;
    while i < holdings.len()
        invariant
            i <= holdings.len(),
            forall|j: int| 0 <= j < i ==> holdings@[j].account != a,
        decreases holdings.len() - i,
    {
        if holdings[i].account == a {
            return Some(i);
        }
        i = i + 1;
    }
    None
}

/// Sets `a`'s entry to `new_shares` (removing it at zero), given `a`'s
/// current entry index `idx`.
fn store_shares(holdings: &mut Vec<Holding>, idx: Option<usize>, a: Account, new_shares: i128)
    requires
        accounts_unique(old(holdings)@),
        balances_positive(old(holdings)@),
        new_shares >= 0,
        match idx {
            Some(i) => i < old(holdings)@.len() && old(holdings)@[i as int].account == a,
            None => forall|j: int|
                0 <= j < old(holdings)@.len() ==> old(holdings)@[j].account != a,
        },
        idx is None ==> new_shares > 0,
    ensures
        accounts_unique(final(holdings)@),
        balances_positive(final(holdings)@),
        sum_shares(final(holdings)@) == sum_shares(old(holdings)@) - shares_in(old(holdings)@, a)
            + new_shares,
        shares_moved(old(holdings)@, final(holdings)@, a, new_shares - shares_in(old(holdings)@, a)),
{
    let ghost h = holdings@;
    match idx {
        Some(i) => {
            proof {
                lemma_shares_in_at(h, i as int, a);
            }
            if new_shares == 0 {
                holdings.remove(i);
                proof {
                    let h2 = holdings@;
                    h.remove_ensures(i as int);
                    lemma_sum_remove(h, i as int);
                    assert forall|x: int, y: int|
                        0 <= x < h2.len() && 0 <= y < h2.len() && x != y implies #[trigger] h2[x].account
                        != #[trigger] h2[y].account by {
                        let ox = if x < i { x } else { x + 1 };
                        let oy = if y < i { y } else { y + 1 };
                        assert(h2[x] == h[ox] && h2[y] == h[oy]);
                    }
                    assert forall|x: int| 0 <= x < h2.len() implies #[trigger] h2[x].shares > 0 by {
                        let ox = if x < i { x } else { x + 1 };
                        assert(h2[x] == h[ox]);
                    }
                    assert forall|b: Account| #[trigger] shares_in(h2, b) == if b == a {
                        shares_in(h, b) + (new_shares - shares_in(h, a))
                    } else {
                        shares_in(h, b)
                    } by {
                        if b == a {
                            assert forall|j: int| 0 <= j < h2.len() implies h2[j].account != a by {
                                let oj = if j < i { j } else { j + 1 };
                                assert(h2[j] == h[oj]);
                            }
                            lemma_shares_in_absent(h2, a);
                        } else if exists|j: int| 0 <= j < h.len() && h[j].account == b {
                            let j = choose|j: int| 0 <= j < h.len() && h[j].account == b;
                            lemma_shares_in_at(h, j, b);
                            let nj = if j < i { j } else { j - 1 };
                            assert(h2[nj] == h[j]);
                            lemma_shares_in_at(h2, nj, b);
                        } else {
                            assert forall|j: int| 0 <= j < h2.len() implies h2[j].account != b by {
                                let oj = if j < i { j } else { j + 1 };
                                assert(h2[j] == h[oj]);
                            }
                            lemma_shares_in_absent(h, b);
                            lemma_shares_in_absent(h2, b);
                        }
                    }
                }
            } else {
                holdings[i] = Holding { account: a, shares: new_shares };
                proof {
                    let h2 = holdings@;
                    lemma_sum_update(h, i as int, Holding { account: a, shares: new_shares });
                    assert forall|x: int, y: int|
                        0 <= x < h2.len() && 0 <= y < h2.len() && x != y implies #[trigger] h2[x].account
                        != #[trigger] h2[y].account by {
                        assert(h2[x].account == h[x].account && h2[y].account == h[y].account);
                    }
                    assert forall|b: Account| #[trigger] shares_in(h2, b) == if b == a {
                        shares_in(h, b) + (new_shares - shares_in(h, a))
                    } else {
                        shares_in(h, b)
                    } by {
                        if b == a {
                            lemma_shares_in_at(h2, i as int, a);
                        } else if exists|j: int| 0 <= j < h.len() && h[j].account == b {
                            let j = choose|j: int| 0 <= j < h.len() && h[j].account == b;
                            lemma_shares_in_at(h, j, b);
                            assert(h2[j] == h[j]);
                            lemma_shares_in_at(h2, j, b);
                        } else {
                            assert forall|j: int| 0 <= j < h2.len() implies h2[j].account != b by {
                                assert(h2[j].account == h[j].account);
                            }
                            lemma_shares_in_absent(h, b);
                            lemma_shares_in_absent(h2, b);
                        }
                    }
                }
            }
        },
        None => {
            holdings.push(Holding { account: a, shares: new_shares });
            proof {
                let h2 = holdings@;
                lemma_shares_in_absent(h, a);
                lemma_sum_push(h, Holding { account: a, shares: new_shares });
                assert(h2.drop_last() =~= h);
                assert forall|x: int, y: int|
                    0 <= x < h2.len() && 0 <= y < h2.len() && x != y implies #[trigger] h2[x].account
                    != #[trigger] h2[y].account by {
                    if x < h.len() && y < h.len() {
                        assert(h2[x] == h[x] && h2[y] == h[y]);
                    } else if x < h.len() {
                        assert(h2[x] == h[x]);
                    } else {
                        assert(h2[y] == h[y]);
                    }
                }
                assert forall|x: int| 0 <= x < h2.len() implies #[trigger] h2[x].shares > 0 by {
                    if x < h.len() {
                        assert(h2[x] == h[x]);
                    }
                }
            }
        },
    }
}

proof fn lemma_prefix_sum_step(h: Seq<Holding>, k: int)
    requires
        0 <= k < h.len(),
    ensures
        sum_shares(h.take(k + 1)) == sum_shares(h.take(k)) + h[k].shares,
{
    assert(h.take(k + 1).drop_last() =~= h.take(k));
}

proof fn lemma_prefix_sum_le(h: Seq<Holding>, k: int)
    requires
        balances_positive(h),
        0 <= k <= h.len(),
    ensures
        sum_shares(h.take(k)) <= sum_shares(h),
    decreases h.len() - k,
{
    if k == h.len() {
        assert(h.take(k) =~= h);
    } else {
        lemma_prefix_sum_step(h, k);
        lemma_prefix_sum_le(h, k + 1);
    }
}

/// Whether the share ledger has one entry per account.
fn holdings_unique(holdings: &Vec<Holding>) -> (result: bool)
    ensures
        result == accounts_unique(holdings@),
{
    let n = holdings.len();
    let mut i: usize = 0;
    while i < n
        invariant
            n == holdings@.len(),
            i <= n,
            forall|p: int, q: int|
                0 <= p < i && p < q < n ==> holdings@[p].account != holdings@[q].account,
        decreases n - i,
    {
        let mut j: usize = i + 1;
        while j < n
            invariant
                n == holdings@.len(),
                i < n,
                i + 1 <= j <= n,
                forall|p: int, q: int|
                    0 <= p < i && p < q < n ==> holdings@[p].account != holdings@[q].account,
                forall|q: int| i < q < j ==> holdings@[i as int].account != holdings@[q].account,
            decreases n - j,
        {
            if holdings[i].account == holdings[j].account {
                assert(!accounts_unique(holdings@)) by {
                    assert(holdings@[i as int].account == holdings@[j as int].account);
                }
                return false;
            }
            j = j + 1;
        }
        i = i + 1;
    }
    assert forall|x: int, y: int|
        0 <= x < holdings@.len() && 0 <= y < holdings@.len() && x != y implies #[trigger] holdings@[x].account
        != #[trigger] holdings@[y].account by {
        if x < y {
            assert(holdings@[x].account != holdings@[y].account);
        } else {
            assert(holdings@[y].account != holdings@[x].account);
        }
    }
    true
}

impl AutoCompoundVaultContract {
    /// A vault with empty storage.
    pub fn new() -> (result: AutoCompoundVaultContract)
        ensures
            result@.config is None,
            result@.harvest_fee_bps == DEFAULT_HARVEST_FEE_BPS,
            result@.total_shares == 0,
            result@.total_managed_assets == 0,
            result@.holdings == Seq::<Holding>::empty(),
            result@.effects == Seq::<VaultEffect>::empty(),
            vault_wf(result@),
    {
        AutoCompoundVaultContract {
            config: None,
            harvest_fee_bps: DEFAULT_HARVEST_FEE_BPS,
            total_shares: 0,
            total_managed_assets: 0,
            holdings: Vec::new(),
            effects: Vec::new(),
        }
    }

    /// Initialises the vault with its admin, asset token, lending contract
    /// and harvest fee (at most `MAX_HARVEST_FEE_BPS`).
    pub fn initialize(
        &mut self,
        admin: Account,
        asset_token: Account,
        lending_contract: Account,
        harvest_fee_bps: u32,
    ) -> (result: Result<(), ContractError>)
        requires
            vault_wf(old(self)@),
        ensures
            spec_vault_initialize(
                old(self)@,
                VaultConfig { admin, asset_token, lending_contract },
                harvest_fee_bps,
            ) == match result {
                Ok(()) => Ok(final(self)@),
                Err(e) => Err(e),
            },
            result is Err ==> final(self)@ == old(self)@,
            vault_wf(final(self)@),
    {
        if self.config.is_some() {
            return Err(ContractError::VaultAlreadyInitialised);
        }
        if harvest_fee_bps > MAX_HARVEST_FEE_BPS {
            return Err(ContractError::HarvestFeeTooHigh);
        }
        proof {
            lemma_sum_nonneg(self.holdings@);
        }
        self.config = Some(VaultConfig { admin, asset_token, lending_contract });
        self.harvest_fee_bps = harvest_fee_bps;
        self.total_shares = 0;
        self.total_managed_assets = 0;
        self.effects = Vec::new();
        Ok(())
    }

    /// Whether the stored state satisfies the vault's invariant
    /// (`vault_wf`); the host checks this before operating on state it
    /// loaded from the ledger.
    pub fn is_well_formed(&self) -> (result: bool)
        ensures
            result == vault_wf(self@),
    {
        if !holdings_unique(&self.holdings) {
            return false;
        }
        let n = self.holdings.len();
        let mut sum: i128 = 0;
        let mut i: usize = 0;
        while i < n
            invariant
                n == self.holdings@.len(),
                i <= n,
                balances_positive(self.holdings@.take(i as int)),
                sum == sum_shares(self.holdings@.take(i as int)),
            decreases n - i,
        {
            let entry = self.holdings[i];
            proof {
                lemma_prefix_sum_step(self.holdings@, i as int);
                assert(self.holdings@.take(i + 1).drop_last() =~= self.holdings@.take(i as int));
            }
            if entry.shares <= 0 {
                assert(!balances_positive(self.holdings@)) by {
                    assert(self.holdings@[i as int].shares <= 0);
                }
                return false;
            }
            sum = match sum.checked_add(entry.shares) {
                Some(v) => v,
                None => {
                    proof {
                        if balances_positive(self.holdings@) {
                            lemma_prefix_sum_le(self.holdings@, i + 1);
                        }
                    }
                    return false;
                },
            };
            proof {
                assert forall|j: int| 0 <= j < i + 1 implies #[trigger] self.holdings@.take(
                    i + 1,
                )[j].shares > 0 by {
                    if j < i {
                        assert(self.holdings@.take(i + 1)[j] == self.holdings@.take(i as int)[j]);
                    }
                }
            }
            i = i + 1;
        }
        proof {
            assert(self.holdings@.take(n as int) =~= self.holdings@);
        }
        if sum != self.total_shares {
            return false;
        }
        if self.total_managed_assets < 0 {
            return false;
        }
        if (self.total_shares == 0) != (self.total_managed_assets == 0) {
            return false;
        }
        if self.harvest_fee_bps > MAX_HARVEST_FEE_BPS {
            return false;
        }
        if self.config.is_none() && self.total_shares != 0 {
            return false;
        }
        true
    }

    /// A lender deposits `amount` of the asset token and receives vault
    /// shares: one per unit in an empty vault, otherwise in proportion to
    /// the shares already outstanding. Returns the shares minted.
    pub fn deposit(&mut self, from: Account, amount: i128) -> (result: Result<i128, ContractError>)
        requires
            vault_wf(old(self)@),
        ensures
            vault_wf(final(self)@),
            result == spec_deposit_outcome(old(self)@, from, amount),
            result is Err ==> final(self)@ == old(self)@,
            result matches Ok(shares) ==> {
                &&& final(self)@.total_shares == old(self)@.total_shares + shares
                &&& final(self)@.total_managed_assets == old(self)@.total_managed_assets + amount
                &&& shares_moved(old(self)@.holdings, final(self)@.holdings, from, shares as int)
                &&& final(self)@.config == old(self)@.config
                &&& final(self)@.harvest_fee_bps == old(self)@.harvest_fee_bps
                &&& final(self)@.effects == seq![
                    VaultEffect::TransferIn { from, amount },
                    VaultEffect::Deposited { from, amount, shares },
                ]
            },
    {
        if amount <= 0 {
            return Err(ContractError::DepositNotPositive);
        }
        if self.config.is_none() {
            return Err(ContractError::VaultNotInitialised);
        }
        let total_shares = self.total_shares;
        let total_managed = self.total_managed_assets;
        proof {
            holder_shares_within_total(self@, from);
        }
        let shares = if total_shares == 0 || total_managed == 0 {
            amount
        } else {
            let product = match amount.checked_mul(total_shares) {
                Some(p) => p,
                None => return Err(ContractError::ArithmeticOverflow),
            };
            proof {
                assert(product > 0) by (nonlinear_arith)
                    requires
                        product == amount * total_shares,
                        amount > 0,
                        total_shares > 0,
                ;
            }
            match product.checked_div(total_managed) {
                Some(q) => q,
                None => return Err(ContractError::ArithmeticOverflow),
            }
        };
        if shares <= 0 {
            return Err(ContractError::ZeroSharesMinted);
        }
        let idx = find_holding(&self.holdings, from);
        let current = match idx {
            Some(i) => self.holdings[i].shares,
            None => 0,
        };
        proof {
            match idx {
                Some(i) => lemma_shares_in_at(self.holdings@, i as int, from),
                None => lemma_shares_in_absent(self.holdings@, from),
            }
        }
        let new_user_shares = match current.checked_add(shares) {
            Some(v) => v,
            None => return Err(ContractError::ArithmeticOverflow),
        };
        let new_total_shares = match total_shares.checked_add(shares) {
            Some(v) => v,
            None => return Err(ContractError::ArithmeticOverflow),
        };
        let new_total_managed = match total_managed.checked_add(amount) {
            Some(v) => v,
            None => return Err(ContractError::ArithmeticOverflow),
        };
        store_shares(&mut self.holdings, idx, from, new_user_shares);
        self.total_shares = new_total_shares;
        self.total_managed_assets = new_total_managed;
        self.effects = vec![
            VaultEffect::TransferIn { from, amount },
            VaultEffect::Deposited { from, amount, shares },
        ];
        Ok(shares)
    }

    /// A lender redeems `shares` for their part of the managed assets
    /// (principal plus compounded yield). Returns the assets paid out.
    pub fn withdraw(&mut self, from: Account, shares: i128) -> (result: Result<i128, ContractError>)
        requires
            vault_wf(old(self)@),
        ensures
            vault_wf(final(self)@),
            result == spec_withdraw_outcome(old(self)@, from, shares),
            result is Err ==> final(self)@ == old(self)@,
            result matches Ok(amount) ==> {
                &&& final(self)@.total_shares == old(self)@.total_shares - shares
                &&& final(self)@.total_managed_assets == old(self)@.total_managed_assets - amount
                &&& shares_moved(old(self)@.holdings, final(self)@.holdings, from, -shares)
                &&& final(self)@.config == old(self)@.config
                &&& final(self)@.harvest_fee_bps == old(self)@.harvest_fee_bps
                &&& final(self)@.effects == seq![
                    VaultEffect::TransferOut { to: from, amount },
                    VaultEffect::Withdrawn { from, shares, amount },
                ]
            },
    {
        if shares <= 0 {
            return Err(ContractError::SharesNotPositive);
        }
        let idx = find_holding(&self.holdings, from);
        let user_shares = match idx {
            Some(i) => self.holdings[i].shares,
            None => 0,
        };
        proof {
            match idx {
                Some(i) => lemma_shares_in_at(self.holdings@, i as int, from),
                None => lemma_shares_in_absent(self.holdings@, from),
            }
            holder_shares_within_total(self@, from);
        }
        if user_shares < shares {
            return Err(ContractError::InsufficientShares);
        }
        let total_shares = self.total_shares;
        let total_managed = self.total_managed_assets;
        let product = match shares.checked_mul(total_managed) {
            Some(p) => p,
            None => return Err(ContractError::ArithmeticOverflow),
        };
        proof {
            assert(0 <= product <= total_shares * total_managed) by (nonlinear_arith)
                requires
                    product == shares * total_managed,
                    0 < shares <= total_shares,
                    total_managed >= 0,
            ;
            vstd::arithmetic::div_mod::lemma_div_is_ordered(
                product as int,
                total_shares * total_managed,
                total_shares as int,
            );
            vstd::arithmetic::div_mod::lemma_div_by_multiple(
                total_managed as int,
                total_shares as int,
            );
            assert(total_shares * total_managed == total_managed * total_shares) by (
            nonlinear_arith);
        }
        let amount = match product.checked_div(total_shares) {
            Some(q) => q,
            None => return Err(ContractError::ArithmeticOverflow),
        };
        if amount <= 0 {
            return Err(ContractError::ZeroPayout);
        }
        if self.config.is_none() {
            return Err(ContractError::VaultNotInitialised);
        }
        let new_user_shares = user_shares - shares;
        let new_total_shares = total_shares - shares;
        let new_total_managed = total_managed - amount;
        proof {
            if new_total_shares > 0 {
                // a partial redemption leaves assets behind
                assert(product < total_shares * total_managed) by (nonlinear_arith)
                    requires
                        product == shares * total_managed,
                        0 < shares < total_shares,
                        total_managed > 0,
                ;
                assert(amount * total_shares <= product) by (nonlinear_arith)
                    requires
                        amount == product / total_shares,
                        product >= 0,
                        total_shares > 0,
                ;
                assert(amount < total_managed) by (nonlinear_arith)
                    requires
                        amount * total_shares <= product,
                        product < total_shares * total_managed,
                        total_shares > 0,
                ;
            } else {
                assert(amount == total_managed) by (nonlinear_arith)
                    requires
                        amount == product / total_shares,
                        product == shares * total_managed,
                        shares == total_shares,
                        total_shares > 0,
                ;
            }
        }
        store_shares(&mut self.holdings, idx, from, new_user_shares);
        self.total_shares = new_total_shares;
        self.total_managed_assets = new_total_managed;
        self.effects = vec![
            VaultEffect::TransferOut { to: from, amount },
            VaultEffect::Withdrawn { from, shares, amount },
        ];
        Ok(amount)
    }

    /// Anyone may harvest `yield_amount` of interest: the caller earns the
    /// harvest fee and the rest is reinvested into the managed assets,
    /// raising the value of every share. Returns the amount reinvested.
    pub fn harvest(&mut self, caller: Account, yield_amount: i128) -> (result: Result<
        i128,
        ContractError,
    >)
        requires
            vault_wf(old(self)@),
        ensures
            vault_wf(final(self)@),
            result == spec_harvest_outcome(old(self)@, yield_amount),
            result is Err ==> final(self)@ == old(self)@,
            result matches Ok(reinvest) ==> {
                let fee = yield_amount - reinvest;
                &&& fee == harvest_fee(yield_amount as int, old(self)@.harvest_fee_bps as int)
                &&& 0 <= fee <= reinvest
                &&& final(self)@.total_managed_assets == old(self)@.total_managed_assets + reinvest
                &&& final(self)@.total_shares == old(self)@.total_shares
                &&& final(self)@.holdings == old(self)@.holdings
                &&& final(self)@.config == old(self)@.config
                &&& final(self)@.harvest_fee_bps == old(self)@.harvest_fee_bps
                &&& final(self)@.effects == if fee > 0 {
                    seq![
                        VaultEffect::TransferOut { to: caller, amount: fee as i128 },
                        VaultEffect::Harvested {
                            caller,
                            yield_amount,
                            fee: fee as i128,
                            reinvest,
                        },
                    ]
                } else {
                    seq![
                        VaultEffect::Harvested {
                            caller,
                            yield_amount,
                            fee: fee as i128,
                            reinvest,
                        },
                    ]
                }
            },
    {
        if yield_amount <= 0 {
            return Err(ContractError::YieldNotPositive);
        }
        let total_shares = self.total_shares;
        if total_shares == 0 {
            return Err(ContractError::NoActiveDeposits);
        }
        let fee_bps = self.harvest_fee_bps;
        let product = match yield_amount.checked_mul(fee_bps as i128) {
            Some(p) => p,
            None => return Err(ContractError::ArithmeticOverflow),
        };
        proof {
            assert(0 <= product <= yield_amount * 1000) by (nonlinear_arith)
                requires
                    product == yield_amount * fee_bps,
                    yield_amount > 0,
                    0 <= fee_bps <= 1000,
            ;
            vstd::arithmetic::div_mod::lemma_div_is_ordered(
                product as int,
                yield_amount * 1000,
                10_000,
            );
        }
        let fee = match product.checked_div(10_000) {
            Some(q) => q,
            None => return Err(ContractError::ArithmeticOverflow),
        };
        let reinvest = yield_amount - fee;
        let mut effects: Vec<VaultEffect> = Vec::new();
        if fee > 0 {
            if self.config.is_none() {
                return Err(ContractError::VaultNotInitialised);
            }
            effects.push(VaultEffect::TransferOut { to: caller, amount: fee });
        }
        let current_managed = self.total_managed_assets;
        let new_managed = match current_managed.checked_add(reinvest) {
            Some(v) => v,
            None => return Err(ContractError::ArithmeticOverflow),
        };
        effects.push(
            VaultEffect::Harvested { caller, yield_amount, fee, reinvest },
        );
        self.total_managed_assets = new_managed;
        self.effects = effects;
        Ok(reinvest)
    }

    /// The admin; `VaultNotInitialised` before initialisation.
    pub fn get_admin(&self) -> (result: Result<Account, ContractError>)
        ensures
            result == match self@.config {
                Some(c) => Ok(c.admin),
                None => Err(ContractError::VaultNotInitialised),
            },
    {
        match self.config {
            Some(c) => Ok(c.admin),
            None => Err(ContractError::VaultNotInitialised),
        }
    }

    /// The asset token; `VaultNotInitialised` before initialisation.
    pub fn get_asset_token(&self) -> (result: Result<Account, ContractError>)
        ensures
            result == match self@.config {
                Some(c) => Ok(c.asset_token),
                None => Err(ContractError::VaultNotInitialised),
            },
    {
        match self.config {
            Some(c) => Ok(c.asset_token),
            None => Err(ContractError::VaultNotInitialised),
        }
    }

    /// The lending contract; `VaultNotInitialised` before initialisation.
    pub fn get_lending_contract(&self) -> (result: Result<Account, ContractError>)
        ensures
            result == match self@.config {
                Some(c) => Ok(c.lending_contract),
                None => Err(ContractError::VaultNotInitialised),
            },
    {
        match self.config {
            Some(c) => Ok(c.lending_contract),
            None => Err(ContractError::VaultNotInitialised),
        }
    }

    /// The harvest fee in basis points.
    pub fn get_harvest_fee_bps(&self) -> (result: u32)
        ensures
            result == self@.harvest_fee_bps,
    {
        self.harvest_fee_bps
    }

    /// The admin sets a new harvest fee of at most `MAX_HARVEST_FEE_BPS`.
    pub fn set_harvest_fee_bps(&mut self, caller: Account, fee_bps: u32) -> (result: Result<
        (),
        ContractError,
    >)
        requires
            vault_wf(old(self)@),
        ensures
            result == spec_set_fee_outcome(old(self)@, caller, fee_bps),
            result is Err ==> final(self)@ == old(self)@,
            result is Ok ==> final(self)@ == (VaultView {
                harvest_fee_bps: fee_bps,
                effects: Seq::empty(),
                ..old(self)@
            }),
            vault_wf(final(self)@),
    {
        let admin = match self.config {
            Some(c) => c.admin,
            None => return Err(ContractError::VaultNotInitialised),
        };
        if caller != admin {
            return Err(ContractError::UnauthorisedCaller);
        }
        if fee_bps > MAX_HARVEST_FEE_BPS {
            return Err(ContractError::HarvestFeeTooHigh);
        }
        self.harvest_fee_bps = fee_bps;
        self.effects = Vec::new();
        Ok(())
    }

    /// Total vault shares outstanding.
    pub fn get_total_shares(&self) -> (result: i128)
        ensures
            result == self@.total_shares,
    {
        self.total_shares
    }

    /// Assets under management.
    pub fn get_total_managed_assets(&self) -> (result: i128)
        ensures
            result == self@.total_managed_assets,
    {
        self.total_managed_assets
    }

    /// Shares held by `user`.
    pub fn get_shares_of(&self, user: Account) -> (result: i128)
        requires
            vault_wf(self@),
        ensures
            result == shares_in(self@.holdings, user),
    {
        match find_holding(&self.holdings, user) {
            Some(i) => {
                proof {
                    lemma_shares_in_at(self.holdings@, i as int, user);
                }
                self.holdings[i].shares
            },
            None => {
                proof {
                    lemma_shares_in_absent(self.holdings@, user);
                }
                0
            },
        }
    }

    /// Assets `user` could redeem with all their shares.
    pub fn get_user_asset_balance(&self, user: Account) -> (result: i128)
        requires
            vault_wf(self@),
            fits_i128(shares_in(self@.holdings, user) * self@.total_managed_assets),
        ensures
            result == asset_value(
                self@.total_shares as int,
                self@.total_managed_assets as int,
                shares_in(self@.holdings, user),
            ),
    {
        let total_shares = self.total_shares;
        if total_shares == 0 {
            return 0;
        }
        let user_shares = self.get_shares_of(user);
        let total_managed = self.total_managed_assets;
        proof {
            holder_shares_within_total(self@, user);
            assert(user_shares * total_managed >= 0) by (nonlinear_arith)
                requires
                    user_shares >= 0,
                    total_managed >= 0,
            ;
        }
        let product = user_shares * total_managed;
        proof {
            assert(0 <= product <= total_shares * total_managed) by (nonlinear_arith)
                requires
                    product == user_shares * total_managed,
                    0 <= user_shares <= total_shares,
                    total_managed >= 0,
            ;
            vstd::arithmetic::div_mod::lemma_div_is_ordered(
                product as int,
                total_shares * total_managed,
                total_shares as int,
            );
            vstd::arithmetic::div_mod::lemma_div_by_multiple(
                total_managed as int,
                total_shares as int,
            );
            assert(total_shares * total_managed == total_managed * total_shares) by (
            nonlinear_arith);
        }
        product / total_shares
    }

    /// Assets per share, scaled by `PRECISION`.
    pub fn get_exchange_rate(&self) -> (result: i128)
        requires
            vault_wf(self@),
            fits_i128(self@.total_managed_assets * PRECISION),
        ensures
            result == exchange_rate(self@.total_shares as int, self@.total_managed_assets as int),
    {
        let total_shares = self.total_shares;
        if total_shares == 0 {
            return PRECISION;
        }
        let total_managed = self.total_managed_assets;
        proof {
            lemma_sum_nonneg(self.holdings@);
        }
        let product = total_managed * PRECISION;
        product / total_shares
    }
}

// ----- laws -----

/// `d × floor(x / d) <= x` for non-negative `x` and positive `d`.
proof fn lemma_floor_div_le(x: int, d: int)
    requires
        x >= 0,
        d > 0,
    ensures
        (x / d) * d <= x,
        x / d >= 0,
{
    vstd::arithmetic::div_mod::lemma_fundamental_div_mod(x, d);
    vstd::arithmetic::div_mod::lemma_mod_pos_bound(x, d);
    vstd::arithmetic::div_mod::lemma_div_pos_is_pos(x, d);
    vstd::arithmetic::mul::lemma_mul_is_commutative(d, x / d);
}

/// Scaling `u` by the larger of two ratios `a / b >= c / d` gives the
/// larger floor.
proof fn lemma_scaled_ratio_monotone(u: int, a: int, b: int, c: int, d: int)
    requires
        u >= 0,
        a >= 0,
        c >= 0,
        b > 0,
        d > 0,
        a * d >= c * b,
    ensures
        (u * a) / b >= (u * c) / d,
{
    assert(u * c >= 0) by (nonlinear_arith)
        requires
            u >= 0,
            c >= 0,
    ;
    let q = (u * c) / d;
    lemma_floor_div_le(u * c, d);
    assert(q * d * b <= u * c * b) by (nonlinear_arith)
        requires
            q * d <= u * c,
            b > 0,
    ;
    assert(u * c * b <= u * a * d) by (nonlinear_arith)
        requires
            u >= 0,
            c * b <= a * d,
    ;
    assert(q * b <= u * a) by (nonlinear_arith)
        requires
            q * d * b <= u * a * d,
            d > 0,
    ;
    vstd::arithmetic::div_mod::lemma_div_is_ordered(q * b, u * a, b);
    vstd::arithmetic::div_mod::lemma_div_by_multiple(q, b);
}

/// The value of a holding and the exchange rate do not drop when the
/// managed assets and the share supply move from `(ts, tm)` to
/// `(ts2, tm2)` with `tm2 / ts2 >= tm / ts`.
proof fn lemma_share_value_not_lower(ts: int, tm: int, ts2: int, tm2: int, u: int)
    requires
        ts > 0,
        ts2 > 0,
        tm >= 0,
        tm2 >= 0,
        u >= 0,
        tm2 * ts >= tm * ts2,
    ensures
        asset_value(ts2, tm2, u) >= asset_value(ts, tm, u),
        exchange_rate(ts2, tm2) >= exchange_rate(ts, tm),
{
    lemma_scaled_ratio_monotone(u, tm2, ts2, tm, ts);
    lemma_scaled_ratio_monotone(PRECISION as int, tm2, ts2, tm, ts);
    vstd::arithmetic::mul::lemma_mul_is_commutative(PRECISION as int, tm2);
    vstd::arithmetic::mul::lemma_mul_is_commutative(PRECISION as int, tm);
}

/// Redeeming the shares a deposit just minted never returns more than was
/// deposited: rounding always favours the vault.
pub proof fn deposit_then_redeem_returns_at_most_deposit(
    v: VaultView,
    v1: VaultView,
    from: Account,
    amount: i128,
    minted: i128,
)
    requires
        vault_wf(v),
        spec_deposit_outcome(v, from, amount) == Ok::<i128, ContractError>(minted),
        v1.total_shares == v.total_shares + minted,
        v1.total_managed_assets == v.total_managed_assets + amount,
        shares_moved(v.holdings, v1.holdings, from, minted as int),
        v1.config == v.config,
    ensures
        spec_withdraw_outcome(v1, from, minted) matches Ok(out) ==> out <= amount,
{
    let ts = v.total_shares as int;
    let tm = v.total_managed_assets as int;
    let x = amount as int;
    let m = minted as int;
    lemma_sum_nonneg(v.holdings);
    if ts == 0 || tm == 0 {
        assert(m == x);
        vstd::arithmetic::div_mod::lemma_div_by_multiple(tm + x, x);
        assert(m * (tm + x) == (tm + x) * x) by (nonlinear_arith)
            requires
                m == x,
        ;
        assert(ts == 0 && tm == 0);
    } else {
        lemma_floor_div_le(x * ts, tm);
        assert(m * (tm + x) <= x * (ts + m)) by (nonlinear_arith)
            requires
                m * tm <= x * ts,
                m == (x * ts) / tm,
        ;
        vstd::arithmetic::div_mod::lemma_div_is_ordered(m * (tm + x), x * (ts + m), ts + m);
        vstd::arithmetic::div_mod::lemma_div_by_multiple(x, ts + m);
        assert(x * (ts + m) == (ts + m) * x) by (nonlinear_arith);
    }
}

/// A holder who owns every share redeems all of the managed assets:
/// principal plus every reinvested yield.
pub proof fn redeeming_every_share_pays_all_assets(v: VaultView, from: Account)
    requires
        vault_wf(v),
        v.total_shares > 0,
        shares_in(v.holdings, from) == v.total_shares,
        fits_i128(v.total_shares * v.total_managed_assets),
    ensures
        spec_withdraw_outcome(v, from, v.total_shares) == Ok::<i128, ContractError>(
            v.total_managed_assets,
        ),
{
    let ts = v.total_shares as int;
    let tm = v.total_managed_assets as int;
    vstd::arithmetic::div_mod::lemma_div_by_multiple(tm, ts);
    assert(ts * tm == tm * ts) by (nonlinear_arith);
}

/// A deposit never lowers what any existing holding is worth, nor the
/// exchange rate: new shares are minted at (or below) the current value.
pub proof fn deposit_never_dilutes(v: VaultView, from: Account, amount: i128, minted: i128, u: int)
    requires
        vault_wf(v),
        spec_deposit_outcome(v, from, amount) == Ok::<i128, ContractError>(minted),
        0 <= u,
    ensures
        asset_value(v.total_shares + minted, v.total_managed_assets + amount, u) >= asset_value(
            v.total_shares as int,
            v.total_managed_assets as int,
            u,
        ),
        exchange_rate(v.total_shares + minted, v.total_managed_assets + amount) >= exchange_rate(
            v.total_shares as int,
            v.total_managed_assets as int,
        ),
{
    let ts = v.total_shares as int;
    let tm = v.total_managed_assets as int;
    let x = amount as int;
    let m = minted as int;
    lemma_sum_nonneg(v.holdings);
    if ts == 0 {
        assert(tm == 0 && m == x);
        assert(u * (tm + x) >= 0) by (nonlinear_arith)
            requires
                u >= 0,
                tm + x >= 0,
        ;
        vstd::arithmetic::div_mod::lemma_div_pos_is_pos(u * (tm + x), ts + m);
        vstd::arithmetic::div_mod::lemma_div_by_multiple(PRECISION as int, x);
        assert((tm + x) * PRECISION == PRECISION * x) by (nonlinear_arith)
            requires
                tm == 0,
        ;
    } else {
        lemma_floor_div_le(x * ts, tm);
        assert((tm + x) * ts >= tm * (ts + m)) by (nonlinear_arith)
            requires
                m * tm <= x * ts,
        ;
        lemma_share_value_not_lower(ts, tm, ts + m, tm + x, u);
    }
}

/// A redemption that leaves shares outstanding never lowers what the
/// remaining holdings are worth, nor the exchange rate: payouts round down.
pub proof fn withdraw_never_dilutes(v: VaultView, from: Account, shares: i128, paid: i128, u: int)
    requires
        vault_wf(v),
        spec_withdraw_outcome(v, from, shares) == Ok::<i128, ContractError>(paid),
        v.total_shares - shares > 0,
        0 <= u,
    ensures
        asset_value(v.total_shares - shares, v.total_managed_assets - paid, u) >= asset_value(
            v.total_shares as int,
            v.total_managed_assets as int,
            u,
        ),
        exchange_rate(v.total_shares - shares, v.total_managed_assets - paid) >= exchange_rate(
            v.total_shares as int,
            v.total_managed_assets as int,
        ),
{
    let ts = v.total_shares as int;
    let tm = v.total_managed_assets as int;
    let s = shares as int;
    let p = paid as int;
    assert(s * tm >= 0) by (nonlinear_arith)
        requires
            s > 0,
            tm >= 0,
    ;
    lemma_floor_div_le(s * tm, ts);
    assert(p <= tm) by {
        assert(s * tm <= ts * tm) by (nonlinear_arith)
            requires
                s <= ts,
                tm >= 0,
        ;
        vstd::arithmetic::div_mod::lemma_div_is_ordered(s * tm, ts * tm, ts);
        vstd::arithmetic::div_mod::lemma_div_by_multiple(tm, ts);
        assert(ts * tm == tm * ts) by (nonlinear_arith);
    }
    assert((tm - p) * ts >= tm * (ts - s)) by (nonlinear_arith)
        requires
            p * ts <= s * tm,
    ;
    lemma_share_value_not_lower(ts, tm, ts - s, tm - p, u);
}

/// A harvest never lowers what any holding is worth, nor the exchange
/// rate: the reinvested yield only adds to the managed assets.
pub proof fn harvest_never_dilutes(v: VaultView, yield_amount: i128, reinvest: i128, u: int)
    requires
        vault_wf(v),
        spec_harvest_outcome(v, yield_amount) == Ok::<i128, ContractError>(reinvest),
        0 <= u,
    ensures
        reinvest > 0,
        asset_value(v.total_shares as int, v.total_managed_assets + reinvest, u) >= asset_value(
            v.total_shares as int,
            v.total_managed_assets as int,
            u,
        ),
        exchange_rate(v.total_shares as int, v.total_managed_assets + reinvest) >= exchange_rate(
            v.total_shares as int,
            v.total_managed_assets as int,
        ),
{
    let ts = v.total_shares as int;
    let tm = v.total_managed_assets as int;
    let y = yield_amount as int;
    let f = v.harvest_fee_bps as int;
    lemma_sum_nonneg(v.holdings);
    assert(0 <= y * f <= y * 1000) by (nonlinear_arith)
        requires
            y > 0,
            0 <= f <= 1000,
    ;
    vstd::arithmetic::div_mod::lemma_div_is_ordered(y * f, y * 1000, 10_000);
    assert(y * 1000 / 10_000 < y);
    assert((tm + reinvest) * ts >= tm * ts) by (nonlinear_arith)
        requires
            reinvest >= 0,
            ts > 0,
    ;
    lemma_share_value_not_lower(ts, tm, ts, tm + reinvest, u);
}

/// Any holder may top up: in an initialised, well-formed vault a positive
/// deposit is accepted whatever the depositor already holds, as long as it
/// mints at least one share (one per unit into an empty vault, otherwise
/// `amount × total_shares / total_managed` rounded down) and no balance
/// leaves the `i128` range. The deposit then mints exactly those shares.
pub proof fn deposit_accepted_for_any_holder(v: VaultView, from: Account, amount: i128)
    requires
        vault_wf(v),
        v.config is Some,
        amount > 0,
        v.total_shares != 0 ==> fits_i128(amount * v.total_shares),
        ({
            let m = if v.total_shares == 0 {
                amount as int
            } else {
                amount * v.total_shares / (v.total_managed_assets as int)
            };
            &&& m > 0
            &&& fits_i128(shares_in(v.holdings, from) + m)
            &&& fits_i128(v.total_shares + m)
            &&& fits_i128(v.total_managed_assets + amount)
        }),
    ensures
        spec_deposit_outcome(v, from, amount) == Ok::<i128, ContractError>(
            (if v.total_shares == 0 {
                amount as int
            } else {
                amount * v.total_shares / (v.total_managed_assets as int)
            }) as i128,
        ),
{
}

/// A holder may redeem any positive part of their shares: in an
/// initialised, well-formed vault the redemption is accepted whenever it
/// pays out something (`shares × total_managed / total_shares`, rounded
/// down) and the product fits in `i128`, and it pays exactly that.
pub proof fn withdraw_accepted_for_any_holding(v: VaultView, from: Account, shares: i128)
    requires
        vault_wf(v),
        v.config is Some,
        0 < shares <= shares_in(v.holdings, from),
        fits_i128(shares * v.total_managed_assets),
        shares * v.total_managed_assets / (v.total_shares as int) > 0,
    ensures
        spec_withdraw_outcome(v, from, shares) == Ok::<i128, ContractError>(
            (shares * v.total_managed_assets / (v.total_shares as int)) as i128,
        ),
{
}

/// Anyone may harvest positive yield into a vault with deposits: the
/// harvest is accepted whenever the arithmetic fits in `i128`, the caller
/// earns `yield × fee_bps / 10_000` (rounded down) and the rest is
/// reinvested.
pub proof fn harvest_accepted_with_deposits(v: VaultView, yield_amount: i128)
    requires
        vault_wf(v),
        v.config is Some,
        yield_amount > 0,
        v.total_shares > 0,
        fits_i128(yield_amount * v.harvest_fee_bps),
        fits_i128(
            v.total_managed_assets + yield_amount - yield_amount * v.harvest_fee_bps / 10_000,
        ),
    ensures
        spec_harvest_outcome(v, yield_amount) == Ok::<i128, ContractError>(
            (yield_amount - yield_amount * v.harvest_fee_bps / 10_000) as i128,
        ),
{
}

} // verus!
