use crate::errors::ContractError;
use crate::pubkey::Pubkey;
use vstd::prelude::*;

verus! {

/// Lifecycle state of a market. The status only ever advances:
/// `Prepare` (created, not yet open) to `Active` (accepting bets,
/// resolvable) to `Finished` (terminal, result fixed).
#[derive(Clone, Copy, Debug, PartialEq, Eq, Structural)]
pub enum MarketStatus {
    Prepare,
    Active,
    Finished,
}

/// One two-sided outcome market: the owning parties, the lifecycle state,
/// the outstanding outcome-token supplies held in custody, and the
/// bonding-curve bookkeeping.
#[derive(Clone, Copy, Debug, PartialEq, Eq, Structural)]
pub struct Market {
    /// Identity of the market's creator, who receives the creator share of
    /// each betting fee.
    pub creator: Pubkey,
    /// Identity of the external price feed this market resolves against.
    pub feed: Pubkey,
    /// Target threshold: the market resolves to `true` when the feed value
    /// reaches it.
    pub quest: u16,
    pub market_status: MarketStatus,
    /// Outcome of the market; meaningful only once `market_status` is
    /// `Finished`.
    pub result: bool,
    /// Identity of the "yes" outcome-token registry.
    pub token_a: Pubkey,
    /// Identity of the "no" outcome-token registry.
    pub token_b: Pubkey,
    /// Outstanding supply of the "yes" outcome token in market custody.
    pub token_a_amount: u64,
    /// Outstanding supply of the "no" outcome token in market custody.
    pub token_b_amount: u64,
    /// Current unit price of the "yes" token, in native base units.
    pub token_price_a: u64,
    /// Current unit price of the "no" token, in native base units.
    pub token_price_b: u64,
    /// Count of bets placed on the "yes" side; starts at 1 so that no side
    /// ever shows a zero bet count.
    pub yes_amount: u16,
    /// Count of bets placed on the "no" side; starts at 1.
    pub no_amount: u16,
    /// The bonding curve's constant: set once at creation from the initial
    /// symmetric supply and price, never re-derived mid-market.
    pub total_reserve: u64,
}

/// The market invariant: while a market can still trade, both outcome-token
/// supplies are positive, so the pricing divisions are well defined.
pub open spec fn market_wf(m: Market) -> bool {
    m.market_status != MarketStatus::Finished ==> m.token_a_amount > 0 && m.token_b_amount > 0
}

/// The lifecycle state machine: a status may stay where it is, open a
/// prepared market, or finish an active one. No regression, no skipping.
pub open spec fn valid_transition(from: MarketStatus, to: MarketStatus) -> bool {
    to == from
    || (from == MarketStatus::Prepare && to == MarketStatus::Active)
    || (from == MarketStatus::Active && to == MarketStatus::Finished)
}

/// Whether initial market settings are computable without overflow or a zero
/// divisor: the doubled supply and the reserve product must fit in 64 bits,
/// and the supply must be positive.
pub open spec fn settings_ok(token_amount: u64, token_price: u64) -> bool {
    token_amount + token_amount <= u64::MAX
    && token_amount * token_price <= u64::MAX
    && token_amount > 0
}

/// The bonding curve's constant, fixed at creation:
/// `floor(token_amount * token_price / (2 * token_amount))`.
pub open spec fn initial_reserve(token_amount: u64, token_price: u64) -> int {
    token_amount * token_price / (2 * token_amount)
}

/// The curve's unit price for the side holding `own` of the two supplies
/// `a` and `b`: `floor(reserve * (a + b) / own)`.
pub open spec fn curve_price(reserve: int, a: int, b: int, own: int) -> int {
    reserve * (a + b) / own
}

/// Both listed prices sit on the bonding curve for the current supplies and
/// the market's fixed reserve.
pub open spec fn prices_on_curve(m: Market) -> bool {
    m.token_price_a as int == curve_price(
        m.total_reserve as int,
        m.token_a_amount as int,
        m.token_b_amount as int,
        m.token_a_amount as int,
    )
    && m.token_price_b as int == curve_price(
        m.total_reserve as int,
        m.token_a_amount as int,
        m.token_b_amount as int,
        m.token_b_amount as int,
    )
}

/// Whether a trade of `sell` outcome tokens goes through: the sold side's
/// supply must cover it, the counter side's shifted price counter must not
/// overflow, the supplies must stay positive, and the recomputed curve
/// products must fit in 64 bits.
pub open spec fn trade_ok(m: Market, sell: u64, is_yes: bool) -> bool {
    if is_yes {
        sell <= m.token_a_amount
        && m.token_price_b + sell <= u64::MAX
        && traded_supplies_ok(m.token_a_amount - sell, m.token_b_amount as int, m.total_reserve as int)
    } else {
        sell <= m.token_b_amount
        && m.token_price_a + sell <= u64::MAX
        && traded_supplies_ok(m.token_a_amount as int, m.token_b_amount - sell, m.total_reserve as int)
    }
}

/// The overflow and zero-divisor conditions on the post-trade supplies.
pub open spec fn traded_supplies_ok(a: int, b: int, reserve: int) -> bool {
    a + b <= u64::MAX
    && reserve * (a + b) <= u64::MAX
    && a > 0
    && b > 0
}

/// The market after a successful trade: the sold side's supply shrinks and
/// both prices are re-derived from the current supplies against the fixed
/// reserve.
pub open spec fn trade_result(m: Market, sell: u64, is_yes: bool) -> Market {
    let a = if is_yes { (m.token_a_amount - sell) as u64 } else { m.token_a_amount };
    let b = if is_yes { m.token_b_amount } else { (m.token_b_amount - sell) as u64 };
    Market {
        token_a_amount: a,
        token_b_amount: b,
        token_price_a: curve_price(m.total_reserve as int, a as int, b as int, a as int) as u64,
        token_price_b: curve_price(m.total_reserve as int, a as int, b as int, b as int) as u64,
        ..m
    }
}

/// The seed material that lets the program act as a market's custody
/// authority: the market's owning key plus the derivation bump, under the
/// deployment-fixed domain seed. It is a capability, not a private key: the
/// runtime boundary honours it only when the program itself presents it.
#[derive(Clone, Copy, Debug, PartialEq, Eq, Structural)]
pub struct SignerSeeds {
    pub user: Pubkey,
    pub bump: u8,
}

impl Market {
    /// A trade against the bonding curve. The sold side's supply shrinks by
    /// `sell_token_amount`, the counter side's price counter shifts by the
    /// same amount, and then both prices are recomputed as
    /// `floor(total_reserve * (supply_a + supply_b) / own_supply)`.
    /// Any overflow or zero divisor fails with `ArithmeticError` and leaves
    /// the market unchanged.
    pub fn set_token_price(&mut self, sell_token_amount: u64, is_yes: bool) -> (r: Result<
        (),
        ContractError,
    >)
        ensures
            trade_ok(*old(self), sell_token_amount, is_yes) ==> r == Ok::<(), ContractError>(())
                && *final(self) == trade_result(*old(self), sell_token_amount, is_yes),
            !trade_ok(*old(self), sell_token_amount, is_yes) ==> r == Err::<(), ContractError>(
                ContractError::ArithmeticError,
            ) && *final(self) == *old(self),
    {
        let (a, b) = if is_yes {
            let a = match self.token_a_amount.checked_sub(sell_token_amount) {
                Some(v) => v,
                None => { return Err(ContractError::ArithmeticError); },
            };
            if self.token_price_b.checked_add(sell_token_amount).is_none() {
                return Err(ContractError::ArithmeticError);
            }
            (a, self.token_b_amount)
        } else {
            let b = match self.token_b_amount.checked_sub(sell_token_amount) {
                Some(v) => v,
                None => { return Err(ContractError::ArithmeticError); },
            };
            if self.token_price_a.checked_add(sell_token_amount).is_none() {
                return Err(ContractError::ArithmeticError);
            }
            (self.token_a_amount, b)
        };
        let total_supply = match a.checked_add(b) {
            Some(v) => v,
            None => { return Err(ContractError::ArithmeticError); },
        };
        let product = match self.total_reserve.checked_mul(total_supply) {
            Some(v) => v,
            None => { return Err(ContractError::ArithmeticError); },
        };
        let price_a = match product.checked_div(a) {
            Some(v) => v,
            None => { return Err(ContractError::ArithmeticError); },
        };
        let price_b = match product.checked_div(b) {
            Some(v) => v,
            None => { return Err(ContractError::ArithmeticError); },
        };
        self.token_a_amount = a;
        self.token_b_amount = b;
        self.token_price_a = price_a;
        self.token_price_b = price_b;
        Ok(())
    }

    /// The custody capability for the market owned by `user`, derived with
    /// the runtime-supplied `bump`.
    pub fn get_signer(bump: u8, user: Pubkey) -> (s: SignerSeeds)
        ensures
            s == (SignerSeeds { user, bump }),
    {
        SignerSeeds { user, bump }
    }

    /// Populates a market's settings at creation: symmetric supplies and
    /// prices from the inputs, both bet counters at one, and the bonding
    /// curve's constant `floor(token_amount * token_price / (2 * token_amount))`.
    /// Any overflow or zero divisor fails with `ArithmeticError` and leaves
    /// the market unchanged.
    pub fn update_market_settings(
        &mut self,
        quest: u16,
        creator: Pubkey,
        feed: Pubkey,
        token_a: Pubkey,
        token_b: Pubkey,
        token_amount: u64,
        token_price: u64,
    ) -> (r: Result<(), ContractError>)
        ensures
            settings_ok(token_amount, token_price) ==> r == Ok::<(), ContractError>(())
                && *final(self) == (Market {
                    creator,
                    feed,
                    quest,
                    token_a,
                    token_b,
                    token_a_amount: token_amount,
                    token_b_amount: token_amount,
                    token_price_a: token_price,
                    token_price_b: token_price,
                    yes_amount: 1,
                    no_amount: 1,
                    total_reserve: initial_reserve(token_amount, token_price) as u64,
                    ..*old(self)
                }),
            !settings_ok(token_amount, token_price) ==> r == Err::<(), ContractError>(
                ContractError::ArithmeticError,
            ) && *final(self) == *old(self),
    {
        let total_token = match token_amount.checked_add(token_amount) {
            Some(v) => v,
            None => { return Err(ContractError::ArithmeticError); },
        };
        let product = match token_amount.checked_mul(token_price) {
            Some(v) => v,
            None => { return Err(ContractError::ArithmeticError); },
        };
        let total_reserve = match product.checked_div(total_token) {
            Some(v) => v,
            None => { return Err(ContractError::ArithmeticError); },
        };
        self.creator = creator;
        self.quest = quest;
        self.feed = feed;
        self.token_a = token_a;
        self.token_b = token_b;
        self.token_a_amount = token_amount;
        self.token_b_amount = token_amount;
        self.token_price_a = token_price;
        self.token_price_b = token_price;
        self.yes_amount = 1;
        self.no_amount = 1;
        self.total_reserve = total_reserve;
        Ok(())
    }

    /// Advances the lifecycle status along the state machine; callers may
    /// only request transitions that `valid_transition` allows, so the
    /// status is monotonic.
    pub fn update_market_status(&mut self, market_status: MarketStatus)
        requires
            valid_transition(old(self).market_status, market_status),
        ensures
            *final(self) == (Market { market_status, ..*old(self) }),
    {
        self.market_status = market_status;
    }

    /// Records the market's outcome. The result may only be written while
    /// the market is `Active`; once the market finishes it is immutable.
    pub fn update_result(&mut self, result: bool)
        requires
            old(self).market_status == MarketStatus::Active,
        ensures
            *final(self) == (Market { result, ..*old(self) }),
    {
        self.result = result;
    }
}

/// Law: one successful trade puts both prices on the bonding curve for the
/// new supplies and leaves the curve's constant untouched.
pub proof fn lemma_trade_on_curve(m: Market, sell: u64, is_yes: bool)
    requires
        trade_ok(m, sell, is_yes),
    ensures
        prices_on_curve(trade_result(m, sell, is_yes)),
        trade_result(m, sell, is_yes).total_reserve == m.total_reserve,
        market_wf(trade_result(m, sell, is_yes)),
{
    let t = trade_result(m, sell, is_yes);
    let a = t.token_a_amount as int;
    let b = t.token_b_amount as int;
    let r = m.total_reserve as int;
    assert(0 <= r * (a + b) <= u64::MAX && a >= 1 && b >= 1) by {
        assert(r * (a + b) >= 0) by (nonlinear_arith)
            requires r >= 0 && a + b >= 0;
    }
    assert(0 <= r * (a + b) / a <= u64::MAX) by (nonlinear_arith)
        requires 0 <= r * (a + b) <= u64::MAX && a >= 1;
    assert(0 <= r * (a + b) / b <= u64::MAX) by (nonlinear_arith)
        requires 0 <= r * (a + b) <= u64::MAX && b >= 1;
}

/// A sequence of trades, each of which goes through from the state the
/// previous ones produced.
pub open spec fn trades_ok(m: Market, trades: Seq<(u64, bool)>) -> bool
    decreases trades.len(),
{
    trades.len() == 0 || (trade_ok(m, trades[0].0, trades[0].1) && trades_ok(
        trade_result(m, trades[0].0, trades[0].1),
        trades.drop_first(),
    ))
}

/// The market that a sequence of trades leaves behind.
pub open spec fn after_trades(m: Market, trades: Seq<(u64, bool)>) -> Market
    decreases trades.len(),
{
    if trades.len() == 0 {
        m
    } else {
        after_trades(trade_result(m, trades[0].0, trades[0].1), trades.drop_first())
    }
}

/// Every prefix of a sequence of successful trades is itself a sequence of
/// successful trades. Together with `lemma_curve_after_trades` on
/// `trades.take(i)`, this gives the curve claim after the `i`-th trade of
/// any run, not only after the last.
pub proof fn lemma_trades_ok_prefix(m: Market, trades: Seq<(u64, bool)>, i: int)
    requires
        trades_ok(m, trades),
        0 <= i <= trades.len(),
    ensures
        trades_ok(m, trades.take(i)),
    decreases i,
{
    if i > 0 {
        let m1 = trade_result(m, trades[0].0, trades[0].1);
        assert(trades.take(i)[0] == trades[0]);
        assert(trades.take(i).drop_first() =~= trades.drop_first().take(i - 1));
        lemma_trades_ok_prefix(m1, trades.drop_first(), i - 1);
    }
}

/// Law: across any sequence of successful trades within one market, the
/// curve's constant never changes, and after each trade both prices satisfy
/// `price = floor(total_reserve * (supply_a + supply_b) / own_supply)`,
/// recomputed from the current supplies against the reserve fixed at
/// creation.
/// Applied to a prefix `trades.take(i)` (a run of successful trades by
/// `lemma_trades_ok_prefix`), this gives the claim after the `i`-th trade.
pub proof fn lemma_curve_after_trades(m: Market, trades: Seq<(u64, bool)>)
    requires
        trades_ok(m, trades),
        trades.len() > 0,
    ensures
        after_trades(m, trades).total_reserve == m.total_reserve,
        prices_on_curve(after_trades(m, trades)),
    decreases trades.len(),
{
    let m1 = trade_result(m, trades[0].0, trades[0].1);
    lemma_trade_on_curve(m, trades[0].0, trades[0].1);
    assert(after_trades(m, trades) == after_trades(m1, trades.drop_first()));
    if trades.len() > 1 {
        lemma_curve_after_trades(m1, trades.drop_first());
    } else {
        assert(after_trades(m1, trades.drop_first()) == m1);
    }
}

/// The parameter record of the market-creation operation. `token_amount`
/// and `token_price` seed both sides symmetrically; the optional strings
/// become the registered metadata of the two outcome tokens.
#[derive(Clone, Debug)]
pub struct MarketParams {
    pub quest: u16,
    pub token_amount: u64,
    pub token_price: u64,
    pub name_a: Option<String>,
    pub name_b: Option<String>,
    pub symbol_a: Option<String>,
    pub symbol_b: Option<String>,
    pub url_a: Option<String>,
    pub url_b: Option<String>,
}

/// The parameter record of the betting operation.
#[derive(Clone, Copy, Debug)]
pub struct BettingParams {
    pub amount: u64,
    pub is_yes: bool,
}

} // verus!
