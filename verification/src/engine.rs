use crate::errors::ContractError;
use crate::fees::{authority_share, split_betting_fee};
use crate::global::{global_wf, Global, GlobalParams};
use crate::market::{settings_ok, BettingParams, Market, MarketParams, MarketStatus};
use crate::pubkey::Pubkey;
use vstd::prelude::*;

verus! {

/// One native-token value transfer the ledger runtime is asked to carry
/// out on behalf of an operation.
#[derive(Clone, Copy, Debug, PartialEq, Eq, Structural)]
pub struct Transfer {
    pub from: Pubkey,
    pub to: Pubkey,
    pub amount: u64,
}

/// The metadata registered for one outcome token.
#[derive(Clone, Debug)]
pub struct TokenMetadata {
    pub name: String,
    pub symbol: String,
    pub uri: String,
    pub seller_fee_basis_points: u16,
}

/// Everything the ledger runtime must carry out to finish a market
/// creation: mint both outcome-token supplies into market custody under the
/// custody authority, register both token metadata records, and debit the
/// creator fee. All of it is one atomic unit with the market's own state
/// change.
#[derive(Clone, Debug)]
pub struct CreateMarketActions {
    /// Outcome tokens of each side to mint into custody, in base units:
    /// the supplied amount scaled by ten to the configured precision.
    pub mint_a_amount: u64,
    pub mint_b_amount: u64,
    pub metadata_a: TokenMetadata,
    pub metadata_b: TokenMetadata,
    /// The creation fee, debited from the creator to the fee authority.
    pub creator_fee: Transfer,
}

/// Everything the ledger runtime must carry out to finish a bet: the
/// bettor's stake into market custody, the outcome tokens out of custody to
/// the bettor, and the two fee shares out of the bettor's own balance. All
/// four are one atomic unit with the market's own state change.
#[derive(Clone, Copy, Debug, PartialEq, Eq, Structural)]
pub struct BetActions {
    /// Native tokens from the bettor into market custody.
    pub stake_amount: u64,
    /// Outcome tokens from market custody to the bettor.
    pub outcome_tokens: u64,
    /// Native tokens from the bettor to the configured fee authority.
    pub fee_to_authority: u64,
    /// Native tokens from the bettor to the market's creator.
    pub fee_to_creator: u64,
}

/// Ten to the `d`-th power.
pub open spec fn spec_pow10(d: nat) -> nat
    decreases d,
{
    if d == 0 {
        1
    } else {
        10 * spec_pow10((d - 1) as nat)
    }
}

proof fn lemma_pow10_mono(i: nat, j: nat)
    requires
        i <= j,
    ensures
        spec_pow10(i) <= spec_pow10(j),
    decreases j,
{
    if i < j {
        lemma_pow10_mono(i, (j - 1) as nat);
    }
}

/// Ten to the `d`-th power as a 64-bit value, or `None` where it does not
/// fit.
fn pow10_checked(d: u8) -> (r: Option<u64>)
    ensures
        match r {
            Some(v) => v == spec_pow10(d as nat),
            None => spec_pow10(d as nat) > u64::MAX,
        },
{
    let mut acc: u64 = 1;
    let mut i: u8 = 0;
    while i < d
        invariant
            i <= d,
            acc == spec_pow10(i as nat),
        decreases d - i,
    {
        acc = match acc.checked_mul(10) {
            Some(v) => v,
            None => {
                proof {
                    lemma_pow10_mono((i + 1) as nat, d as nat);
                }
                return None;
            },
        };
        i = i + 1;
    }
    Some(acc)
}

/// The characters a metadata field ends up with: the supplied text, or
/// empty where none was supplied.
pub open spec fn opt_text(o: Option<String>) -> Seq<char> {
    match o {
        Some(s) => s@,
        None => Seq::<char>::empty(),
    }
}

/// Whether a market creation goes through: the precision multiplier, the
/// scaled mint amounts, the initial settings and the market counter must
/// all stay within 64-bit checked arithmetic.
pub open spec fn create_ok(g: Global, token_amount: u64, token_price: u64) -> bool {
    spec_pow10(g.decimal as nat) <= u64::MAX
    && token_amount * spec_pow10(g.decimal as nat) <= u64::MAX
    && settings_ok(token_amount, token_price)
    && g.market_count + 1 <= u64::MAX
}

/// Whether a bet's own bookkeeping goes through: the chosen side's counter
/// and the fee multiplication must stay within checked arithmetic.
pub open spec fn betting_ok(g: Global, m: Market, p: BettingParams) -> bool {
    (if p.is_yes {
        m.yes_amount + 1 <= u16::MAX
    } else {
        m.no_amount + 1 <= u16::MAX
    })
    && g.betting_user_fee_amount * g.fee_percentage <= u64::MAX
}

/// Creates the ledger-wide configuration singleton. The runtime enforces
/// that this happens once; the record is populated from the supplied
/// parameters, with the paying signer as administrator.
pub fn init(admin: Pubkey, params: GlobalParams) -> (g: Global)
    requires
        params.fee_percentage <= 100,
    ensures
        g == (Global {
            admin,
            fee_authority: params.fee_authority,
            creator_fee_amount: params.creator_fee_amount,
            liquidity_user_fee_amount: params.liquidity_user_fee_amount,
            betting_user_fee_amount: params.betting_user_fee_amount,
            decimal: params.decimal,
            market_count: params.market_count,
            fee_percentage: params.fee_percentage,
        }),
        global_wf(g),
{
    Global {
        admin,
        fee_authority: params.fee_authority,
        creator_fee_amount: params.creator_fee_amount,
        liquidity_user_fee_amount: params.liquidity_user_fee_amount,
        betting_user_fee_amount: params.betting_user_fee_amount,
        decimal: params.decimal,
        market_count: params.market_count,
        fee_percentage: params.fee_percentage,
    }
}

/// The metadata record for one outcome token: each supplied text is taken
/// as given, each missing one becomes empty, and the seller fee is zero.
/// The delegated registration call itself is the token-registry
/// collaborator's work.
pub fn intialize_meta(name: Option<String>, symbol: Option<String>, uri: Option<String>) -> (m:
    TokenMetadata)
    ensures
        m.name@ == opt_text(name),
        m.symbol@ == opt_text(symbol),
        m.uri@ == opt_text(uri),
        m.seller_fee_basis_points == 0,
{
    let para_name: String = match name {
        Some(n) => n,
        None => String::new(),
    };
    let para_symbol: String = match symbol {
        Some(s) => s,
        None => String::new(),
    };
    let para_uri: String = match uri {
        Some(u) => u,
        None => String::new(),
    };
    TokenMetadata {
        name: para_name,
        symbol: para_symbol,
        uri: para_uri,
        seller_fee_basis_points: 0,
    }
}

/// Creates a market: populates the fresh record's settings and the bonding
/// curve's constant, counts it in the configuration, and decides the
/// custody work — symmetric mint amounts scaled by the configured
/// precision, both metadata records, and the creation fee to the fee
/// authority. Status ends at `Prepare`; `activate_market` opens the market
/// once minting and metadata registration have succeeded. Any overflow or
/// zero divisor fails with `ArithmeticError` and leaves both records
/// unchanged.
pub fn create_market(
    global: &mut Global,
    market: &mut Market,
    creator: Pubkey,
    feed: Pubkey,
    token_a: Pubkey,
    token_b: Pubkey,
    params: MarketParams,
) -> (r: Result<CreateMarketActions, ContractError>)
    requires
        old(market).market_status == MarketStatus::Prepare,
    ensures
        create_ok(*old(global), params.token_amount, params.token_price) ==> (match r {
            Ok(actions) => {
                &&& *final(global) == (Global {
                    market_count: (old(global).market_count + 1) as u64,
                    ..*old(global)
                })
                &&& *final(market) == (Market {
                    creator,
                    feed,
                    quest: params.quest,
                    token_a,
                    token_b,
                    token_a_amount: params.token_amount,
                    token_b_amount: params.token_amount,
                    token_price_a: params.token_price,
                    token_price_b: params.token_price,
                    yes_amount: 1,
                    no_amount: 1,
                    total_reserve: crate::market::initial_reserve(
                        params.token_amount,
                        params.token_price,
                    ) as u64,
                    market_status: MarketStatus::Prepare,
                    ..*old(market)
                })
                &&& actions.mint_a_amount == params.token_amount * spec_pow10(
                    old(global).decimal as nat,
                )
                &&& actions.mint_b_amount == actions.mint_a_amount
                &&& actions.metadata_a.name@ == opt_text(params.name_a)
                &&& actions.metadata_a.symbol@ == opt_text(params.symbol_a)
                &&& actions.metadata_a.uri@ == opt_text(params.url_a)
                &&& actions.metadata_b.name@ == opt_text(params.name_b)
                &&& actions.metadata_b.symbol@ == opt_text(params.symbol_b)
                &&& actions.metadata_b.uri@ == opt_text(params.url_b)
                &&& actions.creator_fee == (Transfer {
                    from: creator,
                    to: old(global).fee_authority,
                    amount: old(global).creator_fee_amount,
                })
            },
            Err(_) => false,
        }),
        !create_ok(*old(global), params.token_amount, params.token_price) ==> (match r {
            Ok(_) => false,
            Err(e) => e == ContractError::ArithmeticError && *final(global) == *old(global)
                && *final(market) == *old(market),
        }),
{
    let multiplier = match pow10_checked(global.decimal) {
        Some(v) => v,
        None => { return Err(ContractError::ArithmeticError); },
    };
    let mint_amount = match params.token_amount.checked_mul(multiplier) {
        Some(v) => v,
        None => { return Err(ContractError::ArithmeticError); },
    };
    let new_count = match global.market_count.checked_add(1) {
        Some(v) => v,
        None => { return Err(ContractError::ArithmeticError); },
    };
    match market.update_market_settings(
        params.quest,
        creator,
        feed,
        token_a,
        token_b,
        params.token_amount,
        params.token_price,
    ) {
        Ok(()) => (),
        Err(e) => { return Err(e); },
    }
    market.update_market_status(MarketStatus::Prepare);
    global.market_count = new_count;
    let metadata_a = intialize_meta(params.name_a, params.symbol_a, params.url_a);
    let metadata_b = intialize_meta(params.name_b, params.symbol_b, params.url_b);
    Ok(CreateMarketActions {
        mint_a_amount: mint_amount,
        mint_b_amount: mint_amount,
        metadata_a,
        metadata_b,
        creator_fee: Transfer {
            from: creator,
            to: global.fee_authority,
            amount: global.creator_fee_amount,
        },
    })
}

/// Opens a prepared market for betting. The creation operation ends with
/// this step once outcome-token minting and metadata registration have
/// succeeded; any failure there aborts the whole creation instead.
pub fn activate_market(market: &mut Market)
    requires
        old(market).market_status == MarketStatus::Prepare,
    ensures
        *final(market) == (Market { market_status: MarketStatus::Active, ..*old(market) }),
{
    market.update_market_status(MarketStatus::Active);
}

/// Places a bet on one side of an `Active` market: the chosen side's
/// counter advances, and the runtime is asked to move the stake into
/// custody, the same amount of outcome tokens out of custody to the bettor,
/// and the split betting fee to the fee authority and the creator. A
/// mismatched fee authority is rejected with `AuthorizationError`, a market
/// that is not `Active` with `InvalidState`, and counter or fee overflow
/// with `ArithmeticError`; every rejection leaves the market unchanged.
pub fn betting(
    global: &Global,
    market: &mut Market,
    fee_authority: Pubkey,
    params: BettingParams,
) -> (r: Result<BetActions, ContractError>)
    requires
        global_wf(*global),
    ensures
        fee_authority != global.fee_authority ==> r == Err::<BetActions, ContractError>(
            ContractError::AuthorizationError,
        ) && *final(market) == *old(market),
        fee_authority == global.fee_authority && old(market).market_status != MarketStatus::Active
            ==> r == Err::<BetActions, ContractError>(ContractError::InvalidState)
            && *final(market) == *old(market),
        fee_authority == global.fee_authority && old(market).market_status == MarketStatus::Active
            && !betting_ok(*global, *old(market), params) ==> r == Err::<BetActions, ContractError>(
            ContractError::ArithmeticError,
        ) && *final(market) == *old(market),
        fee_authority == global.fee_authority && old(market).market_status == MarketStatus::Active
            && betting_ok(*global, *old(market), params) ==> (match r {
            Ok(actions) => {
                &&& *final(market) == (Market {
                    yes_amount: if params.is_yes {
                        (old(market).yes_amount + 1) as u16
                    } else {
                        old(market).yes_amount
                    },
                    no_amount: if params.is_yes {
                        old(market).no_amount
                    } else {
                        (old(market).no_amount + 1) as u16
                    },
                    ..*old(market)
                })
                &&& actions.stake_amount == params.amount
                &&& actions.outcome_tokens == params.amount
                &&& actions.fee_to_authority as int == authority_share(
                    global.betting_user_fee_amount,
                    global.fee_percentage,
                )
                &&& actions.fee_to_authority + actions.fee_to_creator
                    == global.betting_user_fee_amount
            },
            Err(_) => false,
        }),
{
    if !(fee_authority == global.fee_authority) {
        return Err(ContractError::AuthorizationError);
    }
    if !(market.market_status == MarketStatus::Active) {
        return Err(ContractError::InvalidState);
    }
    let (fee_to_authority, fee_to_creator) = match split_betting_fee(
        global.betting_user_fee_amount,
        global.fee_percentage,
    ) {
        Ok(split) => split,
        Err(e) => { return Err(e); },
    };
    if params.is_yes {
        let new_yes = match market.yes_amount.checked_add(1) {
            Some(v) => v,
            None => { return Err(ContractError::ArithmeticError); },
        };
        market.yes_amount = new_yes;
    } else {
        let new_no = match market.no_amount.checked_add(1) {
            Some(v) => v,
            None => { return Err(ContractError::ArithmeticError); },
        };
        market.no_amount = new_no;
    }
    Ok(BetActions {
        stake_amount: params.amount,
        outcome_tokens: params.amount,
        fee_to_authority,
        fee_to_creator,
    })
}

/// Withdraws pooled native tokens from a market's custody to a receiver of
/// the administrator's choice. Only the configured administrator may do so
/// (`AuthorizationError` otherwise), and the custody balance must cover the
/// amount (`ArithmeticError` otherwise). On success the remaining custody
/// balance is returned; the runtime carries out the transfer.
pub fn withdraw(global: &Global, admin: Pubkey, market_lamports: u64, amount: u64) -> (r: Result<
    u64,
    ContractError,
>)
    ensures
        admin != global.admin ==> r == Err::<u64, ContractError>(ContractError::AuthorizationError),
        admin == global.admin && amount > market_lamports ==> r == Err::<u64, ContractError>(
            ContractError::ArithmeticError,
        ),
        admin == global.admin && amount <= market_lamports ==> r == Ok::<u64, ContractError>(
            (market_lamports - amount) as u64,
        ),
{
    if !(admin == global.admin) {
        return Err(ContractError::AuthorizationError);
    }
    match market_lamports.checked_sub(amount) {
        Some(rest) => Ok(rest),
        None => Err(ContractError::ArithmeticError),
    }
}

} // verus!
