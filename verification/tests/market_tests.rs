use prediction::errors::ContractError;
use prediction::market::{Market, MarketStatus, SignerSeeds};
use prediction::pubkey::Pubkey;

fn fresh_market() -> Market {
    Market {
        creator: Pubkey { id: 1 },
        feed: Pubkey { id: 2 },
        quest: 100,
        market_status: MarketStatus::Prepare,
        result: false,
        token_a: Pubkey { id: 3 },
        token_b: Pubkey { id: 4 },
        token_a_amount: 0,
        token_b_amount: 0,
        token_price_a: 0,
        token_price_b: 0,
        yes_amount: 0,
        no_amount: 0,
        total_reserve: 0,
    }
}

fn seeded_market() -> Market {
    let mut m = fresh_market();
    m.update_market_settings(
        100,
        Pubkey { id: 1 },
        Pubkey { id: 2 },
        Pubkey { id: 3 },
        Pubkey { id: 4 },
        1000,
        10,
    )
    .unwrap();
    m
}

#[test]
fn initialize_market_reserve_formula() {
    let m = seeded_market();
    // total_reserve = floor(1000 * 10 / (2 * 1000)) = 5
    assert_eq!(m.total_reserve, 5);
    assert_eq!(m.token_a_amount, 1000);
    assert_eq!(m.token_b_amount, 1000);
    assert_eq!(m.token_price_a, 10);
    assert_eq!(m.token_price_b, 10);
    assert_eq!(m.yes_amount, 1);
    assert_eq!(m.no_amount, 1);
    assert_eq!(m.quest, 100);
}

#[test]
fn initialize_market_zero_amount_fails() {
    let mut m = fresh_market();
    let before = m;
    let r = m.update_market_settings(
        100,
        Pubkey { id: 1 },
        Pubkey { id: 2 },
        Pubkey { id: 3 },
        Pubkey { id: 4 },
        0,
        10,
    );
    assert_eq!(r, Err(ContractError::ArithmeticError));
    assert_eq!(m, before);
}

#[test]
fn initialize_market_overflow_fails() {
    let mut m = fresh_market();
    let r = m.update_market_settings(
        100,
        Pubkey { id: 1 },
        Pubkey { id: 2 },
        Pubkey { id: 3 },
        Pubkey { id: 4 },
        u64::MAX,
        1,
    );
    assert_eq!(r, Err(ContractError::ArithmeticError));
    let r2 = m.update_market_settings(
        100,
        Pubkey { id: 1 },
        Pubkey { id: 2 },
        Pubkey { id: 3 },
        Pubkey { id: 4 },
        3,
        u64::MAX,
    );
    assert_eq!(r2, Err(ContractError::ArithmeticError));
}

#[test]
fn trade_reprices_both_sides_on_curve() {
    let mut m = seeded_market();
    m.set_token_price(100, true).unwrap();
    // supplies: a = 900, b = 1000; reserve stays 5
    assert_eq!(m.token_a_amount, 900);
    assert_eq!(m.token_b_amount, 1000);
    assert_eq!(m.total_reserve, 5);
    // price_a = floor(5 * 1900 / 900) = 10, price_b = floor(5 * 1900 / 1000) = 9
    assert_eq!(m.token_price_a, 10);
    assert_eq!(m.token_price_b, 9);
}

#[test]
fn trade_on_no_side_mirrors_bookkeeping() {
    let mut m = seeded_market();
    m.set_token_price(200, false).unwrap();
    // supplies: a = 1000, b = 800; reserve stays 5
    assert_eq!(m.token_a_amount, 1000);
    assert_eq!(m.token_b_amount, 800);
    assert_eq!(m.total_reserve, 5);
    // price_a = floor(5 * 1800 / 1000) = 9, price_b = floor(5 * 1800 / 800) = 11
    assert_eq!(m.token_price_a, 9);
    assert_eq!(m.token_price_b, 11);
}

#[test]
fn trade_sequence_keeps_reserve_and_curve() {
    let mut m = seeded_market();
    let trades = [(100u64, true), (50u64, false), (300u64, true), (10u64, false)];
    for (sell, is_yes) in trades {
        m.set_token_price(sell, is_yes).unwrap();
        let sum = (m.token_a_amount + m.token_b_amount) as u128;
        let reserve = m.total_reserve as u128;
        assert_eq!(m.total_reserve, 5);
        assert_eq!(m.token_price_a as u128, reserve * sum / m.token_a_amount as u128);
        assert_eq!(m.token_price_b as u128, reserve * sum / m.token_b_amount as u128);
    }
    assert_eq!(m.token_a_amount, 600);
    assert_eq!(m.token_b_amount, 940);
}

#[test]
fn trade_beyond_supply_fails() {
    let mut m = seeded_market();
    let before = m;
    assert_eq!(m.set_token_price(1001, true), Err(ContractError::ArithmeticError));
    assert_eq!(m, before);
}

#[test]
fn trade_emptying_a_side_fails() {
    let mut m = seeded_market();
    let before = m;
    // selling the whole supply would leave a zero divisor in the pricing
    assert_eq!(m.set_token_price(1000, true), Err(ContractError::ArithmeticError));
    assert_eq!(m, before);
}

#[test]
fn trade_price_counter_overflow_fails() {
    let mut m = seeded_market();
    m.token_price_b = u64::MAX;
    let before = m;
    assert_eq!(m.set_token_price(1, true), Err(ContractError::ArithmeticError));
    assert_eq!(m, before);
}

#[test]
fn status_advances_along_lifecycle() {
    let mut m = seeded_market();
    assert_eq!(m.market_status, MarketStatus::Prepare);
    m.update_market_status(MarketStatus::Active);
    assert_eq!(m.market_status, MarketStatus::Active);
    m.update_market_status(MarketStatus::Finished);
    assert_eq!(m.market_status, MarketStatus::Finished);
}

#[test]
fn update_result_records_outcome() {
    let mut m = seeded_market();
    m.update_market_status(MarketStatus::Active);
    m.update_result(true);
    assert!(m.result);
    assert_eq!(m.market_status, MarketStatus::Active);
}

#[test]
fn get_signer_carries_seed_material() {
    let user = Pubkey { id: 77 };
    let s = Market::get_signer(254, user);
    assert_eq!(s, SignerSeeds { user, bump: 254 });
}
