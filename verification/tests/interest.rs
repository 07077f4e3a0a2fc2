use liqz::Address;
use liqz::NFTPool;
use liqz::ProtocolError;

fn key(n: u8) -> Address {
    Address::new([n; 32])
}

fn pool(interest_rate: u64, service_fee_rate: u64) -> NFTPool {
    NFTPool {
        bump_seed: 255,
        owner: key(1),
        liz_mint: key(2),
        tai_mint: key(3),
        dai_mint: key(4),
        incentive: 100,
        max_loan_duration: 30 * 24 * 60 * 60,
        service_fee_rate,
        interest_rate,
        mortgage_rate: 9000,
    }
}

#[test]
fn one_day_at_one_percent() {
    let p = pool(100, 500);
    assert_eq!(p.calculate_interest_and_fee(1_000_000, 86400), Ok((10_000, 500)));
}

#[test]
fn interest_rounds_down() {
    let p = pool(100, 500);
    // 999 * 100 * 86400 / 86400 / 10000 = 9.99 -> 9; 9 * 500 / 10000 -> 0
    assert_eq!(p.calculate_interest_and_fee(999, 86400), Ok((9, 0)));
    // half a day
    assert_eq!(p.calculate_interest_and_fee(1_000_000, 43200), Ok((5_000, 250)));
}

#[test]
fn no_time_no_interest() {
    let p = pool(100, 500);
    assert_eq!(p.calculate_interest_and_fee(1_000_000, 0), Ok((0, 0)));
}

#[test]
fn negative_duration_is_refused() {
    let p = pool(100, 500);
    assert_eq!(
        p.calculate_interest_and_fee(1_000_000, -1),
        Err(ProtocolError::ArithmeticOverflow)
    );
}

#[test]
fn overflowing_product_is_refused() {
    let p = pool(100, 500);
    assert_eq!(
        p.calculate_interest_and_fee(u64::MAX, 1),
        Err(ProtocolError::ArithmeticOverflow)
    );
    assert_eq!(
        p.calculate_interest_and_fee(u64::MAX / 100, 2),
        Err(ProtocolError::ArithmeticOverflow)
    );
    // the first product overflows although the duration is zero
    assert_eq!(
        p.calculate_interest_and_fee(u64::MAX, 0),
        Err(ProtocolError::ArithmeticOverflow)
    );
}

#[test]
fn overflowing_fee_is_refused() {
    let p = pool(1, u64::MAX);
    assert_eq!(
        p.calculate_interest_and_fee(10_000 * 86400, 2),
        Err(ProtocolError::ArithmeticOverflow)
    );
}

#[test]
fn fee_of_no_more_than_the_whole_stays_within_the_interest() {
    for fee_rate in [0u64, 1, 500, 9999, 10000] {
        let p = pool(100, fee_rate);
        for (borrowed, duration) in [(0u64, 0i64), (1, 1), (999, 86400), (1_000_000, 30 * 86400)] {
            let (interest, fee) = p.calculate_interest_and_fee(borrowed, duration).unwrap();
            assert!(fee <= interest);
        }
    }
    let p = pool(100, 10000);
    assert_eq!(p.calculate_interest_and_fee(1_000_000, 86400), Ok((10_000, 10_000)));
}
