use anchor_lang::AnchorSerialize;
use liqz::Address;
use liqz::DepositState;
use liqz::LoanActiveState;
use liqz::LoanRepayedState;
use liqz::NFTBid;
use liqz::NFTDeposit;
use liqz::NFTPool;
use solana_program::hash::hash;
use solana_program::pubkey::Pubkey;

fn key(n: u8) -> Address {
    Address::new([n; 32])
}

fn pubkey(a: &Address) -> Pubkey {
    Pubkey::new_from_array(a.bytes)
}

/// The kind tag of a record type: the first eight bytes of the hash of
/// `account:` and the type's name.
fn tag(name: &str) -> Vec<u8> {
    hash(format!("account:{}", name).as_bytes()).to_bytes()[..8].to_vec()
}

fn sample_pool() -> NFTPool {
    NFTPool {
        bump_seed: 254,
        owner: key(1),
        liz_mint: key(2),
        tai_mint: key(3),
        dai_mint: key(4),
        incentive: 100_000_000_000,
        max_loan_duration: 2_592_000,
        service_fee_rate: 500,
        interest_rate: 100,
        mortgage_rate: 9000,
    }
}

fn sample_loan() -> LoanActiveState {
    LoanActiveState {
        total_amount: 0x0102030405060708,
        borrowed_amount: 900,
        started_at: 1_600_000_000,
        expired_at: -5,
        lender: key(7),
    }
}

fn sample_owed() -> LoanRepayedState {
    LoanRepayedState { tai_required_to_unlock: 900, lender_withdrawable: 1010, lender: key(7) }
}

fn all_states() -> Vec<DepositState> {
    vec![
        DepositState::PendingLoan,
        DepositState::LoanActive(sample_loan()),
        DepositState::LoanRepayed(sample_owed()),
        DepositState::Withdrawn,
        DepositState::LoanLiquidated,
        DepositState::LoanCleared,
    ]
}

#[test]
fn bid_layout_is_tag_price_qty() {
    let bid = NFTBid { price: 0x0102030405060708, qty: 3 };
    let mut expected = tag("NFTBid");
    expected.extend((bid.price, bid.qty).try_to_vec().unwrap());
    assert_eq!(bid.encode(), expected);
    assert_eq!(&bid.encode()[8..16], &[8, 7, 6, 5, 4, 3, 2, 1]);
}

#[test]
fn bid_round_trips() {
    for bid in [
        NFTBid { price: 0, qty: 0 },
        NFTBid { price: 10, qty: 1 },
        NFTBid { price: u64::MAX, qty: u64::MAX },
        NFTBid { price: 1 << 63, qty: 255 },
    ] {
        assert_eq!(NFTBid::decode(&bid.encode()), Some(bid));
        let mut longer = bid.encode();
        longer.extend([9u8; 17]);
        assert_eq!(NFTBid::decode(&longer), Some(bid));
    }
}

#[test]
fn bid_with_wrong_tag_or_too_short_is_not_decoded() {
    let bid = NFTBid { price: 10, qty: 1 };
    let good = bid.encode();
    assert_eq!(NFTBid::decode(&good[..23]), None);
    assert_eq!(NFTBid::decode(&[]), None);
    assert_eq!(NFTBid::decode(&good[..8]), None);
    for i in 0..8 {
        let mut bad = good.clone();
        bad[i] ^= 1;
        assert_eq!(NFTBid::decode(&bad), None);
    }
    assert_eq!(NFTBid::decode(&sample_pool().encode()), None);
    assert_eq!(NFTBid::decode(&[0u8; 24]), None);
}

#[test]
fn pool_layout_is_tag_and_fields_in_order() {
    let pool = sample_pool();
    let mut expected = tag("NFTPool");
    expected.extend(
        (
            pool.bump_seed,
            pubkey(&pool.owner),
            pubkey(&pool.liz_mint),
            pubkey(&pool.tai_mint),
            pubkey(&pool.dai_mint),
            pool.incentive,
            pool.max_loan_duration,
            pool.service_fee_rate,
            pool.interest_rate,
            pool.mortgage_rate,
        )
            .try_to_vec()
            .unwrap(),
    );
    assert_eq!(pool.encode(), expected);
    assert_eq!(pool.encode().len(), 177);
    assert_eq!(NFTPool::account_size(), 177);
}

#[test]
fn pool_round_trips() {
    let mut pool = sample_pool();
    assert_eq!(NFTPool::decode(&pool.encode()), Some(pool));
    pool.max_loan_duration = -1;
    pool.incentive = u64::MAX;
    pool.bump_seed = 0;
    assert_eq!(NFTPool::decode(&pool.encode()), Some(pool));
    pool.max_loan_duration = i64::MIN;
    let mut longer = pool.encode();
    longer.extend([1u8; 5]);
    assert_eq!(NFTPool::decode(&longer), Some(pool));
}

#[test]
fn pool_with_wrong_tag_or_too_short_is_not_decoded() {
    let good = sample_pool().encode();
    assert_eq!(NFTPool::decode(&good[..176]), None);
    let mut bad = good.clone();
    bad[0] ^= 0x80;
    assert_eq!(NFTPool::decode(&bad), None);
    assert_eq!(NFTPool::decode(&NFTBid { price: 1, qty: 1 }.encode()), None);
}

#[test]
fn deposit_layout_is_tag_id_state() {
    let loan = sample_loan();
    let active = NFTDeposit { deposit_id: key(9), state: DepositState::LoanActive(loan) };
    let mut expected = tag("NFTDeposit");
    expected.extend(
        (
            pubkey(&key(9)),
            1u8,
            loan.total_amount,
            loan.borrowed_amount,
            loan.started_at,
            loan.expired_at,
            pubkey(&loan.lender),
        )
            .try_to_vec()
            .unwrap(),
    );
    assert_eq!(active.encode(), expected);
    assert_eq!(active.encode().len(), 105);

    let owed = sample_owed();
    let repayed = NFTDeposit { deposit_id: key(9), state: DepositState::LoanRepayed(owed) };
    let mut expected = tag("NFTDeposit");
    expected.extend(
        (
            pubkey(&key(9)),
            2u8,
            owed.tai_required_to_unlock,
            owed.lender_withdrawable,
            pubkey(&owed.lender),
        )
            .try_to_vec()
            .unwrap(),
    );
    assert_eq!(repayed.encode(), expected);

    for (state, which) in [
        (DepositState::PendingLoan, 0u8),
        (DepositState::Withdrawn, 3),
        (DepositState::LoanLiquidated, 4),
        (DepositState::LoanCleared, 5),
    ] {
        let mut expected = tag("NFTDeposit");
        expected.extend((pubkey(&key(9)), which).try_to_vec().unwrap());
        assert_eq!(NFTDeposit { deposit_id: key(9), state }.encode(), expected);
    }
}

#[test]
fn deposit_round_trips_in_every_state() {
    for state in all_states() {
        let deposit = NFTDeposit { deposit_id: key(9), state };
        assert_eq!(NFTDeposit::decode(&deposit.encode()), Some(deposit));
    }
}

#[test]
fn deposit_fits_its_account_and_is_read_back_from_it() {
    let size = NFTDeposit::account_size() as usize;
    for state in all_states() {
        let deposit = NFTDeposit { deposit_id: key(9), state };
        let encoded = deposit.encode();
        assert!(encoded.len() <= size);
        // the account keeps what a larger state left behind
        let mut account = vec![0xEEu8; size];
        account[..encoded.len()].copy_from_slice(&encoded);
        assert_eq!(NFTDeposit::decode(&account), Some(deposit));
    }
}

#[test]
fn deposit_that_is_cut_short_or_tells_no_state_is_not_decoded() {
    let active =
        NFTDeposit { deposit_id: key(9), state: DepositState::LoanActive(sample_loan()) }.encode();
    assert_eq!(NFTDeposit::decode(&active[..104]), None);
    assert_eq!(NFTDeposit::decode(&active[..41]), None);
    assert_eq!(NFTDeposit::decode(&active[..40]), None);
    let repayed =
        NFTDeposit { deposit_id: key(9), state: DepositState::LoanRepayed(sample_owed()) }.encode();
    assert_eq!(repayed.len(), 89);
    assert_eq!(NFTDeposit::decode(&repayed[..88]), None);
    let mut unknown = active.clone();
    unknown[40] = 6;
    assert_eq!(NFTDeposit::decode(&unknown), None);
    unknown[40] = 255;
    assert_eq!(NFTDeposit::decode(&unknown), None);
    let mut bad_tag = active.clone();
    bad_tag[7] ^= 1;
    assert_eq!(NFTDeposit::decode(&bad_tag), None);
    let pending = NFTDeposit { deposit_id: key(9), state: DepositState::PendingLoan }.encode();
    assert_eq!(pending.len(), 41);
    assert_eq!(NFTDeposit::decode(&pending[..40]), None);
}
