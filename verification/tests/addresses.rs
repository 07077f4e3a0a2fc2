use liqz::address::seeds_with_bump;
use liqz::address::verify_derived_address;
use liqz::address::locate_derived_address;
use liqz::ledger::DerivedSeeds;
use liqz::liqzError;
use liqz::Address;
use liqz::DerivedAccountIdentifier;
use liqz::NFTBid;
use liqz::NFTDeposit;
use liqz::NFTPool;
use liqz::ProtocolError;
use solana_program::pubkey::Pubkey;

fn key(n: u8) -> Address {
    Address::new([n; 32])
}

fn pubkey(a: &Address) -> Pubkey {
    Pubkey::new_from_array(a.bytes)
}

fn address(k: &Pubkey) -> Address {
    Address::new(k.to_bytes())
}

/// A bump that derives no address for the pool under `program`, if there is one.
fn bump_without_address(program: &Address) -> Option<u8> {
    (0..=255u8).find(|bump| {
        Pubkey::create_program_address(&[b"liqzNFTPool", &[*bump]], &pubkey(program)).is_err()
    })
}

#[test]
fn addresses_compare_by_their_bytes() {
    assert_eq!(key(1), key(1));
    assert_ne!(key(1), key(2));
    let mut bytes = [5u8; 32];
    bytes[31] = 6;
    assert_ne!(Address::new(bytes), key(5));
    assert_eq!(Address::new(bytes).bytes, bytes);
    assert_eq!(key(3).to_vec(), vec![3u8; 32]);
}

#[test]
fn address_from_slice_takes_32_bytes() {
    let data: Vec<u8> = (0..40u8).collect();
    let a = Address::from_slice(&data, 5);
    let expected: Vec<u8> = (5..37u8).collect();
    assert_eq!(a.to_vec(), expected);
}

#[test]
fn domain_tags_are_the_bytes_of_their_names() {
    assert_eq!(NFTPool::seed(), b"liqzNFTPool".to_vec());
    assert_eq!(NFTBid::seed(), b"liqzNFTBid".to_vec());
    assert_eq!(NFTDeposit::seed(), b"liqzNFTDeposit".to_vec());
}

#[test]
fn pool_address_is_the_program_address_of_its_tag() {
    for n in [1u8, 2, 77, 200] {
        let program = key(n);
        let (expected, bump) = Pubkey::find_program_address(&[b"liqzNFTPool"], &pubkey(&program));
        assert_eq!(NFTPool::get_address_with_bump(&program), Some((address(&expected), bump)));
        assert_eq!(NFTPool::get_address(&program), Some(address(&expected)));
    }
}

#[test]
fn bid_address_is_derived_from_mint_and_wallet() {
    let program = key(11);
    let mint = key(12);
    let wallet = key(13);
    let (expected, bump) = Pubkey::find_program_address(
        &[b"liqzNFTBid", &mint.bytes, &wallet.bytes],
        &pubkey(&program),
    );
    assert_eq!(
        NFTBid::get_address_with_bump(&program, &mint, &wallet),
        Some((address(&expected), bump))
    );
    assert_eq!(NFTBid::get_address(&program, &mint, &wallet), Some(address(&expected)));
    // the order of the identities matters
    assert_ne!(NFTBid::get_address(&program, &wallet, &mint), Some(address(&expected)));
}

#[test]
fn deposit_address_is_derived_from_mint_wallet_and_id() {
    let program = key(21);
    let mint = key(22);
    let wallet = key(23);
    let id = key(24);
    let (expected, bump) = Pubkey::find_program_address(
        &[b"liqzNFTDeposit", &mint.bytes, &wallet.bytes, &id.bytes],
        &pubkey(&program),
    );
    assert_eq!(
        NFTDeposit::get_address_with_bump(&program, &mint, &wallet, &id),
        Some((address(&expected), bump))
    );
    assert_eq!(NFTDeposit::get_address(&program, &mint, &wallet, &id), Some(address(&expected)));
    assert_ne!(
        NFTDeposit::get_address(&program, &mint, &wallet, &key(25)),
        Some(address(&expected))
    );
}

#[test]
fn found_address_verifies_with_its_bump() {
    let program = key(31);
    let (pool, bump) = NFTPool::get_address_with_bump(&program).unwrap();
    assert_eq!(NFTPool::verify_address(&program, bump, &pool), Ok(()));
    let mint = key(32);
    let wallet = key(33);
    let (bid, bump) = NFTBid::get_address_with_bump(&program, &mint, &wallet).unwrap();
    assert_eq!(NFTBid::verify_address(&program, &mint, &wallet, bump, &bid), Ok(()));
    let id = key(34);
    let (deposit, bump) = NFTDeposit::get_address_with_bump(&program, &mint, &wallet, &id).unwrap();
    assert_eq!(NFTDeposit::verify_address(&program, &mint, &wallet, &id, bump, &deposit), Ok(()));
}

#[test]
fn another_address_is_refused_with_the_error_of_its_kind() {
    let program = key(41);
    let mint = key(42);
    let wallet = key(43);
    let id = key(44);
    let (_, bump) = NFTPool::get_address_with_bump(&program).unwrap();
    assert_eq!(
        NFTPool::verify_address(&program, bump, &key(9)),
        Err(ProtocolError::Liqz(liqzError::ContractAddressNotCorrect))
    );
    let (_, bump) = NFTBid::get_address_with_bump(&program, &mint, &wallet).unwrap();
    assert_eq!(
        NFTBid::verify_address(&program, &mint, &wallet, bump, &key(9)),
        Err(ProtocolError::Liqz(liqzError::NFTBidAddressNotCorrect))
    );
    let (_, bump) = NFTDeposit::get_address_with_bump(&program, &mint, &wallet, &id).unwrap();
    assert_eq!(
        NFTDeposit::verify_address(&program, &mint, &wallet, &id, bump, &key(9)),
        Err(ProtocolError::Liqz(liqzError::NFTLoanAddressNotCorrect))
    );
}

#[test]
fn a_bump_that_derives_nothing_is_refused_with_invalid_seeds() {
    let program = (1..=255u8).map(key).find(|p| bump_without_address(p).is_some()).unwrap();
    let bump = bump_without_address(&program).unwrap();
    assert_eq!(
        NFTPool::verify_address(&program, bump, &key(9)),
        Err(ProtocolError::InvalidSeeds)
    );
}

#[test]
fn verify_agrees_with_create_program_address_for_every_bump() {
    let program = key(51);
    for bump in 0..=255u8 {
        let derived = Pubkey::create_program_address(&[b"liqzNFTPool", &[bump]], &pubkey(&program));
        match derived {
            Ok(k) => {
                assert_eq!(NFTPool::verify_address(&program, bump, &address(&k)), Ok(()));
            }
            Err(_) => {
                assert_eq!(
                    NFTPool::verify_address(&program, bump, &key(9)),
                    Err(ProtocolError::InvalidSeeds)
                );
            }
        }
    }
}

#[test]
fn locate_answers_with_the_bump() {
    let program = key(61);
    let mint = key(62);
    let wallet = key(63);
    let id = key(64);
    let (pool, bump) = NFTPool::get_address_with_bump(&program).unwrap();
    assert_eq!(NFTPool::locate(&program, &pool), Ok(bump));
    assert_eq!(
        NFTPool::locate(&program, &key(9)),
        Err(ProtocolError::Liqz(liqzError::ContractAddressNotCorrect))
    );
    let (bid, bump) = NFTBid::get_address_with_bump(&program, &mint, &wallet).unwrap();
    assert_eq!(NFTBid::locate(&program, &mint, &wallet, &bid), Ok(bump));
    assert_eq!(
        NFTBid::locate(&program, &mint, &wallet, &pool),
        Err(ProtocolError::Liqz(liqzError::NFTBidAddressNotCorrect))
    );
    let (deposit, bump) = NFTDeposit::get_address_with_bump(&program, &mint, &wallet, &id).unwrap();
    assert_eq!(NFTDeposit::locate(&program, &mint, &wallet, &id, &deposit), Ok(bump));
    assert_eq!(
        NFTDeposit::locate(&program, &mint, &wallet, &id, &bid),
        Err(ProtocolError::Liqz(liqzError::NFTLoanAddressNotCorrect))
    );
}

#[test]
fn too_many_or_too_long_seeds_are_refused() {
    let program = key(71);
    let too_long = vec![vec![0u8; 33]];
    assert_eq!(
        verify_derived_address(too_long.clone(), &program, 255, &key(9), liqzError::NFTOverdrawn),
        Err(ProtocolError::MaxSeedLengthExceeded)
    );
    assert_eq!(
        locate_derived_address(too_long, &program, &key(9), liqzError::NFTOverdrawn),
        Err(ProtocolError::AddressNotDerivable)
    );
    let too_many = vec![vec![1u8]; 16];
    assert_eq!(
        verify_derived_address(too_many.clone(), &program, 255, &key(9), liqzError::NFTOverdrawn),
        Err(ProtocolError::MaxSeedLengthExceeded)
    );
    assert_eq!(
        locate_derived_address(too_many, &program, &key(9), liqzError::NFTOverdrawn),
        Err(ProtocolError::AddressNotDerivable)
    );
    // fifteen seeds and the bump are still admitted
    let most = vec![vec![1u8]; 15];
    let refs: Vec<&[u8]> = most.iter().map(|s| s.as_slice()).collect();
    let (expected, bump) = Pubkey::find_program_address(&refs, &pubkey(&program));
    assert_eq!(
        locate_derived_address(most, &program, &address(&expected), liqzError::NFTOverdrawn),
        Ok(bump)
    );
}

#[test]
fn mismatch_error_is_the_one_handed_in() {
    let program = key(81);
    let seeds = vec![b"anything".to_vec()];
    assert_eq!(
        locate_derived_address(seeds, &program, &key(9), liqzError::EmptyNFTReserve),
        Err(ProtocolError::Liqz(liqzError::EmptyNFTReserve))
    );
}

#[test]
fn seeds_with_bump_appends_one_byte() {
    let seeds = vec![b"ab".to_vec(), b"c".to_vec()];
    assert_eq!(seeds_with_bump(seeds, 254), vec![b"ab".to_vec(), b"c".to_vec(), vec![254u8]]);
}

#[test]
fn signer_seeds_are_tag_identities_and_bump() {
    assert_eq!(
        DerivedSeeds::Pool { bump: 250 }.to_seeds(),
        vec![b"liqzNFTPool".to_vec(), vec![250u8]]
    );
    assert_eq!(
        DerivedSeeds::Bid { mint: key(1), wallet: key(2), bump: 3 }.to_seeds(),
        vec![b"liqzNFTBid".to_vec(), vec![1u8; 32], vec![2u8; 32], vec![3u8]]
    );
    assert_eq!(
        DerivedSeeds::Deposit { mint: key(1), wallet: key(2), deposit_id: key(4), bump: 3 }
            .to_seeds(),
        vec![b"liqzNFTDeposit".to_vec(), vec![1u8; 32], vec![2u8; 32], vec![4u8; 32], vec![3u8]]
    );
}

#[test]
fn signer_seeds_derive_the_address_that_was_found() {
    let program = key(91);
    let mint = key(92);
    let wallet = key(93);
    let (bid, bump) = NFTBid::get_address_with_bump(&program, &mint, &wallet).unwrap();
    let seeds = DerivedSeeds::Bid { mint, wallet, bump }.to_seeds();
    let refs: Vec<&[u8]> = seeds.iter().map(|s| s.as_slice()).collect();
    let derived = Pubkey::create_program_address(&refs, &pubkey(&program)).unwrap();
    assert_eq!(address(&derived), bid);
}
