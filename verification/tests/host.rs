use liqz::accounts::AccountInfo;
use liqz::ledger::CreateAccount;
use liqz::ledger::DerivedSeeds;
use liqz::utils::create_associated_token_account;
use liqz::utils::create_derived_account_with_seed;
use liqz::utils::is_account_allocated;
use liqz::utils::required_lamports;
use liqz::utils::revoke_instruction;
use liqz::utils::AccountMeta;
use liqz::utils::Instruction;
use liqz::Address;
use solana_program::pubkey::Pubkey;
use solana_program::system_instruction;

fn key(n: u8) -> Address {
    Address::new([n; 32])
}

fn account(lamports: u64, data: Vec<u8>, owner: Address) -> AccountInfo {
    AccountInfo { key: key(1), lamports, data, owner }
}

#[test]
fn untouched_account_is_not_allocated() {
    assert!(!is_account_allocated(&account(0, vec![], key(0))));
    let system = Address::new(solana_program::system_program::id().to_bytes());
    assert!(!is_account_allocated(&account(0, vec![], system)));
}

#[test]
fn balance_data_or_owner_make_an_account_allocated() {
    assert!(is_account_allocated(&account(1, vec![], key(0))));
    assert!(is_account_allocated(&account(0, vec![0], key(0))));
    assert!(is_account_allocated(&account(0, vec![], key(2))));
    let mut almost_system = [0u8; 32];
    almost_system[31] = 1;
    assert!(is_account_allocated(&account(0, vec![], Address::new(almost_system))));
    assert!(is_account_allocated(&account(5, vec![1, 2, 3], key(2))));
}

#[test]
fn created_account_is_never_left_without_balance() {
    assert_eq!(required_lamports(0), 1);
    assert_eq!(required_lamports(1), 1);
    assert_eq!(required_lamports(890_880), 890_880);
    assert_eq!(required_lamports(u64::MAX), u64::MAX);
}

fn pubkey(a: &Address) -> Pubkey {
    Pubkey::new_from_array(a.bytes)
}

/// An instruction of the host as the library describes it.
fn described(ix: &solana_program::instruction::Instruction) -> Instruction {
    Instruction {
        program_id: Address::new(ix.program_id.to_bytes()),
        accounts: ix
            .accounts
            .iter()
            .map(|m| AccountMeta {
                pubkey: Address::new(m.pubkey.to_bytes()),
                is_signer: m.is_signer,
                is_writable: m.is_writable,
            })
            .collect(),
        data: ix.data.clone(),
    }
}

#[test]
fn creation_instruction_is_the_system_programs() {
    let ix = create_derived_account_with_seed(&key(1), &key(2), &key(3), 177, 2_000_000);
    let expected = system_instruction::create_account(
        &pubkey(&key(2)),
        &pubkey(&key(3)),
        2_000_000,
        177,
        &pubkey(&key(1)),
    );
    assert_eq!(ix, described(&expected));
    assert_eq!(ix.program_id, Address::new([0; 32]));
    assert_eq!(
        ix.accounts,
        vec![
            AccountMeta { pubkey: key(2), is_signer: true, is_writable: true },
            AccountMeta { pubkey: key(3), is_signer: true, is_writable: true },
        ]
    );
    // what kind of request, then balance, size and owner
    let mut data = vec![0u8, 0, 0, 0];
    data.extend(2_000_000u64.to_le_bytes());
    data.extend(177u64.to_le_bytes());
    data.extend([1u8; 32]);
    assert_eq!(ix.data, data);
}

#[test]
fn creation_instruction_never_funds_with_nothing() {
    let ix = create_derived_account_with_seed(&key(1), &key(2), &key(3), 24, 0);
    let expected =
        system_instruction::create_account(&pubkey(&key(2)), &pubkey(&key(3)), 1, 24, &pubkey(&key(1)));
    assert_eq!(ix, described(&expected));
}

#[test]
fn creation_request_builds_its_instruction() {
    let request = CreateAccount {
        funder: key(2),
        account: key(3),
        space: 105,
        owner: key(1),
        seeds: DerivedSeeds::Pool { bump: 254 },
    };
    assert_eq!(
        request.instruction(5000),
        create_derived_account_with_seed(&key(1), &key(2), &key(3), 105, 5000)
    );
}

#[test]
fn revoke_instruction_is_the_token_programs() {
    let ix = revoke_instruction(&key(8), &key(9)).unwrap();
    let owner = pubkey(&key(9));
    let expected =
        spl_token::instruction::revoke(&spl_token::id(), &pubkey(&key(8)), &owner, &[&owner])
            .unwrap();
    assert_eq!(ix, described(&expected));
    assert_eq!(ix.program_id.bytes, spl_token::id().to_bytes());
    assert_eq!(
        ix.program_id.bytes,
        [
            6, 221, 246, 225, 215, 101, 161, 147, 217, 203, 225, 70, 206, 235, 121, 172, 28, 180,
            133, 237, 95, 91, 55, 145, 58, 140, 245, 133, 126, 255, 0, 169
        ]
    );
    assert_eq!(
        ix.accounts,
        vec![
            AccountMeta { pubkey: key(8), is_signer: false, is_writable: true },
            AccountMeta { pubkey: key(9), is_signer: false, is_writable: false },
            AccountMeta { pubkey: key(9), is_signer: true, is_writable: false },
        ]
    );
    assert_eq!(ix.data, vec![5u8]);
}

#[test]
fn associated_token_account_instruction_lists_its_accounts_in_order() {
    let ix = create_associated_token_account(
        &key(1),
        &key(2),
        &key(3),
        &key(4),
        &key(5),
        &key(6),
        &key(7),
    );
    assert_eq!(ix.program_id.bytes, spl_associated_token_account::id().to_bytes());
    assert!(ix.data.is_empty());
    assert_eq!(
        ix.accounts,
        vec![
            AccountMeta { pubkey: key(2), is_signer: true, is_writable: true },
            AccountMeta { pubkey: key(4), is_signer: false, is_writable: true },
            AccountMeta { pubkey: key(1), is_signer: false, is_writable: false },
            AccountMeta { pubkey: key(3), is_signer: false, is_writable: false },
            AccountMeta { pubkey: key(6), is_signer: false, is_writable: false },
            AccountMeta { pubkey: key(5), is_signer: false, is_writable: false },
            AccountMeta { pubkey: key(7), is_signer: false, is_writable: false },
        ]
    );
}

#[test]
fn associated_token_program_has_its_published_address() {
    let ix = create_associated_token_account(
        &key(1),
        &key(2),
        &key(3),
        &key(4),
        &key(5),
        &key(6),
        &key(7),
    );
    assert_eq!(
        ix.program_id.bytes,
        [
            140, 151, 37, 143, 78, 36, 137, 241, 187, 61, 16, 41, 20, 142, 13, 131, 11, 90, 19,
            153, 218, 255, 16, 132, 4, 142, 123, 216, 219, 233, 248, 89
        ]
    );
}
