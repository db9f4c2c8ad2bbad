use solana_program::pubkey::Pubkey;
use staking_program::address::Address;
use staking_program::constants::{LOCK_PERIOD, STAKE_INFO_SEED, TOKEN_SEED, VAULT_SEED};
use staking_program::derivation::{
    find_escrow_address, find_stake_info_address, find_vault_address, Seeds,
};
use staking_program::token::{Authorization, Custody, TokenAccount};

fn key(tag: u8) -> Address {
    let mut bytes = [0u8; 32];
    bytes[0] = tag;
    bytes[31] = 7;
    Address::new(bytes)
}

fn pubkey(address: &Address) -> Pubkey {
    Pubkey::new_from_array(address.bytes)
}

#[test]
fn constants_are_the_protocol_s() {
    assert_eq!(&VAULT_SEED[..], b"vault");
    assert_eq!(&STAKE_INFO_SEED[..], b"stake_info");
    assert_eq!(&TOKEN_SEED[..], b"token");
    assert_eq!(LOCK_PERIOD, 250);
}

#[test]
fn seeds_are_built_from_the_constants_and_the_user() {
    let user = key(3);
    assert_eq!(Seeds::vault().parts, vec![b"vault".to_vec()]);
    assert_eq!(
        Seeds::stake_info(&user).parts,
        vec![b"stake_info".to_vec(), user.bytes.to_vec()]
    );
    assert_eq!(
        Seeds::escrow(&user).parts,
        vec![b"token".to_vec(), user.bytes.to_vec()]
    );
    assert_eq!(
        Seeds::escrow_signer(&user, 254).parts,
        vec![b"token".to_vec(), user.bytes.to_vec(), vec![254u8]]
    );
}

#[test]
fn found_addresses_are_the_ledger_s_derivations() {
    let program = key(200);
    let user = key(3);
    let (vault, vault_bump) = find_vault_address(&program).unwrap();
    let expected = Pubkey::find_program_address(&[b"vault"], &pubkey(&program));
    assert_eq!((pubkey(&vault), vault_bump), expected);

    let (info, info_bump) = find_stake_info_address(&program, &user).unwrap();
    let expected =
        Pubkey::find_program_address(&[b"stake_info", &user.bytes], &pubkey(&program));
    assert_eq!((pubkey(&info), info_bump), expected);

    let (escrow, escrow_bump) = find_escrow_address(&program, &user).unwrap();
    let expected = Pubkey::find_program_address(&[b"token", &user.bytes], &pubkey(&program));
    assert_eq!((pubkey(&escrow), escrow_bump), expected);

    assert_ne!(vault, program);
    assert_ne!(escrow, user);
    assert_ne!(escrow, info);
}

#[test]
fn each_user_has_an_escrow_address_of_their_own() {
    let program = key(200);
    let (a, _) = find_escrow_address(&program, &key(1)).unwrap();
    let (b, _) = find_escrow_address(&program, &key(2)).unwrap();
    assert_ne!(a, b);
    let (other_program, _) = find_escrow_address(&key(201), &key(1)).unwrap();
    assert_ne!(a, other_program);
}

#[test]
fn escrow_accepts_only_the_derivation_of_its_own_address() {
    let program = key(200);
    let user = key(3);
    let (address, bump) = find_escrow_address(&program, &user).unwrap();
    let escrow = TokenAccount::new(address, key(100), Custody::Program);

    let right = Authorization::Derivation(Seeds::escrow_signer(&user, bump));
    assert!(escrow.accepts(&right, &program));

    let wrong_bump = Authorization::Derivation(Seeds::escrow_signer(&user, bump.wrapping_sub(1)));
    assert!(!escrow.accepts(&wrong_bump, &program));

    let wrong_user = Authorization::Derivation(Seeds::escrow_signer(&key(4), bump));
    assert!(!escrow.accepts(&wrong_user, &program));

    let without_bump = Authorization::Derivation(Seeds::escrow(&user));
    assert!(!escrow.accepts(&without_bump, &program));

    assert!(!escrow.accepts(&right, &key(201)));
    assert!(!escrow.accepts(&Authorization::Signature(user), &program));
    assert!(!escrow.accepts(&Authorization::Signature(address), &program));
}

#[test]
fn derivation_of_too_long_a_seed_is_refused() {
    let program = key(200);
    let address = key(50);
    let escrow = TokenAccount::new(address, key(100), Custody::Program);
    let long = Seeds { parts: vec![vec![1u8; 33]] };
    assert!(!escrow.accepts(&Authorization::Derivation(long), &program));
}

#[test]
fn wallet_accepts_only_its_owner_s_signature() {
    let program = key(200);
    let owner = key(3);
    let wallet = TokenAccount::new(key(11), key(100), Custody::Owner(owner));
    assert!(wallet.accepts(&Authorization::Signature(owner), &program));
    assert!(!wallet.accepts(&Authorization::Signature(key(4)), &program));
    assert!(!wallet.accepts(
        &Authorization::Derivation(Seeds::escrow_signer(&owner, 255)),
        &program
    ));
}
