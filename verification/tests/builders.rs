use std::str::FromStr;

use minter::addr::{
    address_bytes, derive_mint_address, derive_minter_address, derive_minter_v2_address,
    mint_authority, mint_seeds, mint_v2_seeds, minter_authority, minter_seeds, minter_v2_authority,
    minter_v2_seeds, Address,
};
use minter::allocator::{create_or_allocate_account_raw, AccountFunding, MINT_ACCOUNT_SPACE};
use minter::calls::ExternalCall;
use minter::token_metadata::{
    sign_metadata, update_metadata_accounts_v2, update_primary_sale_happened_via_token,
    SignMetadata, TokenMetadata, UpdateMetadataAccountsV2, UpdatePrimarySaleHappenedViaToken,
};

fn addr(n: u8) -> Address {
    Address { bytes: [n; 32] }
}

#[test]
fn seed_families_have_the_documented_bytes() {
    let owner = addr(9);
    assert_eq!(minter_seeds(&owner), vec![b"minter".to_vec(), owner.bytes.to_vec()]);
    assert_eq!(minter_v2_seeds(&owner), vec![b"minter_v2".to_vec(), owner.bytes.to_vec()]);
    assert_eq!(mint_seeds(1), vec![b"mint".to_vec(), vec![1, 0, 0, 0]]);
    assert_eq!(mint_v2_seeds(0x0102_0304), vec![b"mint_v2".to_vec(), vec![4, 3, 2, 1]]);
    assert_eq!(address_bytes(&owner), vec![9u8; 32]);
}

#[test]
fn derivation_matches_the_ledger_algorithm() {
    let pid_bytes = [7u8; 32];
    let pid = Address { bytes: pid_bytes };
    let solana_pid = solana_program::pubkey::Pubkey::new_from_array(pid_bytes);

    let (mint, bump) = derive_mint_address(&pid, 3).unwrap();
    let (expected, expected_bump) = solana_program::pubkey::Pubkey::find_program_address(
        &[b"mint", &3u32.to_le_bytes()],
        &solana_pid,
    );
    assert_eq!(mint.bytes, expected.to_bytes());
    assert_eq!(bump, expected_bump);

    let owner = addr(13);
    let (record, record_bump) = derive_minter_address(&pid, &owner).unwrap();
    let (expected, expected_bump) = solana_program::pubkey::Pubkey::find_program_address(
        &[b"minter", &owner.bytes],
        &solana_pid,
    );
    assert_eq!(record.bytes, expected.to_bytes());
    assert_eq!(record_bump, expected_bump);

    let (record_v2, _) = derive_minter_v2_address(&pid, &owner).unwrap();
    let (expected_v2, _) = solana_program::pubkey::Pubkey::find_program_address(
        &[b"minter_v2", &owner.bytes],
        &solana_pid,
    );
    assert_eq!(record_v2.bytes, expected_v2.to_bytes());
}

#[test]
fn authority_proofs_replay_the_seed_family_with_the_bump() {
    let pid = addr(7);
    let owner = addr(13);

    let (_, bump) = derive_minter_address(&pid, &owner).unwrap();
    let authority_proof = minter_authority(&pid, &owner).unwrap();
    assert_eq!(authority_proof.seeds, vec![b"minter".to_vec(), owner.bytes.to_vec(), vec![bump]]);

    let (_, bump_v2) = derive_minter_v2_address(&pid, &owner).unwrap();
    let authority_proof_v2 = minter_v2_authority(&pid, &owner).unwrap();
    assert_eq!(
        authority_proof_v2.seeds,
        vec![b"minter_v2".to_vec(), owner.bytes.to_vec(), vec![bump_v2]],
    );

    let mint_proof = mint_authority(6, 250);
    assert_eq!(mint_proof.seeds, vec![b"mint".to_vec(), vec![6, 0, 0, 0], vec![250]]);
}

#[test]
fn allocation_creates_a_fresh_account_in_one_call() {
    let signer = mint_authority(0, 255);
    let plan = create_or_allocate_account_raw(
        &addr(24),
        &addr(40),
        &addr(11),
        &AccountFunding { current_lamports: 0, rent_minimum_balance: 2_000 },
        MINT_ACCOUNT_SPACE,
        &signer,
    );
    assert_eq!(plan.len(), 1);
    match &plan[0].call {
        ExternalCall::CreateAccount { funder, target, lamports, space, owner_program } => {
            assert_eq!(*funder, addr(11));
            assert_eq!(*target, addr(40));
            assert_eq!(*lamports, 2_000);
            assert_eq!(*space, 82);
            assert_eq!(*owner_program, addr(24));
        }
        other => panic!("expected account creation, got {:?}", other),
    }
    assert_eq!(plan[0].signer.as_ref().unwrap().seeds, signer.seeds);
}

#[test]
fn allocation_tops_up_an_underfunded_account() {
    let signer = mint_authority(0, 255);
    let plan = create_or_allocate_account_raw(
        &addr(24),
        &addr(40),
        &addr(11),
        &AccountFunding { current_lamports: 500, rent_minimum_balance: 2_000 },
        MINT_ACCOUNT_SPACE,
        &signer,
    );
    assert_eq!(plan.len(), 3);
    match &plan[0].call {
        ExternalCall::Transfer { from, to, lamports } => {
            assert_eq!(*from, addr(11));
            assert_eq!(*to, addr(40));
            assert_eq!(*lamports, 1_500);
        }
        other => panic!("expected transfer, got {:?}", other),
    }
    assert!(plan[0].signer.is_none());
    assert!(matches!(&plan[1].call, ExternalCall::Allocate { space: 82, .. }));
    assert!(matches!(&plan[2].call, ExternalCall::Assign { .. }));
    assert!(plan[1].signer.is_some());
    assert!(plan[2].signer.is_some());
}

#[test]
fn allocation_skips_the_transfer_when_funded() {
    let signer = mint_authority(0, 255);
    let plan = create_or_allocate_account_raw(
        &addr(24),
        &addr(40),
        &addr(11),
        &AccountFunding { current_lamports: 5_000, rent_minimum_balance: 2_000 },
        MINT_ACCOUNT_SPACE,
        &signer,
    );
    assert_eq!(plan.len(), 2);
    assert!(matches!(&plan[0].call, ExternalCall::Allocate { .. }));
    assert!(matches!(&plan[1].call, ExternalCall::Assign { .. }));
}

#[test]
fn metadata_program_identity_matches_its_deployment() {
    let expected =
        solana_program::pubkey::Pubkey::from_str("metaqbxxUerdq28cj1RbAWkYQm3ybzjb6a8bt518x1s")
            .unwrap();
    assert_eq!(TokenMetadata::id().bytes, expected.to_bytes());
}

#[test]
fn remaining_metadata_builders_produce_their_calls() {
    let signed = sign_metadata(&SignMetadata { metadata: addr(1), creator: addr(2) }, None);
    assert!(matches!(signed.call, ExternalCall::SignMetadata { .. }));
    assert!(signed.signer.is_none());

    let update = update_metadata_accounts_v2(
        &UpdateMetadataAccountsV2 { metadata: addr(1), update_authority: addr(2) },
        Some(addr(3)),
        None,
        Some(true),
        Some(false),
        None,
    );
    match &update.call {
        ExternalCall::UpdateMetadata {
            metadata,
            update_authority,
            new_update_authority,
            data,
            primary_sale_happened,
            is_mutable,
        } => {
            assert_eq!(*metadata, addr(1));
            assert_eq!(*update_authority, addr(2));
            assert_eq!(*new_update_authority, Some(addr(3)));
            assert!(data.is_none());
            assert_eq!(*primary_sale_happened, Some(true));
            assert_eq!(*is_mutable, Some(false));
        }
        other => panic!("expected metadata update, got {:?}", other),
    }

    let sale = update_primary_sale_happened_via_token(
        &UpdatePrimarySaleHappenedViaToken { metadata: addr(1), owner: addr(2), token: addr(3) },
        None,
    );
    match &sale.call {
        ExternalCall::UpdatePrimarySale { metadata, owner, token } => {
            assert_eq!(*metadata, addr(1));
            assert_eq!(*owner, addr(2));
            assert_eq!(*token, addr(3));
        }
        other => panic!("expected primary-sale update, got {:?}", other),
    }
}
