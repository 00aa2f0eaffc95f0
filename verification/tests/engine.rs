use minter::addr::{derive_mint_address, derive_mint_v2_address, Address};
use minter::allocator::AccountFunding;
use minter::calls::ExternalCall;
use minter::orchestrator::{
    binding_collection, complete_binding, mint_for, mint_with_collection, BasicMint,
    BindingCollection, MintFor, MintWithCollection,
};
use minter::state::{
    InitializeMinter, InitializeMinterV2, MinterAccount, MinterAccountV2, MinterError,
    MinterRegistry,
};

fn addr(n: u8) -> Address {
    Address { bytes: [n; 32] }
}

fn program_id() -> Address {
    addr(7)
}

fn basic_accounts(mint: Address) -> BasicMint {
    BasicMint {
        mint,
        associated_token_account: addr(21),
        metadata: addr(22),
        master_edition: addr(23),
        token_program: addr(24),
    }
}

fn funding_fresh() -> AccountFunding {
    AccountFunding { current_lamports: 0, rent_minimum_balance: 1_000_000 }
}

fn mint_for_accounts(count: u32) -> MintFor {
    let (mint, _) = derive_mint_address(&program_id(), count).unwrap();
    MintFor {
        payer: addr(11),
        minter_address: addr(12),
        minter: MinterAccount { owner: addr(13), count },
        basic: basic_accounts(mint),
    }
}

fn mint_with_collection_accounts(count: u32, collection: Option<Address>) -> MintWithCollection {
    let (mint, _) = derive_mint_v2_address(&program_id(), count).unwrap();
    MintWithCollection {
        payer: addr(11),
        minter_address: addr(12),
        minter: MinterAccountV2 { owner: addr(13), count, collection },
        collection_authority_record: addr(31),
        collection_mint: addr(32),
        collection: addr(33),
        collection_master_edition_account: addr(34),
        basic: basic_accounts(mint),
    }
}

#[test]
fn initialize_minter_is_one_shot() {
    let mut registry = MinterRegistry::new();
    let ctx = InitializeMinter { authority: addr(5) };
    assert!(registry.initialize_minter(&ctx).is_ok());
    assert_eq!(registry.records.len(), 1);
    assert_eq!(registry.records[0].owner, addr(5));
    assert_eq!(registry.records[0].count, 0);

    let second = registry.initialize_minter(&ctx);
    assert_eq!(second, Err(MinterError::AlreadyInitialized));
    assert_eq!(registry.records.len(), 1);
    assert_eq!(registry.records[0].count, 0);
}

#[test]
fn initialize_minter_v2_is_one_shot_and_unbound() {
    let mut registry = MinterRegistry::new();
    let ctx = InitializeMinterV2 { authority: addr(6) };
    assert!(registry.initialize_minter_v2(&ctx).is_ok());
    assert_eq!(registry.records_v2.len(), 1);
    assert!(registry.records_v2[0].collection.is_none());

    let second = registry.initialize_minter_v2(&ctx);
    assert_eq!(second, Err(MinterError::AlreadyInitialized));
    assert_eq!(registry.records_v2.len(), 1);
}

#[test]
fn mint_for_accepts_derived_address_and_advances_count() {
    let accounts = mint_for_accounts(5);
    let session = mint_for(
        &program_id(),
        &accounts,
        &funding_fresh(),
        "Token".to_string(),
        "TOK".to_string(),
        "https://example.invalid/5".to_string(),
        500,
        true,
    )
    .unwrap();
    assert_eq!(session.calls.len(), 7);

    let mut session = session;
    for _ in 0..7 {
        assert!(session.next_call().is_some());
        session.record_success();
    }
    assert!(session.next_call().is_none());

    let mut stored = MinterAccount { owner: addr(13), count: 5 };
    assert!(session.commit(&mut stored).is_ok());
    assert_eq!(stored.count, 6);
    assert_eq!(stored.owner, addr(13));
}

#[test]
fn mint_for_plans_the_fixed_sequence() {
    let accounts = mint_for_accounts(0);
    let session = mint_for(
        &program_id(),
        &accounts,
        &funding_fresh(),
        "Token".to_string(),
        "TOK".to_string(),
        "https://example.invalid/0".to_string(),
        250,
        false,
    )
    .unwrap();
    let calls = &session.calls;
    assert_eq!(calls.len(), 7);

    match &calls[0].call {
        ExternalCall::CreateAccount { funder, target, lamports, space, owner_program } => {
            assert_eq!(*funder, accounts.payer);
            assert_eq!(*target, accounts.basic.mint);
            assert_eq!(*lamports, 1_000_000);
            assert_eq!(*space, 82);
            assert_eq!(*owner_program, accounts.basic.token_program);
        }
        other => panic!("expected account creation, got {:?}", other),
    }
    assert!(calls[0].signer.is_some());

    match &calls[1].call {
        ExternalCall::InitializeMint { mint, decimals, mint_authority, freeze_authority } => {
            assert_eq!(*mint, accounts.basic.mint);
            assert_eq!(*decimals, 0);
            assert_eq!(*mint_authority, accounts.minter_address);
            assert!(freeze_authority.is_none());
        }
        other => panic!("expected mint initialization, got {:?}", other),
    }

    match &calls[2].call {
        ExternalCall::CreateAssociatedAccount { payer, associated_token, wallet, mint } => {
            assert_eq!(*payer, accounts.payer);
            assert_eq!(*associated_token, accounts.basic.associated_token_account);
            assert_eq!(*wallet, accounts.payer);
            assert_eq!(*mint, accounts.basic.mint);
        }
        other => panic!("expected associated account creation, got {:?}", other),
    }

    match &calls[3].call {
        ExternalCall::MintTo { mint, to, authority, amount } => {
            assert_eq!(*mint, accounts.basic.mint);
            assert_eq!(*to, accounts.basic.associated_token_account);
            assert_eq!(*authority, accounts.minter_address);
            assert_eq!(*amount, 1);
        }
        other => panic!("expected mint-to, got {:?}", other),
    }

    match &calls[4].call {
        ExternalCall::CreateMetadata {
            metadata,
            mint,
            mint_authority,
            payer,
            update_authority,
            name,
            symbol,
            uri,
            creators,
            seller_fee_basis_points,
            update_authority_is_signer,
            is_mutable,
            collection,
            uses,
        } => {
            assert_eq!(*metadata, accounts.basic.metadata);
            assert_eq!(*mint, accounts.basic.mint);
            assert_eq!(*mint_authority, accounts.minter_address);
            assert_eq!(*payer, accounts.payer);
            assert_eq!(*update_authority, accounts.minter_address);
            assert_eq!(name.as_str(), "Token");
            assert_eq!(symbol.as_str(), "TOK");
            assert_eq!(uri.as_str(), "https://example.invalid/0");
            let creators = creators.as_ref().unwrap();
            assert_eq!(creators.len(), 2);
            assert_eq!(creators[0].address, accounts.payer);
            assert!(!creators[0].verified);
            assert_eq!(creators[0].share, 98);
            assert_eq!(creators[1].address, accounts.minter_address);
            assert!(creators[1].verified);
            assert_eq!(creators[1].share, 2);
            assert_eq!(*seller_fee_basis_points, 250);
            assert!(*update_authority_is_signer);
            assert!(!*is_mutable);
            assert!(collection.is_none());
            assert!(uses.is_none());
        }
        other => panic!("expected metadata creation, got {:?}", other),
    }

    match &calls[5].call {
        ExternalCall::CreateMasterEdition { max_supply, .. } => {
            assert_eq!(*max_supply, Some(0));
        }
        other => panic!("expected master edition creation, got {:?}", other),
    }

    match &calls[6].call {
        ExternalCall::SignMetadata { metadata, creator } => {
            assert_eq!(*metadata, accounts.basic.metadata);
            assert_eq!(*creator, accounts.payer);
        }
        other => panic!("expected metadata signing, got {:?}", other),
    }
}

#[test]
fn mint_for_rejects_wrong_mint_address() {
    let mut accounts = mint_for_accounts(3);
    accounts.basic.mint.bytes[0] ^= 1;
    let r = mint_for(
        &program_id(),
        &accounts,
        &funding_fresh(),
        "Token".to_string(),
        "TOK".to_string(),
        "https://example.invalid/3".to_string(),
        0,
        true,
    );
    assert!(matches!(r, Err(MinterError::InvalidMintAddress)));
}

#[test]
fn mint_address_families_do_not_alias() {
    let (v1, _) = derive_mint_address(&program_id(), 4).unwrap();
    let (v2, _) = derive_mint_v2_address(&program_id(), 4).unwrap();
    assert_ne!(v1.bytes, v2.bytes);

    let (again, _) = derive_mint_address(&program_id(), 4).unwrap();
    assert_eq!(v1.bytes, again.bytes);

    let (next, _) = derive_mint_address(&program_id(), 5).unwrap();
    assert_ne!(v1.bytes, next.bytes);
}

#[test]
fn binding_by_non_owner_is_rejected() {
    let minter = MinterAccountV2 { owner: addr(13), count: 0, collection: None };
    let ctx = BindingCollection {
        authority: addr(14),
        collection_authority_record: addr(31),
        minter_address: addr(12),
        minter,
        metadata: addr(33),
        metadata_update_authority: addr(14),
        mint: addr(32),
    };
    let r = binding_collection(&program_id(), &ctx);
    assert!(matches!(r, Err(MinterError::MismatchedMinterOwner)));
    assert!(minter.collection.is_none());
}

#[test]
fn binding_requires_metadata_update_authority() {
    let minter = MinterAccountV2 { owner: addr(13), count: 0, collection: None };
    let ctx = BindingCollection {
        authority: addr(13),
        collection_authority_record: addr(31),
        minter_address: addr(12),
        minter,
        metadata: addr(33),
        metadata_update_authority: addr(40),
        mint: addr(32),
    };
    let r = binding_collection(&program_id(), &ctx);
    assert!(matches!(r, Err(MinterError::MismatchedUpdateAuthority)));
}

#[test]
fn binding_then_collection_mints_carry_the_collection() {
    let minter = MinterAccountV2 { owner: addr(13), count: 0, collection: None };
    let ctx = BindingCollection {
        authority: addr(13),
        collection_authority_record: addr(31),
        minter_address: addr(12),
        minter,
        metadata: addr(33),
        metadata_update_authority: addr(13),
        mint: addr(32),
    };
    let approve = binding_collection(&program_id(), &ctx).unwrap();
    match &approve.call {
        ExternalCall::ApproveCollectionAuthority {
            collection_authority_record,
            new_collection_authority,
            update_authority,
            payer,
            metadata,
            mint,
        } => {
            assert_eq!(*collection_authority_record, addr(31));
            assert_eq!(*new_collection_authority, addr(12));
            assert_eq!(*update_authority, addr(13));
            assert_eq!(*payer, addr(13));
            assert_eq!(*metadata, addr(33));
            assert_eq!(*mint, addr(32));
        }
        other => panic!("expected collection authority delegation, got {:?}", other),
    }
    assert!(approve.signer.is_some());

    let mut stored = minter;
    assert!(complete_binding(&mut stored, &addr(32)).is_ok());
    assert_eq!(stored.collection, Some(addr(32)));

    let accounts = mint_with_collection_accounts(0, Some(addr(32)));
    let session = mint_with_collection(
        &program_id(),
        &accounts,
        &funding_fresh(),
        "Token".to_string(),
        "TOK".to_string(),
        "https://example.invalid/c0".to_string(),
        100,
        true,
    )
    .unwrap();
    assert_eq!(session.calls.len(), 8);

    match &session.calls[4].call {
        ExternalCall::CreateMetadata { collection, .. } => {
            assert_eq!(*collection, Some(addr(32)));
        }
        other => panic!("expected metadata creation, got {:?}", other),
    }
    match &session.calls[7].call {
        ExternalCall::VerifyCollection {
            collection_authority,
            collection_mint,
            collection_authority_record,
            ..
        } => {
            assert_eq!(*collection_authority, accounts.minter_address);
            assert_eq!(*collection_mint, accounts.collection_mint);
            assert_eq!(*collection_authority_record, Some(addr(31)));
        }
        other => panic!("expected collection verification, got {:?}", other),
    }
}

#[test]
fn rebinding_is_rejected() {
    let mut stored = MinterAccountV2 { owner: addr(13), count: 2, collection: Some(addr(32)) };
    let r = complete_binding(&mut stored, &addr(50));
    assert_eq!(r, Err(MinterError::AlreadyBound));
    assert_eq!(stored.collection, Some(addr(32)));

    let ctx = BindingCollection {
        authority: addr(13),
        collection_authority_record: addr(31),
        minter_address: addr(12),
        minter: stored,
        metadata: addr(33),
        metadata_update_authority: addr(13),
        mint: addr(50),
    };
    let r = binding_collection(&program_id(), &ctx);
    assert!(matches!(r, Err(MinterError::AlreadyBound)));
}

#[test]
fn collection_mint_requires_binding() {
    let accounts = mint_with_collection_accounts(0, None);
    let r = mint_with_collection(
        &program_id(),
        &accounts,
        &funding_fresh(),
        "Token".to_string(),
        "TOK".to_string(),
        "https://example.invalid/cu".to_string(),
        0,
        true,
    );
    assert!(matches!(r, Err(MinterError::CollectionNotBound)));
}

#[test]
fn failure_at_any_step_leaves_the_count() {
    for failing_step in 0..7usize {
        let accounts = mint_for_accounts(9);
        let mut session = mint_for(
            &program_id(),
            &accounts,
            &funding_fresh(),
            "Token".to_string(),
            "TOK".to_string(),
            "https://example.invalid/9".to_string(),
            0,
            true,
        )
        .unwrap();
        assert_eq!(session.calls.len(), 7);

        for _ in 0..failing_step {
            session.record_success();
        }
        session.record_failure();

        let mut stored = MinterAccount { owner: addr(13), count: 9 };
        let r = session.commit(&mut stored);
        assert_eq!(r, Err(MinterError::WorkflowIncomplete));
        assert_eq!(stored.count, 9);
    }
}

#[test]
fn unfinished_session_commits_nothing() {
    let accounts = mint_for_accounts(1);
    let session = mint_for(
        &program_id(),
        &accounts,
        &funding_fresh(),
        "Token".to_string(),
        "TOK".to_string(),
        "https://example.invalid/1".to_string(),
        0,
        true,
    )
    .unwrap();
    let mut stored = MinterAccount { owner: addr(13), count: 1 };
    assert_eq!(session.commit(&mut stored), Err(MinterError::WorkflowIncomplete));
    assert_eq!(stored.count, 1);
}

#[test]
fn committed_v2_session_advances_count_and_keeps_binding() {
    let accounts = mint_with_collection_accounts(4, Some(addr(32)));
    let mut session = mint_with_collection(
        &program_id(),
        &accounts,
        &funding_fresh(),
        "Token".to_string(),
        "TOK".to_string(),
        "https://example.invalid/c4".to_string(),
        0,
        true,
    )
    .unwrap();
    for _ in 0..8 {
        session.record_success();
    }
    let mut stored = MinterAccountV2 { owner: addr(13), count: 4, collection: Some(addr(32)) };
    assert!(session.commit_v2(&mut stored).is_ok());
    assert_eq!(stored.count, 5);
    assert_eq!(stored.collection, Some(addr(32)));
}
