//! The mint orchestrator: validates the caller-supplied addresses against
//! the derived ones, plans the all-or-nothing sequence of boundary calls that
//! materializes one new token, tracks the sequence's progress, and advances
//! the per-owner counter only when every call has succeeded.

use vstd::prelude::*;
use crate::addr::{
    Address, SignerProof, lemma_deep_view_push, mint_authority, mint_seeds_view,
    mint_signer_view, mint_v2_authority, mint_v2_seeds_view, mint_v2_signer_view,
    minter_authority, minter_seeds_view, minter_signer_view, minter_v2_authority,
    minter_v2_seeds_view, minter_v2_signer_view, derive_mint_address, derive_mint_v2_address,
    pda_bump, pda_of,
};
use crate::allocator::{
    AccountFunding, MINT_ACCOUNT_SPACE, allocation_plan, create_or_allocate_account_raw,
};
use crate::calls::{CallView, Creator, CreatorView, PlannedCall, PlannedCallView};
use crate::state::{MinterAccount, MinterAccountV2, MinterError};
use crate::token;
use crate::token_metadata;

verus! {

/// The accounts every mint shape touches: the new token's addresses and the
/// program that will own the mint account.
#[derive(Clone, Copy, Debug)]
pub struct BasicMint {
    pub mint: Address,
    pub associated_token_account: Address,
    pub metadata: Address,
    pub master_edition: Address,
    pub token_program: Address,
}

impl BasicMint {
    /// The account set of the mint-initialization call.
    pub fn into_initialize_mint_context(&self) -> (r: token::InitializeMint)
        ensures
            r.mint == self.mint,
    {
        token::InitializeMint { mint: self.mint }
    }

    /// The account set of the associated-account creation, held by `payer`.
    pub fn into_create_associated_token_context(&self, payer: &Address) -> (r:
        token::CreateAssociatedToken)
        ensures
            r.payer == *payer,
            r.associated_token == self.associated_token_account,
            r.authority == *payer,
            r.mint == self.mint,
    {
        token::CreateAssociatedToken {
            payer: *payer,
            associated_token: self.associated_token_account,
            authority: *payer,
            mint: self.mint,
        }
    }

    /// The account set of the mint-to call, authorized by `minter`.
    pub fn into_token_mint_to_context(&self, minter: &Address) -> (r: token::MintTo)
        ensures
            r.mint == self.mint,
            r.to == self.associated_token_account,
            r.authority == *minter,
    {
        token::MintTo { mint: self.mint, to: self.associated_token_account, authority: *minter }
    }

    /// The account set of the metadata creation; the minter identity is both
    /// mint and update authority.
    pub fn into_create_metadata_context(&self, payer: &Address, minter: &Address) -> (r:
        token_metadata::CreateMetadataAccountV2)
        ensures
            r.metadata == self.metadata,
            r.mint == self.mint,
            r.mint_authority == *minter,
            r.payer == *payer,
            r.update_authority == *minter,
    {
        token_metadata::CreateMetadataAccountV2 {
            metadata: self.metadata,
            mint: self.mint,
            mint_authority: *minter,
            payer: *payer,
            update_authority: *minter,
        }
    }

    /// The account set of the master-edition creation.
    pub fn into_create_master_edition_context(&self, payer: &Address, minter: &Address) -> (r:
        token_metadata::CreateMasterEditionV3)
        ensures
            r.edition == self.master_edition,
            r.mint == self.mint,
            r.update_authority == *minter,
            r.mint_authority == *minter,
            r.payer == *payer,
            r.metadata == self.metadata,
    {
        token_metadata::CreateMasterEditionV3 {
            edition: self.master_edition,
            mint: self.mint,
            update_authority: *minter,
            mint_authority: *minter,
            payer: *payer,
            metadata: self.metadata,
        }
    }

    /// The account set of the creator's signature call.
    pub fn into_sign_metadata_context(&self, payer: &Address) -> (r: token_metadata::SignMetadata)
        ensures
            r.metadata == self.metadata,
            r.creator == *payer,
    {
        token_metadata::SignMetadata { metadata: self.metadata, creator: *payer }
    }
}

/// Accounts of a collectionless mint: the paying wallet, the version-1
/// minter record (its address and its stored value), and the new token's
/// account set.
#[derive(Clone, Copy, Debug)]
pub struct MintFor {
    pub payer: Address,
    pub minter_address: Address,
    pub minter: MinterAccount,
    pub basic: BasicMint,
}

/// Accounts of a collection-tagged mint: as `MintFor`, with the version-2
/// record and the collection's own accounts.
#[derive(Clone, Copy, Debug)]
pub struct MintWithCollection {
    pub payer: Address,
    pub minter_address: Address,
    pub minter: MinterAccountV2,
    pub collection_authority_record: Address,
    pub collection_mint: Address,
    pub collection: Address,
    pub collection_master_edition_account: Address,
    pub basic: BasicMint,
}

impl MintWithCollection {
    /// The account set of the final membership verification; the minter
    /// identity acts as the delegated collection authority.
    pub fn into_verify_collection_context(&self) -> (r: token_metadata::VerifyCollection)
        ensures
            r.metadata == self.basic.metadata,
            r.collection_authority == self.minter_address,
            r.payer == self.payer,
            r.collection_mint == self.collection_mint,
            r.collection == self.collection,
            r.collection_master_edition_account == self.collection_master_edition_account,
    {
        token_metadata::VerifyCollection {
            metadata: self.basic.metadata,
            collection_authority: self.minter_address,
            payer: self.payer,
            collection_mint: self.collection_mint,
            collection: self.collection,
            collection_master_edition_account: self.collection_master_edition_account,
        }
    }
}

/// Accounts of a one-shot collection binding: the signing owner, the
/// version-2 record, the collection's mint and metadata, the stored update
/// authority of that metadata, and the delegation record to create.
#[derive(Clone, Copy, Debug)]
pub struct BindingCollection {
    pub authority: Address,
    pub collection_authority_record: Address,
    pub minter_address: Address,
    pub minter: MinterAccountV2,
    pub metadata: Address,
    pub metadata_update_authority: Address,
    pub mint: Address,
}

impl BindingCollection {
    /// The account set of the collection-authority delegation: the minter
    /// identity becomes the delegate, the owner signs and pays.
    pub fn into_approve_collection_authority_context(&self) -> (r:
        token_metadata::ApproveCollectionAuthority)
        ensures
            r.collection_authority_record == self.collection_authority_record,
            r.new_collection_authority == self.minter_address,
            r.update_authority == self.authority,
            r.payer == self.authority,
            r.metadata == self.metadata,
            r.mint == self.mint,
    {
        token_metadata::ApproveCollectionAuthority {
            collection_authority_record: self.collection_authority_record,
            new_collection_authority: self.minter_address,
            update_authority: self.authority,
            payer: self.authority,
            metadata: self.metadata,
            mint: self.mint,
        }
    }
}

/// One mint workflow in flight: the planned boundary calls in order, how
/// many have succeeded, and whether one has failed. No durable state changes
/// until every call has succeeded and the counter is committed.
pub struct MintSession {
    pub calls: Vec<PlannedCall>,
    pub completed: usize,
    pub failed: bool,
}

impl MintSession {
    /// The planned calls, as their mathematical model.
    pub open spec fn plan(self) -> Seq<PlannedCallView> {
        self.calls.deep_view()
    }

    /// Calls remain and none has failed.
    pub open spec fn in_progress(self) -> bool {
        !self.failed && self.completed < self.calls@.len()
    }

    /// Every planned call was submitted and succeeded.
    pub open spec fn committed(self) -> bool {
        !self.failed && self.completed == self.calls@.len()
    }

    /// Some call failed; the workflow must be discarded whole.
    pub open spec fn aborted(self) -> bool {
        self.failed
    }

    /// The next call to submit, if the workflow is still in progress.
    pub fn next_call(&self) -> (r: Option<&PlannedCall>)
        ensures
            match r {
                Some(c) => self.in_progress() && c.deep_view() == self.plan()[
                    self.completed as int
                ],
                None => !self.in_progress(),
            },
    {
        if !self.failed && self.completed < self.calls.len() {
            Some(&self.calls[self.completed])
        } else {
            None
        }
    }

    /// Note that the pending call succeeded.
    pub fn record_success(&mut self)
        ensures
            old(self).in_progress() ==> final(self).completed == old(self).completed + 1,
            !old(self).in_progress() ==> final(self).completed == old(self).completed,
            final(self).calls == old(self).calls,
            final(self).failed == old(self).failed,
    {
        if !self.failed && self.completed < self.calls.len() {
            self.completed += 1;
        }
    }

    /// Note that the pending call failed: the workflow aborts.
    pub fn record_failure(&mut self)
        ensures
            old(self).in_progress() ==> final(self).aborted(),
            !old(self).in_progress() ==> *final(self) == *old(self),
            final(self).calls == old(self).calls,
            final(self).completed == old(self).completed,
    {
        if !self.failed && self.completed < self.calls.len() {
            self.failed = true;
        }
    }
}

/// Outcome of committing a finished workflow against the authoritative
/// version-1 record: only a fully successful session advances the counter,
/// by exactly one, touching nothing else; anything less leaves the record
/// untouched.
pub open spec fn commit_transition(
    pre: MinterAccount,
    post: MinterAccount,
    session: MintSession,
    r: Result<(), MinterError>,
) -> bool {
    if session.committed() {
        &&& r == Result::<(), MinterError>::Ok(())
        &&& post.count == pre.count + 1
        &&& post.owner == pre.owner
    } else {
        &&& r == Result::<(), MinterError>::Err(MinterError::WorkflowIncomplete)
        &&& post == pre
    }
}

/// Outcome of committing against the authoritative version-2 record: as the
/// version-1 commit; the collection reference is never touched.
pub open spec fn commit_v2_transition(
    pre: MinterAccountV2,
    post: MinterAccountV2,
    session: MintSession,
    r: Result<(), MinterError>,
) -> bool {
    if session.committed() {
        &&& r == Result::<(), MinterError>::Ok(())
        &&& post.count == pre.count + 1
        &&& post.owner == pre.owner
        &&& post.collection == pre.collection
    } else {
        &&& r == Result::<(), MinterError>::Err(MinterError::WorkflowIncomplete)
        &&& post == pre
    }
}

impl MintSession {
    /// Advance the version-1 counter after full success. `minter` is the
    /// authoritative stored record, reloaded after the external calls, not a
    /// stale in-memory copy.
    pub fn commit(&self, minter: &mut MinterAccount) -> (r: Result<(), MinterError>)
        requires
            self.committed() ==> old(minter).count < u32::MAX,
        ensures
            commit_transition(*old(minter), *final(minter), *self, r),
    {
        if !self.failed && self.completed == self.calls.len() {
            minter.count = minter.count + 1;
            Ok(())
        } else {
            Err(MinterError::WorkflowIncomplete)
        }
    }

    /// Advance the version-2 counter after full success.
    pub fn commit_v2(&self, minter: &mut MinterAccountV2) -> (r: Result<(), MinterError>)
        requires
            self.committed() ==> old(minter).count < u32::MAX,
        ensures
            commit_v2_transition(*old(minter), *final(minter), *self, r),
    {
        if !self.failed && self.completed == self.calls.len() {
            minter.count = minter.count + 1;
            Ok(())
        } else {
            Err(MinterError::WorkflowIncomplete)
        }
    }
}

/// The two declared creators of every minted token: the paying wallet with
/// an unverified 98-percent share, and the minter identity with a verified
/// 2-percent share.
pub open spec fn creators_view(payer: Seq<u8>, minter_addr: Seq<u8>) -> Seq<CreatorView> {
    seq![
        CreatorView { address: payer, verified: false, share: 98 },
        CreatorView { address: minter_addr, verified: true, share: 2 },
    ]
}

/// The six calls every mint shape runs after allocation: initialize the
/// mint with no decimals, create the payer's holding account, mint exactly
/// one unit, attach metadata, cap the edition supply at zero, and have the
/// payer sign as creator.
pub open spec fn basic_mint_tail(
    basic: BasicMint,
    payer: Seq<u8>,
    minter_addr: Seq<u8>,
    name: Seq<char>,
    symbol: Seq<char>,
    uri: Seq<char>,
    seller_fee_basis_points: u16,
    is_mutable: bool,
    collection: Option<Seq<u8>>,
    minter_signer: Seq<Seq<u8>>,
) -> Seq<PlannedCallView> {
    seq![
        PlannedCallView {
            call: CallView::InitializeMint {
                mint: basic.mint@,
                decimals: 0,
                mint_authority: minter_addr,
                freeze_authority: None,
            },
            signer: None,
        },
        PlannedCallView {
            call: CallView::CreateAssociatedAccount {
                payer,
                associated_token: basic.associated_token_account@,
                wallet: payer,
                mint: basic.mint@,
            },
            signer: None,
        },
        PlannedCallView {
            call: CallView::MintTo {
                mint: basic.mint@,
                to: basic.associated_token_account@,
                authority: minter_addr,
                amount: 1,
            },
            signer: Some(minter_signer),
        },
        PlannedCallView {
            call: CallView::CreateMetadata {
                metadata: basic.metadata@,
                mint: basic.mint@,
                mint_authority: minter_addr,
                payer,
                update_authority: minter_addr,
                name,
                symbol,
                uri,
                creators: Some(creators_view(payer, minter_addr)),
                seller_fee_basis_points,
                update_authority_is_signer: true,
                is_mutable,
                collection,
                uses: None,
            },
            signer: Some(minter_signer),
        },
        PlannedCallView {
            call: CallView::CreateMasterEdition {
                edition: basic.master_edition@,
                mint: basic.mint@,
                update_authority: minter_addr,
                mint_authority: minter_addr,
                metadata: basic.metadata@,
                payer,
                max_supply: Some(0),
            },
            signer: Some(minter_signer),
        },
        PlannedCallView {
            call: CallView::SignMetadata { metadata: basic.metadata@, creator: payer },
            signer: None,
        },
    ]
}

/// The full plan of a collectionless mint for the record's current counter.
pub open spec fn mint_for_plan(
    program_id: Seq<u8>,
    acc: MintFor,
    funding: AccountFunding,
    name: Seq<char>,
    symbol: Seq<char>,
    uri: Seq<char>,
    seller_fee_basis_points: u16,
    is_mutable: bool,
) -> Seq<PlannedCallView> {
    let count = acc.minter.count;
    let mint_signer = mint_signer_view(count, pda_bump(mint_seeds_view(count), program_id));
    let minter_signer = minter_signer_view(
        acc.minter.owner@,
        pda_bump(minter_seeds_view(acc.minter.owner@), program_id),
    );
    allocation_plan(
        acc.payer@,
        acc.basic.mint@,
        acc.basic.token_program@,
        MINT_ACCOUNT_SPACE,
        funding.current_lamports,
        funding.rent_minimum_balance,
        mint_signer,
    ) + basic_mint_tail(
        acc.basic,
        acc.payer@,
        acc.minter_address@,
        name,
        symbol,
        uri,
        seller_fee_basis_points,
        is_mutable,
        None,
        minter_signer,
    )
}

/// The full plan of a collection-tagged mint: the version-2 seed families,
/// the bound collection passed unverified into the metadata, and a final
/// membership verification through the delegation record.
pub open spec fn mint_with_collection_plan(
    program_id: Seq<u8>,
    acc: MintWithCollection,
    funding: AccountFunding,
    name: Seq<char>,
    symbol: Seq<char>,
    uri: Seq<char>,
    seller_fee_basis_points: u16,
    is_mutable: bool,
) -> Seq<PlannedCallView> {
    let count = acc.minter.count;
    let mint_signer = mint_v2_signer_view(count, pda_bump(mint_v2_seeds_view(count), program_id));
    let minter_signer = minter_v2_signer_view(
        acc.minter.owner@,
        pda_bump(minter_v2_seeds_view(acc.minter.owner@), program_id),
    );
    allocation_plan(
        acc.payer@,
        acc.basic.mint@,
        acc.basic.token_program@,
        MINT_ACCOUNT_SPACE,
        funding.current_lamports,
        funding.rent_minimum_balance,
        mint_signer,
    ) + basic_mint_tail(
        acc.basic,
        acc.payer@,
        acc.minter_address@,
        name,
        symbol,
        uri,
        seller_fee_basis_points,
        is_mutable,
        acc.minter.collection.deep_view(),
        minter_signer,
    ) + seq![
        PlannedCallView {
            call: CallView::VerifyCollection {
                metadata: acc.basic.metadata@,
                collection_authority: acc.minter_address@,
                payer: acc.payer@,
                collection_mint: acc.collection_mint@,
                collection: acc.collection@,
                collection_master_edition: acc.collection_master_edition_account@,
                collection_authority_record: Some(acc.collection_authority_record@),
            },
            signer: Some(minter_signer),
        },
    ]
}

/// Outcome of planning a collectionless mint: derivation must succeed for
/// both seed families, the caller-supplied mint address must equal the
/// derived one, and then — and only then — the full plan is handed back as a
/// fresh session.
pub open spec fn mint_for_outcome(
    program_id: Seq<u8>,
    acc: MintFor,
    funding: AccountFunding,
    name: Seq<char>,
    symbol: Seq<char>,
    uri: Seq<char>,
    seller_fee_basis_points: u16,
    is_mutable: bool,
    r: Result<MintSession, MinterError>,
) -> bool {
    let minter_pda = pda_of(minter_seeds_view(acc.minter.owner@), program_id);
    let mint_pda = pda_of(mint_seeds_view(acc.minter.count), program_id);
    if minter_pda is None || mint_pda is None {
        r matches Err(e) && e == MinterError::DerivationExhausted
    } else if acc.basic.mint@ != mint_pda->Some_0.0 {
        r matches Err(e) && e == MinterError::InvalidMintAddress
    } else {
        &&& r is Ok
        &&& r->Ok_0.plan() == mint_for_plan(
            program_id,
            acc,
            funding,
            name,
            symbol,
            uri,
            seller_fee_basis_points,
            is_mutable,
        )
        &&& r->Ok_0.completed == 0
        &&& r->Ok_0.failed == false
    }
}

/// Outcome of planning a collection-tagged mint: additionally, the record
/// must already be bound to a collection.
pub open spec fn mint_with_collection_outcome(
    program_id: Seq<u8>,
    acc: MintWithCollection,
    funding: AccountFunding,
    name: Seq<char>,
    symbol: Seq<char>,
    uri: Seq<char>,
    seller_fee_basis_points: u16,
    is_mutable: bool,
    r: Result<MintSession, MinterError>,
) -> bool {
    let minter_pda = pda_of(minter_v2_seeds_view(acc.minter.owner@), program_id);
    let mint_pda = pda_of(mint_v2_seeds_view(acc.minter.count), program_id);
    if acc.minter.collection is None {
        r matches Err(e) && e == MinterError::CollectionNotBound
    } else if minter_pda is None || mint_pda is None {
        r matches Err(e) && e == MinterError::DerivationExhausted
    } else if acc.basic.mint@ != mint_pda->Some_0.0 {
        r matches Err(e) && e == MinterError::InvalidMintAddress
    } else {
        &&& r is Ok
        &&& r->Ok_0.plan() == mint_with_collection_plan(
            program_id,
            acc,
            funding,
            name,
            symbol,
            uri,
            seller_fee_basis_points,
            is_mutable,
        )
        &&& r->Ok_0.completed == 0
        &&& r->Ok_0.failed == false
    }
}

/// Plan a collectionless mint: derive the record's signing identity, check
/// the caller-supplied mint address against the derived one before any
/// mutation, and lay out allocation plus the six fixed calls.
pub fn mint_for(
    program_id: &Address,
    accounts: &MintFor,
    funding: &AccountFunding,
    name: String,
    symbol: String,
    uri: String,
    seller_fee_basis_points: u16,
    is_mutable: bool,
) -> (r: Result<MintSession, MinterError>)
    ensures
        mint_for_outcome(
            program_id@,
            *accounts,
            *funding,
            name@,
            symbol@,
            uri@,
            seller_fee_basis_points,
            is_mutable,
            r,
        ),
{
    let minter_proof = match minter_authority(program_id, &accounts.minter.owner) {
        Ok(p) => p,
        Err(e) => {
            return Err(e);
        },
    };
    let (mint_addr, mint_bump) = match derive_mint_address(program_id, accounts.minter.count) {
        Ok(p) => p,
        Err(e) => {
            return Err(e);
        },
    };
    if !(accounts.basic.mint == mint_addr) {
        return Err(MinterError::InvalidMintAddress);
    }
    let mint_proof = mint_authority(accounts.minter.count, mint_bump);

    let mut calls = allocate_mint_for(accounts, funding, &mint_proof);

    let ghost s0 = calls;
    calls.push(
        token::initialize_mint(
            &accounts.basic.into_initialize_mint_context(),
            0,
            &accounts.minter_address,
            None,
            None,
        ),
    );
    proof {
        lemma_deep_view_push(s0, calls);
    }
    let ghost s1 = calls;
    calls.push(
        token::create(
            &accounts.basic.into_create_associated_token_context(&accounts.payer),
            None,
        ),
    );
    proof {
        lemma_deep_view_push(s1, calls);
    }
    let ghost s2 = calls;
    calls.push(
        token::mint_to(
            &accounts.basic.into_token_mint_to_context(&accounts.minter_address),
            1,
            Some(minter_proof.clone()),
        ),
    );
    proof {
        lemma_deep_view_push(s2, calls);
    }

    let mut creators: Vec<Creator> = Vec::new();
    creators.push(Creator { address: accounts.payer, verified: false, share: 98 });
    creators.push(Creator { address: accounts.minter_address, verified: true, share: 2 });
    proof {
        assert(creators.deep_view() =~= creators_view(accounts.payer@, accounts.minter_address@));
    }

    let ghost s3 = calls;
    calls.push(
        token_metadata::create_metadata_account_v2(
            &accounts.basic.into_create_metadata_context(
                &accounts.payer,
                &accounts.minter_address,
            ),
            name,
            symbol,
            uri,
            Some(creators),
            seller_fee_basis_points,
            true,
            is_mutable,
            None,
            None,
            Some(minter_proof.clone()),
        ),
    );
    proof {
        lemma_deep_view_push(s3, calls);
    }
    let ghost s4 = calls;
    calls.push(
        token_metadata::create_master_edition_v3(
            &accounts.basic.into_create_master_edition_context(
                &accounts.payer,
                &accounts.minter_address,
            ),
            Some(0),
            Some(minter_proof.clone()),
        ),
    );
    proof {
        lemma_deep_view_push(s4, calls);
    }
    let ghost s5 = calls;
    calls.push(
        token_metadata::sign_metadata(
            &accounts.basic.into_sign_metadata_context(&accounts.payer),
            None,
        ),
    );
    proof {
        lemma_deep_view_push(s5, calls);
        assert(calls.deep_view() =~~= mint_for_plan(
            program_id@,
            *accounts,
            *funding,
            name@,
            symbol@,
            uri@,
            seller_fee_basis_points,
            is_mutable,
        ));
    }

    Ok(MintSession { calls, completed: 0, failed: false })
}

/// Plan a collection-tagged mint: as the collectionless shape, under the
/// version-2 seed families, but only for a record already bound to a
/// collection, whose membership the final call verifies.
pub fn mint_with_collection(
    program_id: &Address,
    accounts: &MintWithCollection,
    funding: &AccountFunding,
    name: String,
    symbol: String,
    uri: String,
    seller_fee_basis_points: u16,
    is_mutable: bool,
) -> (r: Result<MintSession, MinterError>)
    ensures
        mint_with_collection_outcome(
            program_id@,
            *accounts,
            *funding,
            name@,
            symbol@,
            uri@,
            seller_fee_basis_points,
            is_mutable,
            r,
        ),
{
    let collection_mint = match accounts.minter.collection {
        Some(c) => c,
        None => {
            return Err(MinterError::CollectionNotBound);
        },
    };
    let minter_proof = match minter_v2_authority(program_id, &accounts.minter.owner) {
        Ok(p) => p,
        Err(e) => {
            return Err(e);
        },
    };
    let (mint_addr, mint_bump) = match derive_mint_v2_address(program_id, accounts.minter.count) {
        Ok(p) => p,
        Err(e) => {
            return Err(e);
        },
    };
    if !(accounts.basic.mint == mint_addr) {
        return Err(MinterError::InvalidMintAddress);
    }
    let mint_proof = mint_v2_authority(accounts.minter.count, mint_bump);

    let mut calls = allocate_mint_with_collection(accounts, funding, &mint_proof);

    let ghost s0 = calls;
    calls.push(
        token::initialize_mint(
            &accounts.basic.into_initialize_mint_context(),
            0,
            &accounts.minter_address,
            None,
            None,
        ),
    );
    proof {
        lemma_deep_view_push(s0, calls);
    }
    let ghost s1 = calls;
    calls.push(
        token::create(
            &accounts.basic.into_create_associated_token_context(&accounts.payer),
            None,
        ),
    );
    proof {
        lemma_deep_view_push(s1, calls);
    }
    let ghost s2 = calls;
    calls.push(
        token::mint_to(
            &accounts.basic.into_token_mint_to_context(&accounts.minter_address),
            1,
            Some(minter_proof.clone()),
        ),
    );
    proof {
        lemma_deep_view_push(s2, calls);
    }

    let mut creators: Vec<Creator> = Vec::new();
    creators.push(Creator { address: accounts.payer, verified: false, share: 98 });
    creators.push(Creator { address: accounts.minter_address, verified: true, share: 2 });
    proof {
        assert(creators.deep_view() =~= creators_view(accounts.payer@, accounts.minter_address@));
    }

    let ghost s3 = calls;
    calls.push(
        token_metadata::create_metadata_account_v2(
            &accounts.basic.into_create_metadata_context(
                &accounts.payer,
                &accounts.minter_address,
            ),
            name,
            symbol,
            uri,
            Some(creators),
            seller_fee_basis_points,
            true,
            is_mutable,
            Some(collection_mint),
            None,
            Some(minter_proof.clone()),
        ),
    );
    proof {
        lemma_deep_view_push(s3, calls);
    }
    let ghost s4 = calls;
    calls.push(
        token_metadata::create_master_edition_v3(
            &accounts.basic.into_create_master_edition_context(
                &accounts.payer,
                &accounts.minter_address,
            ),
            Some(0),
            Some(minter_proof.clone()),
        ),
    );
    proof {
        lemma_deep_view_push(s4, calls);
    }
    let ghost s5 = calls;
    calls.push(
        token_metadata::sign_metadata(
            &accounts.basic.into_sign_metadata_context(&accounts.payer),
            None,
        ),
    );
    proof {
        lemma_deep_view_push(s5, calls);
    }
    let ghost s6 = calls;
    calls.push(
        token_metadata::verify_collection(
            &accounts.into_verify_collection_context(),
            Some(accounts.collection_authority_record),
            Some(minter_proof.clone()),
        ),
    );
    proof {
        lemma_deep_view_push(s6, calls);
        assert(calls.deep_view() =~~= mint_with_collection_plan(
            program_id@,
            *accounts,
            *funding,
            name@,
            symbol@,
            uri@,
            seller_fee_basis_points,
            is_mutable,
        ));
    }

    Ok(MintSession { calls, completed: 0, failed: false })
}

/// Plan the allocation of the new collectionless mint account: exactly the
/// idempotent creation of `accounts.basic.mint`, sized for a mint account,
/// owned by the token program and funded by the payer.
pub fn allocate_mint_for(accounts: &MintFor, funding: &AccountFunding, signer: &SignerProof) -> (r:
    Vec<PlannedCall>)
    ensures
        r.deep_view() == allocation_plan(
            accounts.payer@,
            accounts.basic.mint@,
            accounts.basic.token_program@,
            MINT_ACCOUNT_SPACE,
            funding.current_lamports,
            funding.rent_minimum_balance,
            signer@,
        ),
{
    create_or_allocate_account_raw(
        &accounts.basic.token_program,
        &accounts.basic.mint,
        &accounts.payer,
        funding,
        MINT_ACCOUNT_SPACE,
        signer,
    )
}

/// Plan the allocation of the new collection-tagged mint account.
pub fn allocate_mint_with_collection(
    accounts: &MintWithCollection,
    funding: &AccountFunding,
    signer: &SignerProof,
) -> (r: Vec<PlannedCall>)
    ensures
        r.deep_view() == allocation_plan(
            accounts.payer@,
            accounts.basic.mint@,
            accounts.basic.token_program@,
            MINT_ACCOUNT_SPACE,
            funding.current_lamports,
            funding.rent_minimum_balance,
            signer@,
        ),
{
    create_or_allocate_account_raw(
        &accounts.basic.token_program,
        &accounts.basic.mint,
        &accounts.payer,
        funding,
        MINT_ACCOUNT_SPACE,
        signer,
    )
}

/// Outcome of planning a collection binding: only the record's owner, with
/// the collection metadata's real update authority, may bind, and only while
/// no collection is bound yet; the single resulting call delegates
/// collection authority to the minter identity under its version-2 proof.
pub open spec fn binding_collection_outcome(
    program_id: Seq<u8>,
    acc: BindingCollection,
    r: Result<PlannedCall, MinterError>,
) -> bool {
    if acc.minter.owner@ != acc.authority@ {
        r matches Err(e) && e == MinterError::MismatchedMinterOwner
    } else if acc.metadata_update_authority@ != acc.authority@ {
        r matches Err(e) && e == MinterError::MismatchedUpdateAuthority
    } else if acc.minter.collection is Some {
        r matches Err(e) && e == MinterError::AlreadyBound
    } else if pda_of(minter_v2_seeds_view(acc.minter.owner@), program_id) is None {
        r matches Err(e) && e == MinterError::DerivationExhausted
    } else {
        &&& r is Ok
        &&& r->Ok_0.deep_view().call == (CallView::ApproveCollectionAuthority {
            collection_authority_record: acc.collection_authority_record@,
            new_collection_authority: acc.minter_address@,
            update_authority: acc.authority@,
            payer: acc.authority@,
            metadata: acc.metadata@,
            mint: acc.mint@,
        })
        &&& r->Ok_0.deep_view().signer == Some(
            minter_v2_signer_view(
                acc.minter.owner@,
                pda_bump(minter_v2_seeds_view(acc.minter.owner@), program_id),
            ),
        )
    }
}

/// Plan the one-shot collection binding: validate the caller and the
/// record's unbound state, then delegate collection authority to the minter
/// identity. The record is bound only after the call succeeds, by
/// `complete_binding`.
pub fn binding_collection(program_id: &Address, accounts: &BindingCollection) -> (r: Result<
    PlannedCall,
    MinterError,
>)
    ensures
        binding_collection_outcome(program_id@, *accounts, r),
{
    if !(accounts.minter.owner == accounts.authority) {
        return Err(MinterError::MismatchedMinterOwner);
    }
    if !(accounts.metadata_update_authority == accounts.authority) {
        return Err(MinterError::MismatchedUpdateAuthority);
    }
    match accounts.minter.collection {
        Some(_) => {
            return Err(MinterError::AlreadyBound);
        },
        None => {},
    }
    let minter_proof = match minter_v2_authority(program_id, &accounts.minter.owner) {
        Ok(p) => p,
        Err(e) => {
            return Err(e);
        },
    };
    Ok(
        token_metadata::approve_collection_authority(
            &accounts.into_approve_collection_authority_context(),
            Some(minter_proof),
        ),
    )
}

/// Outcome of recording a successful binding on the authoritative record:
/// an unbound record becomes bound to exactly the collection mint that was
/// the subject of the delegation, owner and counter untouched; a bound
/// record is never overwritten.
pub open spec fn complete_binding_transition(
    pre: MinterAccountV2,
    post: MinterAccountV2,
    collection_mint: Address,
    r: Result<(), MinterError>,
) -> bool {
    if pre.collection is None {
        &&& r == Result::<(), MinterError>::Ok(())
        &&& post == (MinterAccountV2 {
            owner: pre.owner,
            count: pre.count,
            collection: Some(collection_mint),
        })
    } else {
        &&& r == Result::<(), MinterError>::Err(MinterError::AlreadyBound)
        &&& post == pre
    }
}

/// Record a successful collection binding: set the record's collection
/// reference, once and forever.
pub fn complete_binding(minter: &mut MinterAccountV2, collection_mint: &Address) -> (r: Result<
    (),
    MinterError,
>)
    ensures
        complete_binding_transition(*old(minter), *final(minter), *collection_mint, r),
{
    match minter.collection {
        Some(_) => Err(MinterError::AlreadyBound),
        None => {
            minter.collection = Some(*collection_mint);
            Ok(())
        },
    }
}

} // verus!
