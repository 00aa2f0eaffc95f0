//! Laws of the engine: what holds across several operations, proved from
//! the transition and outcome predicates that the operations' own contracts
//! establish.

use vstd::prelude::*;
use crate::addr::{Address, mint_seeds_view, minter_seeds_view, pda_addr, pda_of};
use crate::allocator::AccountFunding;
use crate::calls::CallView;
use crate::orchestrator::{
    BindingCollection, MintFor, MintSession, MintWithCollection, binding_collection_outcome,
    commit_transition, commit_v2_transition, complete_binding_transition, mint_for_outcome,
    mint_with_collection_outcome,
};
use crate::state::{
    MinterAccount, MinterAccountV2, MinterError, MinterRegistry, init_minter_transition,
    init_minter_v2_transition,
};

verus! {

/// Initializing a version-1 minter record twice for the same owner fails
/// the second time with the already-exists condition and leaves the
/// registry exactly as the first initialization left it.
pub proof fn law_initialize_minter_once(
    r0: MinterRegistry,
    r1: MinterRegistry,
    r2: MinterRegistry,
    authority: Address,
    res1: Result<(), MinterError>,
    res2: Result<(), MinterError>,
)
    requires
        init_minter_transition(r0, r1, authority, res1),
        res1 is Ok,
        init_minter_transition(r1, r2, authority, res2),
    ensures
        res2 == Result::<(), MinterError>::Err(MinterError::AlreadyInitialized),
        r2.records == r1.records,
        r2.records_v2 == r1.records_v2,
{
    assert(r1.records@[r0.records@.len() as int].owner@ == authority@);
}

/// The same one-shot guard for version-2 records.
pub proof fn law_initialize_minter_v2_once(
    r0: MinterRegistry,
    r1: MinterRegistry,
    r2: MinterRegistry,
    authority: Address,
    res1: Result<(), MinterError>,
    res2: Result<(), MinterError>,
)
    requires
        init_minter_v2_transition(r0, r1, authority, res1),
        res1 is Ok,
        init_minter_v2_transition(r1, r2, authority, res2),
    ensures
        res2 == Result::<(), MinterError>::Err(MinterError::AlreadyInitialized),
        r2.records == r1.records,
        r2.records_v2 == r1.records_v2,
{
    assert(r1.records_v2@[r0.records_v2@.len() as int].owner@ == authority@);
}

/// A mint that was planned successfully with counter value `n` targets
/// exactly the address derived from the "mint" family at `n`, and
/// committing its fully successful session advances the authoritative
/// counter from `n` to exactly `n + 1`.
pub proof fn law_mint_for_address_and_count(
    program_id: Seq<u8>,
    acc: MintFor,
    funding: AccountFunding,
    name: Seq<char>,
    symbol: Seq<char>,
    uri: Seq<char>,
    seller_fee_basis_points: u16,
    is_mutable: bool,
    r: Result<MintSession, MinterError>,
    session: MintSession,
    pre: MinterAccount,
    post: MinterAccount,
    cres: Result<(), MinterError>,
)
    requires
        mint_for_outcome(
            program_id,
            acc,
            funding,
            name,
            symbol,
            uri,
            seller_fee_basis_points,
            is_mutable,
            r,
        ),
        r is Ok,
        session.committed(),
        commit_transition(pre, post, session, cres),
        pre.count == acc.minter.count,
    ensures
        acc.basic.mint@ == pda_addr(mint_seeds_view(acc.minter.count), program_id),
        cres is Ok,
        post.count == acc.minter.count + 1,
        post.owner == pre.owner,
{
}

/// Supplying a target mint address other than the derived one is rejected
/// with the invalid-mint-address condition; and a session that is not fully
/// successful can never advance any record: planning mutates nothing, and
/// the commit refuses it untouched.
pub proof fn law_wrong_mint_address_rejected(
    program_id: Seq<u8>,
    acc: MintFor,
    funding: AccountFunding,
    name: Seq<char>,
    symbol: Seq<char>,
    uri: Seq<char>,
    seller_fee_basis_points: u16,
    is_mutable: bool,
    r: Result<MintSession, MinterError>,
)
    requires
        mint_for_outcome(
            program_id,
            acc,
            funding,
            name,
            symbol,
            uri,
            seller_fee_basis_points,
            is_mutable,
            r,
        ),
        pda_of(minter_seeds_view(acc.minter.owner@), program_id) is Some,
        pda_of(mint_seeds_view(acc.minter.count), program_id) is Some,
        acc.basic.mint@ != pda_addr(mint_seeds_view(acc.minter.count), program_id),
    ensures
        r matches Err(e) && e == MinterError::InvalidMintAddress,
{
}

/// A binding attempted by anyone but the record's owner is rejected with
/// the mismatched-owner condition; no delegation call is planned, so the
/// record's collection reference stays unset.
pub proof fn law_binding_requires_owner(
    program_id: Seq<u8>,
    acc: BindingCollection,
    r: Result<crate::calls::PlannedCall, MinterError>,
)
    requires
        binding_collection_outcome(program_id, acc, r),
        acc.minter.owner@ != acc.authority@,
    ensures
        r matches Err(e) && e == MinterError::MismatchedMinterOwner,
{
}

/// Once a record is bound to a collection, every successfully planned
/// collection-tagged mint carries exactly that collection, unverified, in
/// its metadata-creation call — the one the final verification then proves.
/// Committed mints advance only the counter, so the premise on owner and
/// collection holds of every later state of the record as well.
pub proof fn law_bound_collection_tags_every_mint(
    m0: MinterAccountV2,
    m1: MinterAccountV2,
    collection_mint: Address,
    bres: Result<(), MinterError>,
    program_id: Seq<u8>,
    acc: MintWithCollection,
    funding: AccountFunding,
    name: Seq<char>,
    symbol: Seq<char>,
    uri: Seq<char>,
    seller_fee_basis_points: u16,
    is_mutable: bool,
    r: Result<MintSession, MinterError>,
)
    requires
        complete_binding_transition(m0, m1, collection_mint, bres),
        bres is Ok,
        acc.minter.owner == m1.owner,
        acc.minter.collection == m1.collection,
        mint_with_collection_outcome(
            program_id,
            acc,
            funding,
            name,
            symbol,
            uri,
            seller_fee_basis_points,
            is_mutable,
            r,
        ),
        r is Ok,
    ensures
        r->Ok_0.plan()[r->Ok_0.plan().len() - 4].call matches CallView::CreateMetadata {
            collection,
            ..
        } && collection == Some(collection_mint@),
{
}

/// A minted token is unique and final: the only mint-to call of a
/// successfully planned workflow mints exactly one unit, and its master
/// edition is created with a maximum supply of zero, so no further edition
/// can ever be printed.
pub proof fn law_minted_token_is_unique_and_final(
    program_id: Seq<u8>,
    acc: MintFor,
    funding: AccountFunding,
    name: Seq<char>,
    symbol: Seq<char>,
    uri: Seq<char>,
    seller_fee_basis_points: u16,
    is_mutable: bool,
    r: Result<MintSession, MinterError>,
)
    requires
        mint_for_outcome(
            program_id,
            acc,
            funding,
            name,
            symbol,
            uri,
            seller_fee_basis_points,
            is_mutable,
            r,
        ),
        r is Ok,
    ensures
        r->Ok_0.plan()[r->Ok_0.plan().len() - 4].call matches CallView::MintTo { amount, .. }
            && amount == 1,
        r->Ok_0.plan()[r->Ok_0.plan().len() - 2].call matches CallView::CreateMasterEdition {
            max_supply,
            ..
        } && max_supply == Some(0u64),
{
}

/// The same uniqueness and finality for collection-tagged mints, whose plan
/// ends with the membership verification.
pub proof fn law_minted_token_is_unique_and_final_v2(
    program_id: Seq<u8>,
    acc: MintWithCollection,
    funding: AccountFunding,
    name: Seq<char>,
    symbol: Seq<char>,
    uri: Seq<char>,
    seller_fee_basis_points: u16,
    is_mutable: bool,
    r: Result<MintSession, MinterError>,
)
    requires
        mint_with_collection_outcome(
            program_id,
            acc,
            funding,
            name,
            symbol,
            uri,
            seller_fee_basis_points,
            is_mutable,
            r,
        ),
        r is Ok,
    ensures
        r->Ok_0.plan()[r->Ok_0.plan().len() - 5].call matches CallView::MintTo { amount, .. }
            && amount == 1,
        r->Ok_0.plan()[r->Ok_0.plan().len() - 3].call matches CallView::CreateMasterEdition {
            max_supply,
            ..
        } && max_supply == Some(0u64),
{
}

/// A failure at any pending call aborts the workflow, and an aborted
/// workflow commits nothing: the authoritative record — its counter above
/// all — is refused untouched.
pub proof fn law_aborted_mint_commits_nothing(
    pre: MinterAccount,
    post: MinterAccount,
    session: MintSession,
    r: Result<(), MinterError>,
)
    requires
        session.aborted(),
        commit_transition(pre, post, session, r),
    ensures
        r == Result::<(), MinterError>::Err(MinterError::WorkflowIncomplete),
        post == pre,
{
}

/// The same abort guarantee for version-2 records, whose collection
/// reference is also untouched.
pub proof fn law_aborted_mint_commits_nothing_v2(
    pre: MinterAccountV2,
    post: MinterAccountV2,
    session: MintSession,
    r: Result<(), MinterError>,
)
    requires
        session.aborted(),
        commit_v2_transition(pre, post, session, r),
    ensures
        r == Result::<(), MinterError>::Err(MinterError::WorkflowIncomplete),
        post == pre,
{
}

} // verus!
