//! Binding layer to the external metadata program: the account sets each of
//! its operations names, and builders that turn them into boundary calls.

use vstd::prelude::*;
use crate::addr::{Address, SignerProof};
use crate::calls::{CallView, Creator, ExternalCall, MetadataData, PlannedCall, Uses};

verus! {

/// The metadata program's own identity.
pub open spec fn metadata_program_id_view() -> Seq<u8> {
    seq![
        11u8, 112u8, 101u8, 177u8, 227u8, 209u8, 124u8, 69u8, 56u8, 157u8, 82u8, 127u8, 107u8,
        4u8, 195u8, 205u8, 88u8, 184u8, 108u8, 115u8, 26u8, 160u8, 253u8, 181u8, 73u8, 182u8,
        209u8, 188u8, 3u8, 248u8, 41u8, 70u8,
    ]
}

/// Marker for the metadata program as a collaborator.
#[derive(Clone, Copy, Debug)]
pub struct TokenMetadata;

impl TokenMetadata {
    /// The address the metadata program is deployed under.
    pub fn id() -> (r: Address)
        ensures
            r@ == metadata_program_id_view(),
    {
        let bytes: [u8; 32] = [
            11u8, 112u8, 101u8, 177u8, 227u8, 209u8, 124u8, 69u8, 56u8, 157u8, 82u8, 127u8,
            107u8, 4u8, 195u8, 205u8, 88u8, 184u8, 108u8, 115u8, 26u8, 160u8, 253u8, 181u8,
            73u8, 182u8, 209u8, 188u8, 3u8, 248u8, 41u8, 70u8,
        ];
        let r = Address { bytes };
        proof {
            assert(r@ =~= metadata_program_id_view());
        }
        r
    }
}

/// Accounts named by a metadata-creation call.
#[derive(Clone, Copy, Debug)]
pub struct CreateMetadataAccountV2 {
    pub metadata: Address,
    pub mint: Address,
    pub mint_authority: Address,
    pub payer: Address,
    pub update_authority: Address,
}

/// Accounts named by a master-edition-creation call.
#[derive(Clone, Copy, Debug)]
pub struct CreateMasterEditionV3 {
    pub edition: Address,
    pub mint: Address,
    pub update_authority: Address,
    pub mint_authority: Address,
    pub payer: Address,
    pub metadata: Address,
}

/// Accounts named by a metadata update.
#[derive(Clone, Copy, Debug)]
pub struct UpdateMetadataAccountsV2 {
    pub metadata: Address,
    pub update_authority: Address,
}

/// Accounts named by a primary-sale marker update.
#[derive(Clone, Copy, Debug)]
pub struct UpdatePrimarySaleHappenedViaToken {
    pub metadata: Address,
    pub owner: Address,
    pub token: Address,
}

/// Accounts named by a creator's signature on a metadata record.
#[derive(Clone, Copy, Debug)]
pub struct SignMetadata {
    pub metadata: Address,
    pub creator: Address,
}

/// Accounts named by a collection-membership verification.
#[derive(Clone, Copy, Debug)]
pub struct VerifyCollection {
    pub metadata: Address,
    pub collection_authority: Address,
    pub payer: Address,
    pub collection_mint: Address,
    pub collection: Address,
    pub collection_master_edition_account: Address,
}

/// Accounts named by a collection-authority delegation.
#[derive(Clone, Copy, Debug)]
pub struct ApproveCollectionAuthority {
    pub collection_authority_record: Address,
    pub new_collection_authority: Address,
    pub update_authority: Address,
    pub payer: Address,
    pub metadata: Address,
    pub mint: Address,
}

/// Request creation of the metadata record of `accounts.mint`.
pub fn create_metadata_account_v2(
    accounts: &CreateMetadataAccountV2,
    name: String,
    symbol: String,
    uri: String,
    creators: Option<Vec<Creator>>,
    seller_fee_basis_points: u16,
    update_authority_is_signer: bool,
    is_mutable: bool,
    collection: Option<Address>,
    uses: Option<Uses>,
    signer: Option<SignerProof>,
) -> (r: PlannedCall)
    ensures
        r.deep_view().call == (CallView::CreateMetadata {
            metadata: accounts.metadata@,
            mint: accounts.mint@,
            mint_authority: accounts.mint_authority@,
            payer: accounts.payer@,
            update_authority: accounts.update_authority@,
            name: name@,
            symbol: symbol@,
            uri: uri@,
            creators: creators.deep_view(),
            seller_fee_basis_points,
            update_authority_is_signer,
            is_mutable,
            collection: collection.deep_view(),
            uses,
        }),
        r.deep_view().signer == signer.deep_view(),
{
    PlannedCall {
        call: ExternalCall::CreateMetadata {
            metadata: accounts.metadata,
            mint: accounts.mint,
            mint_authority: accounts.mint_authority,
            payer: accounts.payer,
            update_authority: accounts.update_authority,
            name,
            symbol,
            uri,
            creators,
            seller_fee_basis_points,
            update_authority_is_signer,
            is_mutable,
            collection,
            uses,
        },
        signer,
    }
}

/// Request creation of the master edition of `accounts.mint`; `max_supply`
/// caps how many further editions may ever be printed.
pub fn create_master_edition_v3(
    accounts: &CreateMasterEditionV3,
    max_supply: Option<u64>,
    signer: Option<SignerProof>,
) -> (r: PlannedCall)
    ensures
        r.deep_view().call == (CallView::CreateMasterEdition {
            edition: accounts.edition@,
            mint: accounts.mint@,
            update_authority: accounts.update_authority@,
            mint_authority: accounts.mint_authority@,
            metadata: accounts.metadata@,
            payer: accounts.payer@,
            max_supply,
        }),
        r.deep_view().signer == signer.deep_view(),
{
    PlannedCall {
        call: ExternalCall::CreateMasterEdition {
            edition: accounts.edition,
            mint: accounts.mint,
            update_authority: accounts.update_authority,
            mint_authority: accounts.mint_authority,
            metadata: accounts.metadata,
            payer: accounts.payer,
            max_supply,
        },
        signer,
    }
}

/// Request a partial update of a metadata record.
pub fn update_metadata_accounts_v2(
    accounts: &UpdateMetadataAccountsV2,
    new_update_authority: Option<Address>,
    data: Option<MetadataData>,
    primary_sale_happened: Option<bool>,
    is_mutable: Option<bool>,
    signer: Option<SignerProof>,
) -> (r: PlannedCall)
    ensures
        r.deep_view().call == (CallView::UpdateMetadata {
            metadata: accounts.metadata@,
            update_authority: accounts.update_authority@,
            new_update_authority: new_update_authority.deep_view(),
            data: data.deep_view(),
            primary_sale_happened,
            is_mutable,
        }),
        r.deep_view().signer == signer.deep_view(),
{
    PlannedCall {
        call: ExternalCall::UpdateMetadata {
            metadata: accounts.metadata,
            update_authority: accounts.update_authority,
            new_update_authority,
            data,
            primary_sale_happened,
            is_mutable,
        },
        signer,
    }
}

/// Request the primary-sale marker to be set via a token holding.
pub fn update_primary_sale_happened_via_token(
    accounts: &UpdatePrimarySaleHappenedViaToken,
    signer: Option<SignerProof>,
) -> (r: PlannedCall)
    ensures
        r.deep_view().call == (CallView::UpdatePrimarySale {
            metadata: accounts.metadata@,
            owner: accounts.owner@,
            token: accounts.token@,
        }),
        r.deep_view().signer == signer.deep_view(),
{
    PlannedCall {
        call: ExternalCall::UpdatePrimarySale {
            metadata: accounts.metadata,
            owner: accounts.owner,
            token: accounts.token,
        },
        signer,
    }
}

/// Request a declared creator's signature on a metadata record.
pub fn sign_metadata(accounts: &SignMetadata, signer: Option<SignerProof>) -> (r: PlannedCall)
    ensures
        r.deep_view().call == (CallView::SignMetadata {
            metadata: accounts.metadata@,
            creator: accounts.creator@,
        }),
        r.deep_view().signer == signer.deep_view(),
{
    PlannedCall {
        call: ExternalCall::SignMetadata { metadata: accounts.metadata, creator: accounts.creator },
        signer,
    }
}

/// Request verification of a token's membership in a collection. The
/// optional delegation record carries the evidence that the verifier may
/// assert membership on the collection's behalf.
pub fn verify_collection(
    accounts: &VerifyCollection,
    collection_authority_record: Option<Address>,
    signer: Option<SignerProof>,
) -> (r: PlannedCall)
    ensures
        r.deep_view().call == (CallView::VerifyCollection {
            metadata: accounts.metadata@,
            collection_authority: accounts.collection_authority@,
            payer: accounts.payer@,
            collection_mint: accounts.collection_mint@,
            collection: accounts.collection@,
            collection_master_edition: accounts.collection_master_edition_account@,
            collection_authority_record: collection_authority_record.deep_view(),
        }),
        r.deep_view().signer == signer.deep_view(),
{
    PlannedCall {
        call: ExternalCall::VerifyCollection {
            metadata: accounts.metadata,
            collection_authority: accounts.collection_authority,
            payer: accounts.payer,
            collection_mint: accounts.collection_mint,
            collection: accounts.collection,
            collection_master_edition: accounts.collection_master_edition_account,
            collection_authority_record,
        },
        signer,
    }
}

/// Request delegation of collection authority to a new delegate.
pub fn approve_collection_authority(
    accounts: &ApproveCollectionAuthority,
    signer: Option<SignerProof>,
) -> (r: PlannedCall)
    ensures
        r.deep_view().call == (CallView::ApproveCollectionAuthority {
            collection_authority_record: accounts.collection_authority_record@,
            new_collection_authority: accounts.new_collection_authority@,
            update_authority: accounts.update_authority@,
            payer: accounts.payer@,
            metadata: accounts.metadata@,
            mint: accounts.mint@,
        }),
        r.deep_view().signer == signer.deep_view(),
{
    PlannedCall {
        call: ExternalCall::ApproveCollectionAuthority {
            collection_authority_record: accounts.collection_authority_record,
            new_collection_authority: accounts.new_collection_authority,
            update_authority: accounts.update_authority,
            payer: accounts.payer,
            metadata: accounts.metadata,
            mint: accounts.mint,
        },
        signer,
    }
}

} // verus!
