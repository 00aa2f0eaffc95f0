//! The boundary operations this engine requests from its collaborators: the
//! base ledger, the token program, the associated-account-index program and
//! the metadata program. Each operation is held as plain data; the host shell
//! encodes and submits it. A planned call optionally carries the signer proof
//! under which it must be submitted.

use vstd::prelude::*;
use crate::addr::{Address, SignerProof};

verus! {

/// A declared creator of a token's metadata.
#[derive(Clone, Copy, Debug)]
pub struct Creator {
    pub address: Address,
    pub verified: bool,
    pub share: u8,
}

/// Mathematical model of a creator entry.
#[verifier::ext_equal]
pub struct CreatorView {
    pub address: Seq<u8>,
    pub verified: bool,
    pub share: u8,
}

impl DeepView for Creator {
    type V = CreatorView;

    open spec fn deep_view(&self) -> CreatorView {
        CreatorView { address: self.address@, verified: self.verified, share: self.share }
    }
}

/// How a token with limited uses is consumed.
#[derive(Clone, Copy, PartialEq, Eq, Structural, Debug)]
pub enum UseMethod {
    Burn,
    Multiple,
    Single,
}

/// The limited-use configuration a metadata record may carry.
#[derive(Clone, Copy, PartialEq, Eq, Structural, Debug)]
pub struct Uses {
    pub use_method: UseMethod,
    pub remaining: u64,
    pub total: u64,
}

/// The replaceable data block of a metadata record, as handed to an update.
#[derive(Clone, Debug)]
pub struct MetadataData {
    pub name: String,
    pub symbol: String,
    pub uri: String,
    pub seller_fee_basis_points: u16,
    pub creators: Option<Vec<Creator>>,
    pub collection: Option<Address>,
    pub uses: Option<Uses>,
}

/// Mathematical model of a metadata data block.
#[verifier::ext_equal]
pub struct MetadataDataView {
    pub name: Seq<char>,
    pub symbol: Seq<char>,
    pub uri: Seq<char>,
    pub seller_fee_basis_points: u16,
    pub creators: Option<Seq<CreatorView>>,
    pub collection: Option<Seq<u8>>,
    pub uses: Option<Uses>,
}

impl DeepView for MetadataData {
    type V = MetadataDataView;

    open spec fn deep_view(&self) -> MetadataDataView {
        MetadataDataView {
            name: self.name@,
            symbol: self.symbol@,
            uri: self.uri@,
            seller_fee_basis_points: self.seller_fee_basis_points,
            creators: self.creators.deep_view(),
            collection: self.collection.deep_view(),
            uses: self.uses,
        }
    }
}

/// One cross-program call at the engine's boundary, with plain arguments.
#[derive(Clone, Debug)]
pub enum ExternalCall {
    /// Base ledger: create a fresh account of `space` bytes owned by
    /// `owner_program`, funded by `funder` with `lamports`.
    CreateAccount {
        funder: Address,
        target: Address,
        lamports: u64,
        space: u64,
        owner_program: Address,
    },
    /// Base ledger: move `lamports` from `from` to `to`.
    Transfer { from: Address, to: Address, lamports: u64 },
    /// Base ledger: size the account at `target` to `space` bytes.
    Allocate { target: Address, space: u64 },
    /// Base ledger: hand ownership of `target` to `owner_program`.
    Assign { target: Address, owner_program: Address },
    /// Token program: initialize the mint account with its authority.
    InitializeMint {
        mint: Address,
        decimals: u8,
        mint_authority: Address,
        freeze_authority: Option<Address>,
    },
    /// Associated-account-index program: create the holding account of
    /// `wallet` for `mint`, funded by `payer`.
    CreateAssociatedAccount { payer: Address, associated_token: Address, wallet: Address, mint: Address },
    /// Token program: mint `amount` units of `mint` to `to`.
    MintTo { mint: Address, to: Address, authority: Address, amount: u64 },
    /// Metadata program: create the metadata record of `mint`.
    CreateMetadata {
        metadata: Address,
        mint: Address,
        mint_authority: Address,
        payer: Address,
        update_authority: Address,
        name: String,
        symbol: String,
        uri: String,
        creators: Option<Vec<Creator>>,
        seller_fee_basis_points: u16,
        update_authority_is_signer: bool,
        is_mutable: bool,
        collection: Option<Address>,
        uses: Option<Uses>,
    },
    /// Metadata program: create the master edition of `mint`, capping how
    /// many further editions may ever be printed.
    CreateMasterEdition {
        edition: Address,
        mint: Address,
        update_authority: Address,
        mint_authority: Address,
        metadata: Address,
        payer: Address,
        max_supply: Option<u64>,
    },
    /// Metadata program: a declared creator signs the metadata record.
    SignMetadata { metadata: Address, creator: Address },
    /// Metadata program: assert verified membership of a collection.
    VerifyCollection {
        metadata: Address,
        collection_authority: Address,
        payer: Address,
        collection_mint: Address,
        collection: Address,
        collection_master_edition: Address,
        collection_authority_record: Option<Address>,
    },
    /// Metadata program: delegate collection authority over `mint`'s
    /// metadata to `new_collection_authority`.
    ApproveCollectionAuthority {
        collection_authority_record: Address,
        new_collection_authority: Address,
        update_authority: Address,
        payer: Address,
        metadata: Address,
        mint: Address,
    },
    /// Metadata program: replace parts of a metadata record.
    UpdateMetadata {
        metadata: Address,
        update_authority: Address,
        new_update_authority: Option<Address>,
        data: Option<MetadataData>,
        primary_sale_happened: Option<bool>,
        is_mutable: Option<bool>,
    },
    /// Metadata program: mark the primary sale as happened, proven via a
    /// token holding.
    UpdatePrimarySale { metadata: Address, owner: Address, token: Address },
}

/// Mathematical model of a boundary call.
#[verifier::ext_equal]
pub enum CallView {
    CreateAccount {
        funder: Seq<u8>,
        target: Seq<u8>,
        lamports: u64,
        space: u64,
        owner_program: Seq<u8>,
    },
    Transfer { from: Seq<u8>, to: Seq<u8>, lamports: u64 },
    Allocate { target: Seq<u8>, space: u64 },
    Assign { target: Seq<u8>, owner_program: Seq<u8> },
    InitializeMint {
        mint: Seq<u8>,
        decimals: u8,
        mint_authority: Seq<u8>,
        freeze_authority: Option<Seq<u8>>,
    },
    CreateAssociatedAccount { payer: Seq<u8>, associated_token: Seq<u8>, wallet: Seq<u8>, mint: Seq<u8> },
    MintTo { mint: Seq<u8>, to: Seq<u8>, authority: Seq<u8>, amount: u64 },
    CreateMetadata {
        metadata: Seq<u8>,
        mint: Seq<u8>,
        mint_authority: Seq<u8>,
        payer: Seq<u8>,
        update_authority: Seq<u8>,
        name: Seq<char>,
        symbol: Seq<char>,
        uri: Seq<char>,
        creators: Option<Seq<CreatorView>>,
        seller_fee_basis_points: u16,
        update_authority_is_signer: bool,
        is_mutable: bool,
        collection: Option<Seq<u8>>,
        uses: Option<Uses>,
    },
    CreateMasterEdition {
        edition: Seq<u8>,
        mint: Seq<u8>,
        update_authority: Seq<u8>,
        mint_authority: Seq<u8>,
        metadata: Seq<u8>,
        payer: Seq<u8>,
        max_supply: Option<u64>,
    },
    SignMetadata { metadata: Seq<u8>, creator: Seq<u8> },
    VerifyCollection {
        metadata: Seq<u8>,
        collection_authority: Seq<u8>,
        payer: Seq<u8>,
        collection_mint: Seq<u8>,
        collection: Seq<u8>,
        collection_master_edition: Seq<u8>,
        collection_authority_record: Option<Seq<u8>>,
    },
    ApproveCollectionAuthority {
        collection_authority_record: Seq<u8>,
        new_collection_authority: Seq<u8>,
        update_authority: Seq<u8>,
        payer: Seq<u8>,
        metadata: Seq<u8>,
        mint: Seq<u8>,
    },
    UpdateMetadata {
        metadata: Seq<u8>,
        update_authority: Seq<u8>,
        new_update_authority: Option<Seq<u8>>,
        data: Option<MetadataDataView>,
        primary_sale_happened: Option<bool>,
        is_mutable: Option<bool>,
    },
    UpdatePrimarySale { metadata: Seq<u8>, owner: Seq<u8>, token: Seq<u8> },
}

impl DeepView for ExternalCall {
    type V = CallView;

    open spec fn deep_view(&self) -> CallView {
        match *self {
            ExternalCall::CreateAccount { funder, target, lamports, space, owner_program } => {
                CallView::CreateAccount {
                    funder: funder@,
                    target: target@,
                    lamports,
                    space,
                    owner_program: owner_program@,
                }
            },
            ExternalCall::Transfer { from, to, lamports } => {
                CallView::Transfer { from: from@, to: to@, lamports }
            },
            ExternalCall::Allocate { target, space } => {
                CallView::Allocate { target: target@, space }
            },
            ExternalCall::Assign { target, owner_program } => {
                CallView::Assign { target: target@, owner_program: owner_program@ }
            },
            ExternalCall::InitializeMint { mint, decimals, mint_authority, freeze_authority } => {
                CallView::InitializeMint {
                    mint: mint@,
                    decimals,
                    mint_authority: mint_authority@,
                    freeze_authority: freeze_authority.deep_view(),
                }
            },
            ExternalCall::CreateAssociatedAccount { payer, associated_token, wallet, mint } => {
                CallView::CreateAssociatedAccount {
                    payer: payer@,
                    associated_token: associated_token@,
                    wallet: wallet@,
                    mint: mint@,
                }
            },
            ExternalCall::MintTo { mint, to, authority, amount } => {
                CallView::MintTo { mint: mint@, to: to@, authority: authority@, amount }
            },
            ExternalCall::CreateMetadata {
                metadata,
                mint,
                mint_authority,
                payer,
                update_authority,
                name,
                symbol,
                uri,
                creators,
                seller_fee_basis_points,
                update_authority_is_signer,
                is_mutable,
                collection,
                uses,
            } => {
                CallView::CreateMetadata {
                    metadata: metadata@,
                    mint: mint@,
                    mint_authority: mint_authority@,
                    payer: payer@,
                    update_authority: update_authority@,
                    name: name@,
                    symbol: symbol@,
                    uri: uri@,
                    creators: creators.deep_view(),
                    seller_fee_basis_points,
                    update_authority_is_signer,
                    is_mutable,
                    collection: collection.deep_view(),
                    uses,
                }
            },
            ExternalCall::CreateMasterEdition {
                edition,
                mint,
                update_authority,
                mint_authority,
                metadata,
                payer,
                max_supply,
            } => {
                CallView::CreateMasterEdition {
                    edition: edition@,
                    mint: mint@,
                    update_authority: update_authority@,
                    mint_authority: mint_authority@,
                    metadata: metadata@,
                    payer: payer@,
                    max_supply,
                }
            },
            ExternalCall::SignMetadata { metadata, creator } => {
                CallView::SignMetadata { metadata: metadata@, creator: creator@ }
            },
            ExternalCall::VerifyCollection {
                metadata,
                collection_authority,
                payer,
                collection_mint,
                collection,
                collection_master_edition,
                collection_authority_record,
            } => {
                CallView::VerifyCollection {
                    metadata: metadata@,
                    collection_authority: collection_authority@,
                    payer: payer@,
                    collection_mint: collection_mint@,
                    collection: collection@,
                    collection_master_edition: collection_master_edition@,
                    collection_authority_record: collection_authority_record.deep_view(),
                }
            },
            ExternalCall::ApproveCollectionAuthority {
                collection_authority_record,
                new_collection_authority,
                update_authority,
                payer,
                metadata,
                mint,
            } => {
                CallView::ApproveCollectionAuthority {
                    collection_authority_record: collection_authority_record@,
                    new_collection_authority: new_collection_authority@,
                    update_authority: update_authority@,
                    payer: payer@,
                    metadata: metadata@,
                    mint: mint@,
                }
            },
            ExternalCall::UpdateMetadata {
                metadata,
                update_authority,
                new_update_authority,
                data,
                primary_sale_happened,
                is_mutable,
            } => {
                CallView::UpdateMetadata {
                    metadata: metadata@,
                    update_authority: update_authority@,
                    new_update_authority: new_update_authority.deep_view(),
                    data: data.deep_view(),
                    primary_sale_happened,
                    is_mutable,
                }
            },
            ExternalCall::UpdatePrimarySale { metadata, owner, token } => {
                CallView::UpdatePrimarySale { metadata: metadata@, owner: owner@, token: token@ }
            },
        }
    }
}

/// A boundary call paired with the signer proof it must be submitted under,
/// if any.
#[derive(Clone, Debug)]
pub struct PlannedCall {
    pub call: ExternalCall,
    pub signer: Option<SignerProof>,
}

/// Mathematical model of a planned call.
#[verifier::ext_equal]
pub struct PlannedCallView {
    pub call: CallView,
    pub signer: Option<Seq<Seq<u8>>>,
}

impl DeepView for PlannedCall {
    type V = PlannedCallView;

    open spec fn deep_view(&self) -> PlannedCallView {
        PlannedCallView { call: self.call.deep_view(), signer: self.signer.deep_view() }
    }
}

} // verus!
