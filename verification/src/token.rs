//! Binding layer to the token program and the associated-account-index
//! program: the account sets their operations name, and builders that turn
//! them into boundary calls.

use vstd::prelude::*;
use crate::addr::{Address, SignerProof};
use crate::calls::{CallView, ExternalCall, PlannedCall};

verus! {

/// Accounts named by a mint initialization.
#[derive(Clone, Copy, Debug)]
pub struct InitializeMint {
    pub mint: Address,
}

/// Accounts named by a mint-to call.
#[derive(Clone, Copy, Debug)]
pub struct MintTo {
    pub mint: Address,
    pub to: Address,
    pub authority: Address,
}

/// Accounts named by an associated-account creation.
#[derive(Clone, Copy, Debug)]
pub struct CreateAssociatedToken {
    pub payer: Address,
    pub associated_token: Address,
    pub authority: Address,
    pub mint: Address,
}

/// Request initialization of a mint account with the given authority.
pub fn initialize_mint(
    accounts: &InitializeMint,
    decimals: u8,
    mint_authority: &Address,
    freeze_authority: Option<Address>,
    signer: Option<SignerProof>,
) -> (r: PlannedCall)
    ensures
        r.deep_view().call == (CallView::InitializeMint {
            mint: accounts.mint@,
            decimals,
            mint_authority: mint_authority@,
            freeze_authority: freeze_authority.deep_view(),
        }),
        r.deep_view().signer == signer.deep_view(),
{
    PlannedCall {
        call: ExternalCall::InitializeMint {
            mint: accounts.mint,
            decimals,
            mint_authority: *mint_authority,
            freeze_authority,
        },
        signer,
    }
}

/// Request creation of the holding account of `accounts.authority` for
/// `accounts.mint`.
pub fn create(accounts: &CreateAssociatedToken, signer: Option<SignerProof>) -> (r: PlannedCall)
    ensures
        r.deep_view().call == (CallView::CreateAssociatedAccount {
            payer: accounts.payer@,
            associated_token: accounts.associated_token@,
            wallet: accounts.authority@,
            mint: accounts.mint@,
        }),
        r.deep_view().signer == signer.deep_view(),
{
    PlannedCall {
        call: ExternalCall::CreateAssociatedAccount {
            payer: accounts.payer,
            associated_token: accounts.associated_token,
            wallet: accounts.authority,
            mint: accounts.mint,
        },
        signer,
    }
}

/// Request minting of `amount` units to the holding account.
pub fn mint_to(accounts: &MintTo, amount: u64, signer: Option<SignerProof>) -> (r: PlannedCall)
    ensures
        r.deep_view().call == (CallView::MintTo {
            mint: accounts.mint@,
            to: accounts.to@,
            authority: accounts.authority@,
            amount,
        }),
        r.deep_view().signer == signer.deep_view(),
{
    PlannedCall {
        call: ExternalCall::MintTo {
            mint: accounts.mint,
            to: accounts.to,
            authority: accounts.authority,
            amount,
        },
        signer,
    }
}

} // verus!
