//! Idempotent account allocation: the base-ledger calls that materialize a
//! derived address with the required size, funding and owning program,
//! whether or not the address already holds a balance.

use vstd::prelude::*;
use crate::addr::{Address, SignerProof};
use crate::calls::{CallView, ExternalCall, PlannedCall, PlannedCallView};

verus! {

/// Size in bytes of a token-program mint account.
pub const MINT_ACCOUNT_SPACE: u64 = 82;

/// What the host ledger reports about the target address before allocation:
/// its current balance, and the minimum balance the ledger requires to keep
/// an account of the requested size alive rent-free.
#[derive(Clone, Copy, Debug)]
pub struct AccountFunding {
    pub current_lamports: u64,
    pub rent_minimum_balance: u64,
}

/// The shortfall a funded-but-underfunded account must receive: the minimum
/// balance (at least one lamport), less what is already there.
pub open spec fn required_top_up(current: u64, rent_min: u64) -> u64 {
    let floor = if rent_min > 1 { rent_min } else { 1u64 };
    if floor > current {
        (floor - current) as u64
    } else {
        0u64
    }
}

/// The base-ledger calls that materialize `target` with `space` bytes owned
/// by `owner_program`: a single funded creation when the address holds
/// nothing yet; otherwise a top-up transfer (when short), then a size
/// allocation and an ownership assignment.
pub open spec fn allocation_plan(
    funder: Seq<u8>,
    target: Seq<u8>,
    owner_program: Seq<u8>,
    space: u64,
    current: u64,
    rent_min: u64,
    signer: Seq<Seq<u8>>,
) -> Seq<PlannedCallView> {
    if current == 0 {
        seq![
            PlannedCallView {
                call: CallView::CreateAccount {
                    funder,
                    target,
                    lamports: rent_min,
                    space,
                    owner_program,
                },
                signer: Some(signer),
            },
        ]
    } else {
        let top_up = required_top_up(current, rent_min);
        let resize = seq![
            PlannedCallView { call: CallView::Allocate { target, space }, signer: Some(signer) },
            PlannedCallView {
                call: CallView::Assign { target, owner_program },
                signer: Some(signer),
            },
        ];
        if top_up > 0 {
            seq![
                PlannedCallView {
                    call: CallView::Transfer { from: funder, to: target, lamports: top_up },
                    signer: None,
                },
            ] + resize
        } else {
            resize
        }
    }
}

/// Plan the calls that create the account at `new_account` with exactly
/// `size` bytes owned by `owner_program`, funded by `funder`, or — when it
/// already holds a balance — top it up, size it and assign it. The plain
/// balance transfer needs no derived authority; every other call is
/// submitted under `signer`.
pub fn create_or_allocate_account_raw(
    owner_program: &Address,
    new_account: &Address,
    funder: &Address,
    funding: &AccountFunding,
    size: u64,
    signer: &SignerProof,
) -> (r: Vec<PlannedCall>)
    ensures
        r.deep_view() == allocation_plan(
            funder@,
            new_account@,
            owner_program@,
            size,
            funding.current_lamports,
            funding.rent_minimum_balance,
            signer@,
        ),
{
    let mut r: Vec<PlannedCall> = Vec::new();
    if funding.current_lamports == 0 {
        let ghost pre = r;
        r.push(PlannedCall {
            call: ExternalCall::CreateAccount {
                funder: *funder,
                target: *new_account,
                lamports: funding.rent_minimum_balance,
                space: size,
                owner_program: *owner_program,
            },
            signer: Some(signer.clone()),
        });
        proof {
            crate::addr::lemma_deep_view_push(pre, r);
            assert(r.deep_view() =~~= allocation_plan(
                funder@,
                new_account@,
                owner_program@,
                size,
                funding.current_lamports,
                funding.rent_minimum_balance,
                signer@,
            ));
        }
    } else {
        let floor = if funding.rent_minimum_balance > 1 {
            funding.rent_minimum_balance
        } else {
            1u64
        };
        let required_lamports = if floor > funding.current_lamports {
            floor - funding.current_lamports
        } else {
            0u64
        };
        if required_lamports > 0 {
            let ghost pre = r;
            r.push(PlannedCall {
                call: ExternalCall::Transfer {
                    from: *funder,
                    to: *new_account,
                    lamports: required_lamports,
                },
                signer: None,
            });
            proof {
                crate::addr::lemma_deep_view_push(pre, r);
            }
        }
        let ghost mid = r;
        r.push(PlannedCall {
            call: ExternalCall::Allocate { target: *new_account, space: size },
            signer: Some(signer.clone()),
        });
        proof {
            crate::addr::lemma_deep_view_push(mid, r);
        }
        let ghost mid2 = r;
        r.push(PlannedCall {
            call: ExternalCall::Assign { target: *new_account, owner_program: *owner_program },
            signer: Some(signer.clone()),
        });
        proof {
            crate::addr::lemma_deep_view_push(mid2, r);
            assert(r.deep_view() =~~= allocation_plan(
                funder@,
                new_account@,
                owner_program@,
                size,
                funding.current_lamports,
                funding.rent_minimum_balance,
                signer@,
            ));
        }
    }
    r
}

} // verus!
