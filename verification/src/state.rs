//! Persisted per-owner minter records and the registry that guards their
//! one-time creation.

use vstd::prelude::*;
use crate::addr::Address;

verus! {

/// Every condition under which an operation of this engine refuses to
/// proceed or a workflow cannot be committed.
#[derive(Clone, Copy, PartialEq, Eq, Structural, Debug)]
pub enum MinterError {
    /// The caller-supplied target mint address differs from the derived one.
    InvalidMintAddress,
    /// The supplied associated token account is not the expected one.
    InvalidAssociatedTokenAddress,
    /// The supplied metadata account is not the expected one.
    InvalidTokenMetadataAddress,
    /// The supplied master edition account is not the expected one.
    InvalidMasterEditionAddress,
    /// The caller is not the owner recorded in the minter record.
    MismatchedMinterOwner,
    /// A minter record for this owner and version already exists.
    AlreadyInitialized,
    /// The record's collection reference is already set; it is immutable.
    AlreadyBound,
    /// A collection-tagged mint was requested before any collection was bound.
    CollectionNotBound,
    /// The metadata's stored update authority is not the caller.
    MismatchedUpdateAuthority,
    /// No bump seed in range yields an off-curve derived address.
    DerivationExhausted,
    /// A workflow that did not run all its external calls to success cannot
    /// advance the counter.
    WorkflowIncomplete,
}

/// The version-1 per-owner record: the identity allowed to mint through it
/// and the monotonic counter of completed mints.
#[derive(Clone, Copy, Debug)]
pub struct MinterAccount {
    pub owner: Address,
    pub count: u32,
}

/// The version-2 record: as version 1, plus an optional reference to the
/// collection whose membership later mints assert. Unset until a binding
/// succeeds; immutable once set.
#[derive(Clone, Copy, Debug)]
pub struct MinterAccountV2 {
    pub owner: Address,
    pub count: u32,
    pub collection: Option<Address>,
}

/// The account set of a version-1 record initialization: the signer that
/// will own the new record.
#[derive(Clone, Copy, Debug)]
pub struct InitializeMinter {
    pub authority: Address,
}

/// The account set of a version-2 record initialization.
#[derive(Clone, Copy, Debug)]
pub struct InitializeMinterV2 {
    pub authority: Address,
}

/// All minter records the ledger persists, one per (owner, version) pair.
/// Creation is idempotent-guarded: re-initializing an existing record fails
/// and never overwrites.
pub struct MinterRegistry {
    pub records: Vec<MinterAccount>,
    pub records_v2: Vec<MinterAccountV2>,
}

/// Outcome of initializing a version-1 record: refused without a trace when
/// one exists for this owner, otherwise exactly one fresh record with a
/// zeroed counter is appended.
pub open spec fn init_minter_transition(
    pre: MinterRegistry,
    post: MinterRegistry,
    authority: Address,
    r: Result<(), MinterError>,
) -> bool {
    if pre.has_minter(authority@) {
        &&& r == Result::<(), MinterError>::Err(MinterError::AlreadyInitialized)
        &&& post.records == pre.records
        &&& post.records_v2 == pre.records_v2
    } else {
        &&& r == Result::<(), MinterError>::Ok(())
        &&& post.records@ == pre.records@.push(MinterAccount { owner: authority, count: 0 })
        &&& post.records_v2 == pre.records_v2
    }
}

/// Outcome of initializing a version-2 record, with its unset collection.
pub open spec fn init_minter_v2_transition(
    pre: MinterRegistry,
    post: MinterRegistry,
    authority: Address,
    r: Result<(), MinterError>,
) -> bool {
    if pre.has_minter_v2(authority@) {
        &&& r == Result::<(), MinterError>::Err(MinterError::AlreadyInitialized)
        &&& post.records == pre.records
        &&& post.records_v2 == pre.records_v2
    } else {
        &&& r == Result::<(), MinterError>::Ok(())
        &&& post.records_v2@ == pre.records_v2@.push(
            MinterAccountV2 { owner: authority, count: 0, collection: None },
        )
        &&& post.records == pre.records
    }
}

impl MinterRegistry {
    /// Whether a version-1 record for this owner exists.
    pub open spec fn has_minter(self, owner: Seq<u8>) -> bool {
        exists|i: int| 0 <= i < self.records@.len() && self.records@[i].owner@ == owner
    }

    /// Whether a version-2 record for this owner exists.
    pub open spec fn has_minter_v2(self, owner: Seq<u8>) -> bool {
        exists|i: int| 0 <= i < self.records_v2@.len() && self.records_v2@[i].owner@ == owner
    }

    /// At most one record per owner and version.
    pub open spec fn wf(self) -> bool {
        &&& forall|i: int, j: int|
            0 <= i < j < self.records@.len() ==> self.records@[i].owner@
                != self.records@[j].owner@
        &&& forall|i: int, j: int|
            0 <= i < j < self.records_v2@.len() ==> self.records_v2@[i].owner@
                != self.records_v2@[j].owner@
    }

    /// An empty registry.
    pub fn new() -> (r: MinterRegistry)
        ensures
            r.wf(),
            r.records@ == Seq::<MinterAccount>::empty(),
            r.records_v2@ == Seq::<MinterAccountV2>::empty(),
    {
        let r = MinterRegistry { records: Vec::new(), records_v2: Vec::new() };
        proof {
            assert(r.records@ =~= Seq::<MinterAccount>::empty());
            assert(r.records_v2@ =~= Seq::<MinterAccountV2>::empty());
        }
        r
    }

    /// Create the version-1 record of `accounts.authority`, with a zeroed
    /// counter; fails when one already exists.
    pub fn initialize_minter(&mut self, accounts: &InitializeMinter) -> (r: Result<
        (),
        MinterError,
    >)
        requires
            old(self).wf(),
        ensures
            final(self).wf(),
            init_minter_transition(*old(self), *final(self), accounts.authority, r),
            r is Ok ==> final(self).has_minter(accounts.authority@),
    {
        let n = self.records.len();
        let mut i: usize = 0;
        while i < n
            invariant
                old(self).wf(),
                *self == *old(self),
                n == self.records@.len(),
                i <= n,
                forall|j: int| 0 <= j < i ==> self.records@[j].owner@ != accounts.authority@,
            decreases n - i,
        {
            if self.records[i].owner == accounts.authority {
                return Err(MinterError::AlreadyInitialized);
            }
            i += 1;
        }
        self.records.push(MinterAccount { owner: accounts.authority, count: 0 });
        proof {
            assert(self.records@[old(self).records@.len() as int].owner@ == accounts.authority@);
        }
        Ok(())
    }

    /// Create the version-2 record of `accounts.authority`, with a zeroed
    /// counter and no collection; fails when one already exists.
    pub fn initialize_minter_v2(&mut self, accounts: &InitializeMinterV2) -> (r: Result<
        (),
        MinterError,
    >)
        requires
            old(self).wf(),
        ensures
            final(self).wf(),
            init_minter_v2_transition(*old(self), *final(self), accounts.authority, r),
            r is Ok ==> final(self).has_minter_v2(accounts.authority@),
    {
        let n = self.records_v2.len();
        let mut i: usize = 0;
        while i < n
            invariant
                old(self).wf(),
                *self == *old(self),
                n == self.records_v2@.len(),
                i <= n,
                forall|j: int| 0 <= j < i ==> self.records_v2@[j].owner@ != accounts.authority@,
            decreases n - i,
        {
            if self.records_v2[i].owner == accounts.authority {
                return Err(MinterError::AlreadyInitialized);
            }
            i += 1;
        }
        self.records_v2.push(
            MinterAccountV2 { owner: accounts.authority, count: 0, collection: None },
        );
        proof {
            assert(self.records_v2@[old(self).records_v2@.len() as int].owner@
                == accounts.authority@);
        }
        Ok(())
    }
}

} // verus!
