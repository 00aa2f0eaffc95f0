//! Address derivation: computing program-owned addresses from seed families,
//! and packaging the seeds that later prove control of such an address.

use vstd::prelude::*;
use vstd::bytes::{spec_u32_to_le_bytes, u32_to_le_bytes};
use crate::state::MinterError;

verus! {

/// A 32-byte ledger address. Program-owned addresses are computed from seeds
/// and have no associated private key.
#[derive(Clone, Copy, Debug)]
pub struct Address {
    pub bytes: [u8; 32],
}

impl View for Address {
    type V = Seq<u8>;

    open spec fn view(&self) -> Seq<u8> {
        self.bytes@
    }
}

impl DeepView for Address {
    type V = Seq<u8>;

    open spec fn deep_view(&self) -> Seq<u8> {
        self.bytes@
    }
}

impl PartialEq for Address {
    fn eq(&self, other: &Address) -> (r: bool) {
        let mut i: usize = 0;
        while i < 32
            invariant
                i <= 32,
                forall|j: int| 0 <= j < i ==> self.bytes@[j] == other.bytes@[j],
            decreases 32 - i,
        {
            if self.bytes[i] != other.bytes[i] {
                return false;
            }
            i += 1;
        }
        proof {
            assert(self.bytes@ =~= other.bytes@);
        }
        true
    }
}

impl vstd::std_specs::cmp::PartialEqSpecImpl for Address {
    open spec fn obeys_eq_spec() -> bool {
        true
    }

    open spec fn eq_spec(&self, other: &Address) -> bool {
        self.bytes@ == other.bytes@
    }
}

/// The address and bump that the ledger's program-derived-address algorithm
/// yields for a seed sequence and a program identity, or `None` when no bump
/// in range puts the candidate off the restricted point set.
pub uninterp spec fn pda_of(seeds: Seq<Seq<u8>>, program_id: Seq<u8>) -> Option<(Seq<u8>, u8)>;

/// Relies on solana_program::pubkey::Pubkey::try_find_program_address: the
/// result depends on the seed slices and the program id alone; it is `None`
/// exactly when no bump seed yields an off-curve address or a precondition on
/// the seeds (count, length) is violated.
#[verifier::external_body]
pub(crate) fn find_pda(seeds: &Vec<Vec<u8>>, program_id: &Address) -> (r: Option<(Address, u8)>)
    ensures
        (r is Some) == (pda_of(seeds.deep_view(), program_id@) is Some),
        r matches Some(p) ==> Some((p.0@, p.1)) == pda_of(seeds.deep_view(), program_id@),
{
    let refs: Vec<&[u8]> = seeds.iter().map(|s| s.as_slice()).collect();
    let pid = solana_program::pubkey::Pubkey::new_from_array(program_id.bytes);
    solana_program::pubkey::Pubkey::try_find_program_address(&refs, &pid)
        .map(|(a, bump)| (Address { bytes: a.to_bytes() }, bump))
}

/// Seed tag distinguishing version-1 minter records: the bytes of "minter".
pub open spec fn minter_tag() -> Seq<u8> {
    seq![109u8, 105u8, 110u8, 116u8, 101u8, 114u8]
}

/// Seed tag distinguishing version-2 minter records: the bytes of "minter_v2".
pub open spec fn minter_v2_tag() -> Seq<u8> {
    seq![109u8, 105u8, 110u8, 116u8, 101u8, 114u8, 95u8, 118u8, 50u8]
}

/// Seed tag of the mint-address family used without a collection: "mint".
pub open spec fn mint_tag() -> Seq<u8> {
    seq![109u8, 105u8, 110u8, 116u8]
}

/// Seed tag of the mint-address family used with a collection: "mint_v2".
pub open spec fn mint_v2_tag() -> Seq<u8> {
    seq![109u8, 105u8, 110u8, 116u8, 95u8, 118u8, 50u8]
}

pub fn minter_tag_bytes() -> (r: Vec<u8>)
    ensures
        r@ == minter_tag(),
{
    let r: Vec<u8> = vec![109u8, 105u8, 110u8, 116u8, 101u8, 114u8];
    proof {
        assert(r@ =~= minter_tag());
    }
    r
}

pub fn minter_v2_tag_bytes() -> (r: Vec<u8>)
    ensures
        r@ == minter_v2_tag(),
{
    let r: Vec<u8> = vec![109u8, 105u8, 110u8, 116u8, 101u8, 114u8, 95u8, 118u8, 50u8];
    proof {
        assert(r@ =~= minter_v2_tag());
    }
    r
}

pub fn mint_tag_bytes() -> (r: Vec<u8>)
    ensures
        r@ == mint_tag(),
{
    let r: Vec<u8> = vec![109u8, 105u8, 110u8, 116u8];
    proof {
        assert(r@ =~= mint_tag());
    }
    r
}

pub fn mint_v2_tag_bytes() -> (r: Vec<u8>)
    ensures
        r@ == mint_v2_tag(),
{
    let r: Vec<u8> = vec![109u8, 105u8, 110u8, 116u8, 95u8, 118u8, 50u8];
    proof {
        assert(r@ =~= mint_v2_tag());
    }
    r
}

/// A fresh copy of a byte vector.
pub fn copy_bytes(src: &Vec<u8>) -> (r: Vec<u8>)
    ensures
        r@ == src@,
{
    let mut r: Vec<u8> = Vec::new();
    let mut i: usize = 0;
    while i < src.len()
        invariant
            i <= src@.len(),
            r@.len() == i,
            forall|j: int| 0 <= j < i ==> r@[j] == src@[j],
        decreases src@.len() - i,
    {
        r.push(src[i]);
        i += 1;
    }
    proof {
        assert(r@ =~= src@);
    }
    r
}

/// The bytes of an address, as a fresh vector.
pub fn address_bytes(a: &Address) -> (r: Vec<u8>)
    ensures
        r@ == a@,
{
    let mut r: Vec<u8> = Vec::new();
    let mut i: usize = 0;
    while i < 32
        invariant
            i <= 32,
            r@.len() == i,
            forall|j: int| 0 <= j < i ==> r@[j] == a.bytes@[j],
        decreases 32 - i,
    {
        r.push(a.bytes[i]);
        i += 1;
    }
    proof {
        assert(r@ =~= a@);
    }
    r
}

/// Seeds from which a version-1 minter record's address is derived.
pub open spec fn minter_seeds_view(owner: Seq<u8>) -> Seq<Seq<u8>> {
    seq![minter_tag(), owner]
}

/// Seeds from which a version-2 minter record's address is derived.
pub open spec fn minter_v2_seeds_view(owner: Seq<u8>) -> Seq<Seq<u8>> {
    seq![minter_v2_tag(), owner]
}

/// Seeds from which the next collectionless mint's address is derived.
pub open spec fn mint_seeds_view(count: u32) -> Seq<Seq<u8>> {
    seq![mint_tag(), spec_u32_to_le_bytes(count)]
}

/// Seeds from which the next collection-tagged mint's address is derived.
pub open spec fn mint_v2_seeds_view(count: u32) -> Seq<Seq<u8>> {
    seq![mint_v2_tag(), spec_u32_to_le_bytes(count)]
}

pub fn minter_seeds(owner: &Address) -> (r: Vec<Vec<u8>>)
    ensures
        r.deep_view() == minter_seeds_view(owner@),
{
    let mut r: Vec<Vec<u8>> = Vec::new();
    r.push(minter_tag_bytes());
    r.push(address_bytes(owner));
    proof {
        assert(r.deep_view() =~~= minter_seeds_view(owner@));
    }
    r
}

pub fn minter_v2_seeds(owner: &Address) -> (r: Vec<Vec<u8>>)
    ensures
        r.deep_view() == minter_v2_seeds_view(owner@),
{
    let mut r: Vec<Vec<u8>> = Vec::new();
    r.push(minter_v2_tag_bytes());
    r.push(address_bytes(owner));
    proof {
        assert(r.deep_view() =~~= minter_v2_seeds_view(owner@));
    }
    r
}

pub fn mint_seeds(count: u32) -> (r: Vec<Vec<u8>>)
    ensures
        r.deep_view() == mint_seeds_view(count),
{
    let mut r: Vec<Vec<u8>> = Vec::new();
    r.push(mint_tag_bytes());
    r.push(u32_to_le_bytes(count));
    proof {
        assert(r.deep_view() =~~= mint_seeds_view(count));
    }
    r
}

pub fn mint_v2_seeds(count: u32) -> (r: Vec<Vec<u8>>)
    ensures
        r.deep_view() == mint_v2_seeds_view(count),
{
    let mut r: Vec<Vec<u8>> = Vec::new();
    r.push(mint_v2_tag_bytes());
    r.push(u32_to_le_bytes(count));
    proof {
        assert(r.deep_view() =~~= mint_v2_seeds_view(count));
    }
    r
}

/// Pushing onto a vector appends the element's deep view to the vector's.
pub proof fn lemma_deep_view_push<T: DeepView>(pre: Vec<T>, post: Vec<T>)
    requires
        post@ == pre@.push(post@[pre@.len() as int]),
    ensures
        post.deep_view() == pre.deep_view().push(post@[pre@.len() as int].deep_view()),
{
    let x = post@[pre@.len() as int];
    assert forall|i: int| 0 <= i < post.deep_view().len() implies post.deep_view()[i]
        == pre.deep_view().push(x.deep_view())[i] by {
        if i < pre@.len() {
            assert(post@[i] == pre@[i]);
        }
    }
    assert(post.deep_view() =~= pre.deep_view().push(x.deep_view()));
}

/// The derived address of a seed family, assuming derivation succeeds.
pub open spec fn pda_addr(seeds: Seq<Seq<u8>>, program_id: Seq<u8>) -> Seq<u8> {
    pda_of(seeds, program_id)->Some_0.0
}

/// The disambiguation bump of a seed family, assuming derivation succeeds.
pub open spec fn pda_bump(seeds: Seq<Seq<u8>>, program_id: Seq<u8>) -> u8 {
    pda_of(seeds, program_id)->Some_0.1
}

/// The seed set that proves control of a program-owned address: the seed
/// family it was derived from, extended with the disambiguation bump. It is
/// pure data; no secret material exists.
#[derive(Debug)]
pub struct SignerProof {
    pub seeds: Vec<Vec<u8>>,
}

impl Clone for SignerProof {
    fn clone(&self) -> (r: SignerProof)
        ensures
            r@ == self@,
    {
        let mut seeds: Vec<Vec<u8>> = Vec::new();
        let mut i: usize = 0;
        while i < self.seeds.len()
            invariant
                i <= self.seeds@.len(),
                seeds@.len() == i,
                forall|j: int| 0 <= j < i ==> seeds@[j]@ == self.seeds@[j]@,
            decreases self.seeds@.len() - i,
        {
            seeds.push(copy_bytes(&self.seeds[i]));
            i += 1;
        }
        proof {
            assert(seeds.deep_view() =~~= self.seeds.deep_view());
        }
        SignerProof { seeds }
    }
}

impl View for SignerProof {
    type V = Seq<Seq<u8>>;

    open spec fn view(&self) -> Seq<Seq<u8>> {
        self.seeds.deep_view()
    }
}

impl DeepView for SignerProof {
    type V = Seq<Seq<u8>>;

    open spec fn deep_view(&self) -> Seq<Seq<u8>> {
        self.seeds.deep_view()
    }
}

/// Signer seeds of a version-1 minter identity.
pub open spec fn minter_signer_view(owner: Seq<u8>, bump: u8) -> Seq<Seq<u8>> {
    seq![minter_tag(), owner, seq![bump]]
}

/// Signer seeds of a version-2 minter identity.
pub open spec fn minter_v2_signer_view(owner: Seq<u8>, bump: u8) -> Seq<Seq<u8>> {
    seq![minter_v2_tag(), owner, seq![bump]]
}

/// Signer seeds of a collectionless mint address.
pub open spec fn mint_signer_view(count: u32, bump: u8) -> Seq<Seq<u8>> {
    seq![mint_tag(), spec_u32_to_le_bytes(count), seq![bump]]
}

/// Signer seeds of a collection-tagged mint address.
pub open spec fn mint_v2_signer_view(count: u32, bump: u8) -> Seq<Seq<u8>> {
    seq![mint_v2_tag(), spec_u32_to_le_bytes(count), seq![bump]]
}

/// Derive the address of the version-1 minter record of `owner`.
pub fn derive_minter_address(program_id: &Address, owner: &Address) -> (r: Result<
    (Address, u8),
    MinterError,
>)
    ensures
        (r is Ok) == (pda_of(minter_seeds_view(owner@), program_id@) is Some),
        r matches Ok(p) ==> Some((p.0@, p.1)) == pda_of(minter_seeds_view(owner@), program_id@),
        r matches Err(e) ==> e == MinterError::DerivationExhausted,
{
    match find_pda(&minter_seeds(owner), program_id) {
        Some(p) => Ok(p),
        None => Err(MinterError::DerivationExhausted),
    }
}

/// Derive the address of the version-2 minter record of `owner`.
pub fn derive_minter_v2_address(program_id: &Address, owner: &Address) -> (r: Result<
    (Address, u8),
    MinterError,
>)
    ensures
        (r is Ok) == (pda_of(minter_v2_seeds_view(owner@), program_id@) is Some),
        r matches Ok(p) ==> Some((p.0@, p.1)) == pda_of(minter_v2_seeds_view(owner@), program_id@),
        r matches Err(e) ==> e == MinterError::DerivationExhausted,
{
    match find_pda(&minter_v2_seeds(owner), program_id) {
        Some(p) => Ok(p),
        None => Err(MinterError::DerivationExhausted),
    }
}

/// Derive the collectionless mint address for counter value `count`.
pub fn derive_mint_address(program_id: &Address, count: u32) -> (r: Result<
    (Address, u8),
    MinterError,
>)
    ensures
        (r is Ok) == (pda_of(mint_seeds_view(count), program_id@) is Some),
        r matches Ok(p) ==> Some((p.0@, p.1)) == pda_of(mint_seeds_view(count), program_id@),
        r matches Err(e) ==> e == MinterError::DerivationExhausted,
{
    match find_pda(&mint_seeds(count), program_id) {
        Some(p) => Ok(p),
        None => Err(MinterError::DerivationExhausted),
    }
}

/// Derive the collection-tagged mint address for counter value `count`.
pub fn derive_mint_v2_address(program_id: &Address, count: u32) -> (r: Result<
    (Address, u8),
    MinterError,
>)
    ensures
        (r is Ok) == (pda_of(mint_v2_seeds_view(count), program_id@) is Some),
        r matches Ok(p) ==> Some((p.0@, p.1)) == pda_of(mint_v2_seeds_view(count), program_id@),
        r matches Err(e) ==> e == MinterError::DerivationExhausted,
{
    match find_pda(&mint_v2_seeds(count), program_id) {
        Some(p) => Ok(p),
        None => Err(MinterError::DerivationExhausted),
    }
}

/// The signer proof of the version-1 minter identity of `owner`: re-derives
/// the record's bump and appends it to the seed family.
pub fn minter_authority(program_id: &Address, owner: &Address) -> (r: Result<
    SignerProof,
    MinterError,
>)
    ensures
        (r is Ok) == (pda_of(minter_seeds_view(owner@), program_id@) is Some),
        r matches Ok(p) ==> p@ == minter_signer_view(
            owner@,
            pda_bump(minter_seeds_view(owner@), program_id@),
        ),
        r matches Err(e) ==> e == MinterError::DerivationExhausted,
{
    let (_, bump) = derive_minter_address(program_id, owner)?;
    let mut seeds = minter_seeds(owner);
    let ghost pre = seeds;
    let mut bump_seed: Vec<u8> = Vec::new();
    bump_seed.push(bump);
    seeds.push(bump_seed);
    proof {
        lemma_deep_view_push(pre, seeds);
        assert(seeds@[pre@.len() as int]@ =~= seq![bump]);
        assert(seeds.deep_view() =~~= minter_signer_view(
            owner@,
            pda_bump(minter_seeds_view(owner@), program_id@),
        ));
    }
    Ok(SignerProof { seeds })
}

/// The signer proof of the version-2 minter identity of `owner`.
pub fn minter_v2_authority(program_id: &Address, owner: &Address) -> (r: Result<
    SignerProof,
    MinterError,
>)
    ensures
        (r is Ok) == (pda_of(minter_v2_seeds_view(owner@), program_id@) is Some),
        r matches Ok(p) ==> p@ == minter_v2_signer_view(
            owner@,
            pda_bump(minter_v2_seeds_view(owner@), program_id@),
        ),
        r matches Err(e) ==> e == MinterError::DerivationExhausted,
{
    let (_, bump) = derive_minter_v2_address(program_id, owner)?;
    let mut seeds = minter_v2_seeds(owner);
    let ghost pre = seeds;
    let mut bump_seed: Vec<u8> = Vec::new();
    bump_seed.push(bump);
    seeds.push(bump_seed);
    proof {
        lemma_deep_view_push(pre, seeds);
        assert(seeds@[pre@.len() as int]@ =~= seq![bump]);
        assert(seeds.deep_view() =~~= minter_v2_signer_view(
            owner@,
            pda_bump(minter_v2_seeds_view(owner@), program_id@),
        ));
    }
    Ok(SignerProof { seeds })
}

/// The signer proof of a collectionless mint address, from its counter value
/// and the bump that its derivation returned.
pub fn mint_authority(count: u32, bump: u8) -> (r: SignerProof)
    ensures
        r@ == mint_signer_view(count, bump),
{
    let mut seeds = mint_seeds(count);
    let ghost pre = seeds;
    let mut bump_seed: Vec<u8> = Vec::new();
    bump_seed.push(bump);
    seeds.push(bump_seed);
    proof {
        lemma_deep_view_push(pre, seeds);
        assert(seeds@[pre@.len() as int]@ =~= seq![bump]);
        assert(seeds.deep_view() =~~= mint_signer_view(count, bump));
    }
    SignerProof { seeds }
}

/// The signer proof of a collection-tagged mint address.
pub fn mint_v2_authority(count: u32, bump: u8) -> (r: SignerProof)
    ensures
        r@ == mint_v2_signer_view(count, bump),
{
    let mut seeds = mint_v2_seeds(count);
    let ghost pre = seeds;
    let mut bump_seed: Vec<u8> = Vec::new();
    bump_seed.push(bump);
    seeds.push(bump_seed);
    proof {
        lemma_deep_view_push(pre, seeds);
        assert(seeds@[pre@.len() as int]@ =~= seq![bump]);
        assert(seeds.deep_view() =~~= mint_v2_signer_view(count, bump));
    }
    SignerProof { seeds }
}

} // verus!
