//! A proof-of-existence pallet: an account claims a byte string (a digest
//! of a document) and becomes its owner, recorded with the block in which it
//! claimed it; the owner can revoke the claim or transfer it to another
//! account.

use vstd::prelude::*;
use crate::pallet::AccountId;
use crate::pallet::Origin;
use crate::pallet::signer_of;

verus! {

/// The number of a block.
pub type BlockNumber = u64;

/// Why a claim call was refused.
#[derive(Clone, Copy, Debug, PartialEq, Eq, Structural)]
pub enum ClaimError {
    /// The call was not signed.
    BadOrigin,
    /// The claim already has an owner.
    ProofAlreadyExist,
    /// The claim is longer than the pallet accepts.
    ProofTooLong,
    /// Nobody owns the claim.
    ClaimNotExist,
    /// The signer does not own the claim.
    NotClaimOwner,
}

/// One stored claim: its bytes, its owner and the block in which the owner
/// got it.
pub struct ClaimRecord {
    claim: Vec<u8>,
    owner: AccountId,
    block_number: BlockNumber,
}

/// The `Proofs` storage map: each claimed byte string, with its owner and
/// the block in which the owner got it.
pub type ProofsMap = Map<Seq<u8>, (AccountId, BlockNumber)>;

/// The map that a list of records stands for.
spec fn records_map(rs: Seq<ClaimRecord>) -> ProofsMap
    decreases rs.len(),
{
    if rs.len() == 0 {
        Map::empty()
    } else {
        records_map(rs.drop_last()).insert(rs.last().claim@, (rs.last().owner, rs.last().block_number))
    }
}

/// No byte string is claimed twice.
spec fn distinct_claims(rs: Seq<ClaimRecord>) -> bool {
    forall|i: int, j: int| 0 <= i < rs.len() && 0 <= j < rs.len() && i != j
        ==> rs[i].claim@ != rs[j].claim@
}

/// The map holds exactly the records' claims, each with its record's
/// owner and block.
proof fn lemma_records_map(rs: Seq<ClaimRecord>)
    requires
        distinct_claims(rs),
    ensures
        forall|i: int| 0 <= i < rs.len() ==> {
            &&& #[trigger] records_map(rs).contains_key(rs[i].claim@)
            &&& records_map(rs)[rs[i].claim@] == (rs[i].owner, rs[i].block_number)
        },
        forall|k: Seq<u8>| #[trigger] records_map(rs).contains_key(k)
            ==> exists|i: int| 0 <= i < rs.len() && rs[i].claim@ == k,
    decreases rs.len(),
{
    if rs.len() > 0 {
        let init = rs.drop_last();
        assert(distinct_claims(init));
        lemma_records_map(init);
        assert forall|i: int| 0 <= i < rs.len() implies {
            &&& #[trigger] records_map(rs).contains_key(rs[i].claim@)
            &&& records_map(rs)[rs[i].claim@] == (rs[i].owner, rs[i].block_number)
        } by {
            if i < rs.len() - 1 {
                assert(init[i] == rs[i]);
                assert(records_map(init).contains_key(init[i].claim@));
                assert(rs[i].claim@ != rs[rs.len() - 1].claim@);
            }
        }
        assert forall|k: Seq<u8>| #[trigger] records_map(rs).contains_key(k)
            implies exists|i: int| 0 <= i < rs.len() && rs[i].claim@ == k by {
            if k != rs.last().claim@ {
                assert(records_map(init).contains_key(k));
                let i = choose|i: int| 0 <= i < init.len() && init[i].claim@ == k;
                assert(rs[i] == init[i]);
            } else {
                assert(rs[rs.len() - 1].claim@ == k);
            }
        }
    }
}

/// Changing the owner and block of the record at `i` changes the map at
/// that claim only.
proof fn lemma_records_map_update(rs: Seq<ClaimRecord>, i: int, r: ClaimRecord)
    requires
        distinct_claims(rs),
        0 <= i < rs.len(),
        r.claim@ == rs[i].claim@,
    ensures
        records_map(rs.update(i, r)) == records_map(rs).insert(r.claim@, (r.owner, r.block_number)),
    decreases rs.len(),
{
    let rs2 = rs.update(i, r);
    if i == rs.len() - 1 {
        assert(rs2.drop_last() =~= rs.drop_last());
        assert(records_map(rs2) =~= records_map(rs).insert(r.claim@, (r.owner, r.block_number)));
    } else {
        let init = rs.drop_last();
        assert(distinct_claims(init));
        lemma_records_map_update(init, i, r);
        assert(rs2.drop_last() =~= init.update(i, r));
        assert(rs[i].claim@ != rs.last().claim@);
        assert(records_map(rs2) =~= records_map(rs).insert(r.claim@, (r.owner, r.block_number)));
    }
}

/// Removing the record at `i` removes its claim from the map.
proof fn lemma_records_map_remove(rs: Seq<ClaimRecord>, i: int)
    requires
        distinct_claims(rs),
        0 <= i < rs.len(),
    ensures
        records_map(rs.remove(i)) == records_map(rs).remove(rs[i].claim@),
    decreases rs.len(),
{
    let init = rs.drop_last();
    assert(distinct_claims(init));
    lemma_records_map(init);
    if i == rs.len() - 1 {
        assert(rs.remove(i) =~= init);
        if records_map(init).contains_key(rs[i].claim@) {
            let j = choose|j: int| 0 <= j < init.len() && init[j].claim@ == rs[i].claim@;
            assert(rs[j] == init[j]);
        }
        assert(records_map(rs.remove(i)) =~= records_map(rs).remove(rs[i].claim@));
    } else {
        lemma_records_map_remove(init, i);
        assert(rs.remove(i).drop_last() =~= init.remove(i));
        assert(rs.remove(i).last() == rs.last());
        assert(rs[i].claim@ != rs.last().claim@);
        assert(records_map(rs.remove(i)) =~= records_map(rs).remove(rs[i].claim@));
    }
}

/// Whether two byte strings are equal.
fn bytes_equal(a: &[u8], b: &[u8]) -> (res: bool)
    ensures
        res == (a@ == b@),
{
    if a.len() != b.len() {
        return false;
    }
    let mut i: usize = 0;
    while i < a.len()
        invariant
            a@.len() == b@.len(),
            i <= a@.len(),
            forall|j: int| 0 <= j < i ==> a@[j] == b@[j],
        decreases a@.len() - i,
    {
        if a[i] != b[i] {
            return false;
        }
        i = i + 1;
    }
    assert(a@ =~= b@);
    true
}

/// The outcome of `create_claim` on a state: the result and the new map.
pub open spec fn spec_create_claim(proofs: ProofsMap, max_claim_length: u32, now: BlockNumber,
    origin: Origin, claim: Seq<u8>) -> (Result<(), ClaimError>, ProofsMap)
{
    match signer_of(origin) {
        None => (Err(ClaimError::BadOrigin), proofs),
        Some(who) =>
            if proofs.contains_key(claim) {
                (Err(ClaimError::ProofAlreadyExist), proofs)
            } else if claim.len() > max_claim_length {
                (Err(ClaimError::ProofTooLong), proofs)
            } else {
                (Ok(()), proofs.insert(claim, (who, now)))
            },
    }
}

/// The outcome of `revoke_claim` on a state: the result and the new map.
pub open spec fn spec_revoke_claim(proofs: ProofsMap, origin: Origin, claim: Seq<u8>)
    -> (Result<(), ClaimError>, ProofsMap)
{
    match signer_of(origin) {
        None => (Err(ClaimError::BadOrigin), proofs),
        Some(who) =>
            if !proofs.contains_key(claim) {
                (Err(ClaimError::ClaimNotExist), proofs)
            } else if proofs[claim].0 != who {
                (Err(ClaimError::NotClaimOwner), proofs)
            } else {
                (Ok(()), proofs.remove(claim))
            },
    }
}

/// The outcome of `transfer_claim` on a state: the result and the new map.
pub open spec fn spec_transfer_claim(proofs: ProofsMap, now: BlockNumber, origin: Origin,
    claim: Seq<u8>, dest: AccountId) -> (Result<(), ClaimError>, ProofsMap)
{
    match signer_of(origin) {
        None => (Err(ClaimError::BadOrigin), proofs),
        Some(who) =>
            if !proofs.contains_key(claim) {
                (Err(ClaimError::ClaimNotExist), proofs)
            } else if proofs[claim].0 != who {
                (Err(ClaimError::NotClaimOwner), proofs)
            } else {
                (Ok(()), proofs.insert(claim, (dest, now)))
            },
    }
}

/// Only a signed call can change the claims: a call from any other origin
/// is refused with `BadOrigin` and changes nothing.
pub proof fn lemma_unsigned_calls_refused(proofs: ProofsMap, max_claim_length: u32, now: BlockNumber,
    origin: Origin, claim: Seq<u8>, dest: AccountId)
    requires
        !(origin is Signed),
    ensures
        spec_create_claim(proofs, max_claim_length, now, origin, claim) == (Err::<(), ClaimError>(ClaimError::BadOrigin), proofs),
        spec_revoke_claim(proofs, origin, claim) == (Err::<(), ClaimError>(ClaimError::BadOrigin), proofs),
        spec_transfer_claim(proofs, now, origin, claim, dest) == (Err::<(), ClaimError>(ClaimError::BadOrigin), proofs),
{
}

/// Creating a claim that nobody owns and that is no longer than the
/// pallet accepts succeeds, whatever other claims are stored (by the same
/// signer or others), and records the signer and the current block; a
/// claim that nobody owns but that is too long is refused with
/// `ProofTooLong`.  A successful creation needs the claim free and short
/// enough.
pub proof fn lemma_create_claim(proofs: ProofsMap, max_claim_length: u32, now: BlockNumber,
    who: AccountId, claim: Seq<u8>)
    ensures
        !proofs.contains_key(claim) && claim.len() <= max_claim_length
            ==> spec_create_claim(proofs, max_claim_length, now, Origin::Signed(who), claim)
                == (Ok::<(), ClaimError>(()), proofs.insert(claim, (who, now))),
        !proofs.contains_key(claim) && claim.len() > max_claim_length
            ==> spec_create_claim(proofs, max_claim_length, now, Origin::Signed(who), claim).0
                == Err::<(), ClaimError>(ClaimError::ProofTooLong),
        spec_create_claim(proofs, max_claim_length, now, Origin::Signed(who), claim).0 is Ok
            ==> !proofs.contains_key(claim) && claim.len() <= max_claim_length,
{
}

/// Revoking a claim that nobody owns is refused with `ClaimNotExist`,
/// whatever other claims are stored; revoking a claim owned by someone
/// else is refused with `NotClaimOwner`; the owner's revocation succeeds
/// and removes just that claim.  A successful revocation needs the signer
/// to own the claim.
pub proof fn lemma_revoke_claim(proofs: ProofsMap, who: AccountId, claim: Seq<u8>)
    ensures
        !proofs.contains_key(claim)
            ==> spec_revoke_claim(proofs, Origin::Signed(who), claim)
                == (Err::<(), ClaimError>(ClaimError::ClaimNotExist), proofs),
        proofs.contains_key(claim) && proofs[claim].0 != who
            ==> spec_revoke_claim(proofs, Origin::Signed(who), claim)
                == (Err::<(), ClaimError>(ClaimError::NotClaimOwner), proofs),
        proofs.contains_key(claim) && proofs[claim].0 == who
            ==> spec_revoke_claim(proofs, Origin::Signed(who), claim)
                == (Ok::<(), ClaimError>(()), proofs.remove(claim)),
        spec_revoke_claim(proofs, Origin::Signed(who), claim).0 is Ok
            ==> proofs.contains_key(claim) && proofs[claim].0 == who,
{
}

/// Transferring a claim that nobody owns is refused with `ClaimNotExist`;
/// transferring a claim that the signer does not own is refused with
/// `NotClaimOwner`, whatever `dest` is; the owner's transfer succeeds and
/// records `dest` at the current block.  A successful transfer needs the
/// signer to have owned the claim.
pub proof fn lemma_transfer_claim(proofs: ProofsMap, now: BlockNumber, who: AccountId,
    claim: Seq<u8>, dest: AccountId)
    ensures
        !proofs.contains_key(claim)
            ==> spec_transfer_claim(proofs, now, Origin::Signed(who), claim, dest)
                == (Err::<(), ClaimError>(ClaimError::ClaimNotExist), proofs),
        proofs.contains_key(claim) && proofs[claim].0 != who
            ==> spec_transfer_claim(proofs, now, Origin::Signed(who), claim, dest)
                == (Err::<(), ClaimError>(ClaimError::NotClaimOwner), proofs),
        proofs.contains_key(claim) && proofs[claim].0 == who
            ==> spec_transfer_claim(proofs, now, Origin::Signed(who), claim, dest)
                == (Ok::<(), ClaimError>(()), proofs.insert(claim, (dest, now))),
        spec_transfer_claim(proofs, now, Origin::Signed(who), claim, dest).0 is Ok
            ==> proofs.contains_key(claim) && proofs[claim].0 == who,
{
}

/// A call touches only the claim it names: every other claim is stored
/// afterwards exactly as before, whatever the call's outcome.
pub proof fn lemma_other_claims_untouched(proofs: ProofsMap, max_claim_length: u32, now: BlockNumber,
    origin: Origin, claim: Seq<u8>, dest: AccountId, other: Seq<u8>)
    requires
        other != claim,
    ensures
        spec_create_claim(proofs, max_claim_length, now, origin, claim).1.contains_key(other) == proofs.contains_key(other),
        spec_create_claim(proofs, max_claim_length, now, origin, claim).1[other] == proofs[other],
        spec_revoke_claim(proofs, origin, claim).1.contains_key(other) == proofs.contains_key(other),
        spec_revoke_claim(proofs, origin, claim).1[other] == proofs[other],
        spec_transfer_claim(proofs, now, origin, claim, dest).1.contains_key(other) == proofs.contains_key(other),
        spec_transfer_claim(proofs, now, origin, claim, dest).1[other] == proofs[other],
{
}

/// A refused call leaves the claims as they were.
pub proof fn lemma_refused_calls_change_nothing(proofs: ProofsMap, max_claim_length: u32,
    now: BlockNumber, origin: Origin, claim: Seq<u8>, dest: AccountId)
    ensures
        spec_create_claim(proofs, max_claim_length, now, origin, claim).0 is Err
            ==> spec_create_claim(proofs, max_claim_length, now, origin, claim).1 == proofs,
        spec_revoke_claim(proofs, origin, claim).0 is Err
            ==> spec_revoke_claim(proofs, origin, claim).1 == proofs,
        spec_transfer_claim(proofs, now, origin, claim, dest).0 is Err
            ==> spec_transfer_claim(proofs, now, origin, claim, dest).1 == proofs,
{
}

/// A claim has at most one owner: claiming a byte string that is already
/// claimed is refused with `ProofAlreadyExist`, whoever signs.
pub proof fn lemma_claim_taken_once(proofs: ProofsMap, max_claim_length: u32, now: BlockNumber,
    who: AccountId, claim: Seq<u8>)
    requires
        proofs.contains_key(claim),
    ensures
        spec_create_claim(proofs, max_claim_length, now, Origin::Signed(who), claim).0
            == Err::<(), ClaimError>(ClaimError::ProofAlreadyExist),
{
}

/// Revoking a claim right after creating it, signed by the same account,
/// succeeds and restores the claims as they were.
pub proof fn lemma_revoke_undoes_create(proofs: ProofsMap, max_claim_length: u32, now: BlockNumber,
    who: AccountId, claim: Seq<u8>)
    requires
        spec_create_claim(proofs, max_claim_length, now, Origin::Signed(who), claim).0 is Ok,
    ensures
        spec_revoke_claim(spec_create_claim(proofs, max_claim_length, now, Origin::Signed(who), claim).1,
            Origin::Signed(who), claim) == (Ok::<(), ClaimError>(()), proofs),
{
    assert(proofs.insert(claim, (who, now)).remove(claim) =~= proofs);
}

/// A successful transfer makes `dest` the owner, recorded at the current
/// block, and changes no other claim; the former owner, if it is not
/// `dest`, can no longer revoke the claim.
pub proof fn lemma_transfer_moves_ownership(proofs: ProofsMap, now: BlockNumber, who: AccountId,
    claim: Seq<u8>, dest: AccountId)
    requires
        spec_transfer_claim(proofs, now, Origin::Signed(who), claim, dest).0 is Ok,
    ensures
        ({
            let after = spec_transfer_claim(proofs, now, Origin::Signed(who), claim, dest).1;
            &&& after.dom() == proofs.dom()
            &&& after[claim] == (dest, now)
            &&& forall|k: Seq<u8>| k != claim && #[trigger] proofs.contains_key(k) ==> after[k] == proofs[k]
            &&& who != dest ==> spec_revoke_claim(after, Origin::Signed(who), claim).0
                == Err::<(), ClaimError>(ClaimError::NotClaimOwner)
        }),
{
    let after = proofs.insert(claim, (dest, now));
    assert(after.dom() =~= proofs.dom());
}

/// The pallet's state: its configured longest claim, the current block
/// number, and the `Proofs` storage map.
pub struct PoeModule {
    max_claim_length: u32,
    block_number: BlockNumber,
    records: Vec<ClaimRecord>,
}

impl PoeModule {
    /// The stored claims.
    pub closed spec fn spec_proofs(&self) -> ProofsMap {
        records_map(self.records@)
    }

    /// The longest claim, in bytes, that the pallet accepts.
    pub closed spec fn spec_max_claim_length(&self) -> u32 {
        self.max_claim_length
    }

    /// The current block number.
    pub closed spec fn spec_block_number(&self) -> BlockNumber {
        self.block_number
    }

    /// The state is well formed: no claim is stored twice.
    #[verifier::type_invariant]
    spec fn wf(&self) -> bool {
        distinct_claims(self.records@)
    }

    /// The pallet at genesis: no claims, block 0, accepting claims of up to
    /// `max_claim_length` bytes.
    pub fn new(max_claim_length: u32) -> (m: Self)
        ensures
            m.spec_proofs() == ProofsMap::empty(),
            m.spec_max_claim_length() == max_claim_length,
            m.spec_block_number() == 0,
    {
        PoeModule { max_claim_length, block_number: 0, records: Vec::new() }
    }

    /// The current block number.
    pub fn block_number(&self) -> (res: BlockNumber)
        ensures
            res == self.spec_block_number(),
    {
        self.block_number
    }

    /// Moves the chain to block `n`.
    pub fn set_block_number(&mut self, n: BlockNumber)
        ensures
            final(self).spec_block_number() == n,
            final(self).spec_proofs() == old(self).spec_proofs(),
            final(self).spec_max_claim_length() == old(self).spec_max_claim_length(),
    {
        proof {
            use_type_invariant(&*self);
        }
        self.block_number = n;
    }

    /// The index of the record of `claim`, if it is stored.
    fn find(&self, claim: &[u8]) -> (res: Option<usize>)
        ensures
            res matches Some(i) ==> i < self.records@.len() && self.records@[i as int].claim@ == claim@,
            res is None ==> !self.spec_proofs().contains_key(claim@),
    {
        proof {
            use_type_invariant(self);
        }
        let mut i: usize = 0;
        while i < self.records.len()
            invariant
                i <= self.records@.len(),
                forall|j: int| 0 <= j < i ==> self.records@[j].claim@ != claim@,
            decreases self.records@.len() - i,
        {
            if bytes_equal(self.records[i].claim.as_slice(), claim) {
                return Some(i);
            }
            i = i + 1;
        }
        proof {
            use_type_invariant(&*self);
            lemma_records_map(self.records@);
        }
        None
    }

    /// Whether `claim` is stored.
    pub fn contains_claim(&self, claim: &[u8]) -> (res: bool)
        ensures
            res == self.spec_proofs().contains_key(claim@),
    {
        proof {
            use_type_invariant(&*self);
            lemma_records_map(self.records@);
        }
        self.find(claim).is_some()
    }

    /// The `Proofs` entry of `claim`: its owner and the block in which the
    /// owner got it, or `(0, 0)` if nobody owns it.
    pub fn proofs(&self, claim: &[u8]) -> (res: (AccountId, BlockNumber))
        ensures
            res == if self.spec_proofs().contains_key(claim@) { self.spec_proofs()[claim@] } else { (0, 0) },
    {
        proof {
            use_type_invariant(&*self);
            lemma_records_map(self.records@);
        }
        match self.find(claim) {
            Some(i) => (self.records[i].owner, self.records[i].block_number),
            None => (0, 0),
        }
    }

    /// Claims `claim` for the signer, at the current block.  Refused when
    /// the call is not signed, when the claim already has an owner, or when
    /// it is longer than the pallet accepts; a refused call changes nothing.
    pub fn create_claim(&mut self, origin: Origin, claim: Vec<u8>) -> (res: Result<(), ClaimError>)
        ensures
            (res, final(self).spec_proofs()) == spec_create_claim(old(self).spec_proofs(),
                old(self).spec_max_claim_length(), old(self).spec_block_number(), origin, claim@),
            final(self).spec_block_number() == old(self).spec_block_number(),
            final(self).spec_max_claim_length() == old(self).spec_max_claim_length(),
    {
        proof {
            use_type_invariant(&*self);
            lemma_records_map(self.records@);
        }
        let who = match origin {
            Origin::Signed(who) => who,
            _ => return Err(ClaimError::BadOrigin),
        };
        if self.find(claim.as_slice()).is_some() {
            return Err(ClaimError::ProofAlreadyExist);
        }
        if claim.len() as u64 > self.max_claim_length as u64 {
            return Err(ClaimError::ProofTooLong);
        }
        let record = ClaimRecord { claim, owner: who, block_number: self.block_number };
        let mut records: Vec<ClaimRecord> = Vec::new();
        std::mem::swap(&mut records, &mut self.records);
        let ghost old_records = records@;
        records.push(record);
        proof {
            assert(records@.drop_last() =~= old_records);
            assert forall|i: int, j: int| 0 <= i < records@.len() && 0 <= j < records@.len() && i != j
                implies records@[i].claim@ != records@[j].claim@ by {
                if i == old_records.len() as int {
                    assert(old_records[j] == records@[j]);
                } else if j == old_records.len() as int {
                    assert(old_records[i] == records@[i]);
                } else {
                    assert(old_records[i] == records@[i]);
                    assert(old_records[j] == records@[j]);
                }
            }
        }
        self.records = records;
        Ok(())
    }

    /// Removes `claim`, which the signer owns.  Refused when the call is not
    /// signed, when nobody owns the claim, or when the signer does not own
    /// it; a refused call changes nothing.
    pub fn revoke_claim(&mut self, origin: Origin, claim: Vec<u8>) -> (res: Result<(), ClaimError>)
        ensures
            (res, final(self).spec_proofs()) == spec_revoke_claim(old(self).spec_proofs(), origin, claim@),
            final(self).spec_block_number() == old(self).spec_block_number(),
            final(self).spec_max_claim_length() == old(self).spec_max_claim_length(),
    {
        proof {
            use_type_invariant(&*self);
            lemma_records_map(self.records@);
        }
        let who = match origin {
            Origin::Signed(who) => who,
            _ => return Err(ClaimError::BadOrigin),
        };
        let i = match self.find(claim.as_slice()) {
            Some(i) => i,
            None => return Err(ClaimError::ClaimNotExist),
        };
        if self.records[i].owner != who {
            return Err(ClaimError::NotClaimOwner);
        }
        let mut records: Vec<ClaimRecord> = Vec::new();
        std::mem::swap(&mut records, &mut self.records);
        let ghost old_records = records@;
        let _ = records.remove(i);
        proof {
            lemma_records_map_remove(old_records, i as int);
            assert forall|a: int, b: int| 0 <= a < records@.len() && 0 <= b < records@.len() && a != b
                implies records@[a].claim@ != records@[b].claim@ by {
                let a0 = if a < i { a } else { a + 1 };
                let b0 = if b < i { b } else { b + 1 };
                assert(records@[a] == old_records[a0]);
                assert(records@[b] == old_records[b0]);
            }
        }
        self.records = records;
        Ok(())
    }

    /// Gives `claim`, which the signer owns, to `dest`, recorded at the
    /// current block.  Refused when the call is not signed, when nobody owns
    /// the claim, or when the signer does not own it; a refused call changes
    /// nothing.
    pub fn transfer_claim(&mut self, origin: Origin, claim: Vec<u8>, dest: AccountId) -> (res: Result<(), ClaimError>)
        ensures
            (res, final(self).spec_proofs()) == spec_transfer_claim(old(self).spec_proofs(),
                old(self).spec_block_number(), origin, claim@, dest),
            final(self).spec_block_number() == old(self).spec_block_number(),
            final(self).spec_max_claim_length() == old(self).spec_max_claim_length(),
    {
        proof {
            use_type_invariant(&*self);
            lemma_records_map(self.records@);
        }
        let who = match origin {
            Origin::Signed(who) => who,
            _ => return Err(ClaimError::BadOrigin),
        };
        let i = match self.find(claim.as_slice()) {
            Some(i) => i,
            None => return Err(ClaimError::ClaimNotExist),
        };
        if self.records[i].owner != who {
            return Err(ClaimError::NotClaimOwner);
        }
        let record = ClaimRecord { claim, owner: dest, block_number: self.block_number };
        let mut records: Vec<ClaimRecord> = Vec::new();
        std::mem::swap(&mut records, &mut self.records);
        let ghost old_records = records@;
        records.set(i, record);
        proof {
            lemma_records_map_update(old_records, i as int, records@[i as int]);
            assert(records@ =~= old_records.update(i as int, records@[i as int]));
            assert forall|a: int, b: int| 0 <= a < records@.len() && 0 <= b < records@.len() && a != b
                implies records@[a].claim@ != records@[b].claim@ by {
                assert(records@[a].claim@ == old_records[a].claim@);
                assert(records@[b].claim@ == old_records[b].claim@);
            }
        }
        self.records = records;
        Ok(())
    }
}

} // verus!
