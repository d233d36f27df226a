use pallet_template::pallet::Origin;
use pallet_template::poe::ClaimError;
use pallet_template::poe::PoeModule;

/// The longest claim that the test chain accepts.
const MAX_CLAIM_LENGTH: u32 = 6;

fn new_test_ext() -> PoeModule {
    PoeModule::new(MAX_CLAIM_LENGTH)
}

#[test]
fn create_claim_works() {
    let mut poe = new_test_ext();
    let claim = vec![0, 1];
    assert_eq!(poe.create_claim(Origin::Signed(1), claim.clone()), Ok(()));
    assert_eq!(poe.proofs(&claim), (1, poe.block_number()));
}

#[test]
fn create_claim_exist() {
    let mut poe = new_test_ext();
    let claim = vec![0, 1];
    let _ = poe.create_claim(Origin::Signed(1), claim.clone());
    let before = poe.proofs(&claim);
    assert_eq!(
        poe.create_claim(Origin::Signed(1), claim.clone()),
        Err(ClaimError::ProofAlreadyExist)
    );
    assert_eq!(poe.proofs(&claim), before);
}

#[test]
fn create_claim_too_long() {
    let mut poe = new_test_ext();
    let claim = vec![0, 1, 2, 3, 4, 5, 6, 7];
    assert_eq!(
        poe.create_claim(Origin::Signed(1), claim.clone()),
        Err(ClaimError::ProofTooLong)
    );
    assert!(!poe.contains_claim(&claim));
}

#[test]
fn revoke_claim_works() {
    let mut poe = new_test_ext();
    let claim = vec![0, 1];
    let _ = poe.create_claim(Origin::Signed(1), claim.clone());
    assert_eq!(poe.revoke_claim(Origin::Signed(1), claim.clone()), Ok(()));
}

#[test]
fn revoke_claim_not_exist() {
    let mut poe = new_test_ext();
    let claim = vec![0, 1];
    assert_eq!(
        poe.revoke_claim(Origin::Signed(1), claim.clone()),
        Err(ClaimError::ClaimNotExist)
    );
    assert!(!poe.contains_claim(&claim));
}

#[test]
fn revoke_claim_not_owner() {
    let mut poe = new_test_ext();
    let claim = vec![0, 1];
    let _ = poe.create_claim(Origin::Signed(1), claim.clone());
    let before = poe.proofs(&claim);
    assert_eq!(
        poe.revoke_claim(Origin::Signed(2), claim.clone()),
        Err(ClaimError::NotClaimOwner)
    );
    assert_eq!(poe.proofs(&claim), before);
}

#[test]
fn transfer_claim_works() {
    let mut poe = new_test_ext();
    let claim = vec![0, 1];
    let _ = poe.create_claim(Origin::Signed(1), claim.clone());
    assert_eq!(poe.transfer_claim(Origin::Signed(1), claim.clone(), 2), Ok(()));
}

#[test]
fn transfer_claim_not_exist() {
    let mut poe = new_test_ext();
    let claim = vec![0, 1];
    assert_eq!(
        poe.transfer_claim(Origin::Signed(1), claim.clone(), 2),
        Err(ClaimError::ClaimNotExist)
    );
    assert!(!poe.contains_claim(&claim));
}

#[test]
fn transfer_claim_not_owner() {
    let mut poe = new_test_ext();
    let claim = vec![0, 1];
    let _ = poe.create_claim(Origin::Signed(1), claim.clone());
    let before = poe.proofs(&claim);
    assert_eq!(
        poe.transfer_claim(Origin::Signed(2), claim.clone(), 3),
        Err(ClaimError::NotClaimOwner)
    );
    assert_eq!(poe.proofs(&claim), before);
}

#[test]
fn transfer_then_new_owner_revokes() {
    let mut poe = new_test_ext();
    let claim = vec![9, 9, 9];
    poe.set_block_number(5);
    assert_eq!(poe.create_claim(Origin::Signed(1), claim.clone()), Ok(()));
    assert_eq!(poe.proofs(&claim), (1, 5));
    poe.set_block_number(8);
    assert_eq!(poe.transfer_claim(Origin::Signed(1), claim.clone(), 2), Ok(()));
    assert_eq!(poe.proofs(&claim), (2, 8));
    assert_eq!(poe.revoke_claim(Origin::Signed(1), claim.clone()), Err(ClaimError::NotClaimOwner));
    assert_eq!(poe.revoke_claim(Origin::Signed(2), claim.clone()), Ok(()));
    assert!(!poe.contains_claim(&claim));
    assert_eq!(poe.proofs(&claim), (0, 0));
}

#[test]
fn revoke_undoes_create_keeps_other_claims() {
    let mut poe = new_test_ext();
    let a = vec![1];
    let b = vec![2, 2];
    assert_eq!(poe.create_claim(Origin::Signed(7), a.clone()), Ok(()));
    assert_eq!(poe.create_claim(Origin::Signed(8), b.clone()), Ok(()));
    assert_eq!(poe.revoke_claim(Origin::Signed(7), a.clone()), Ok(()));
    assert!(!poe.contains_claim(&a));
    assert_eq!(poe.proofs(&b), (8, 0));
    assert_eq!(poe.create_claim(Origin::Signed(9), a.clone()), Ok(()));
    assert_eq!(poe.proofs(&a), (9, 0));
}

#[test]
fn unsigned_claim_calls_refused() {
    let mut poe = new_test_ext();
    let claim = vec![0];
    assert_eq!(poe.create_claim(Origin::Root, claim.clone()), Err(ClaimError::BadOrigin));
    assert_eq!(poe.create_claim(Origin::Unsigned, claim.clone()), Err(ClaimError::BadOrigin));
    assert!(!poe.contains_claim(&claim));
    assert_eq!(poe.create_claim(Origin::Signed(1), claim.clone()), Ok(()));
    assert_eq!(poe.revoke_claim(Origin::Root, claim.clone()), Err(ClaimError::BadOrigin));
    assert_eq!(poe.transfer_claim(Origin::Unsigned, claim.clone(), 4), Err(ClaimError::BadOrigin));
    assert_eq!(poe.proofs(&claim), (1, 0));
}

#[test]
fn claim_of_exactly_max_length_accepted() {
    let mut poe = new_test_ext();
    let claim = vec![1, 2, 3, 4, 5, 6];
    assert_eq!(poe.create_claim(Origin::Signed(1), claim.clone()), Ok(()));
    let longer = vec![1, 2, 3, 4, 5, 6, 7];
    assert_eq!(poe.create_claim(Origin::Signed(1), longer), Err(ClaimError::ProofTooLong));
}
