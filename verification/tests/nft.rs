use domain_service::nft::{is_zero_account, Approval, ApprovalForAll, Erc721, Error, Transfer};
use domain_service::resolver::Record;

const ALICE: [u8; 20] = [0x1; 20];
const BOB: [u8; 20] = [0x2; 20];
const EVE: [u8; 20] = [0x3; 20];
const FRANK: [u8; 20] = [0x4; 20];
const ZERO: [u8; 20] = [0x0; 20];

fn label_of(name: &str, owner: [u8; 20], expiry: u64) -> [u8; 32] {
    let mut out = [0u8; 32];
    ink::env::hash_encoded::<ink::env::hash::Sha2x256, _>(&(name, owner, expiry), &mut out);
    out
}

/// A directory in which `arpit.vne` and `arpitk.vne` are registered.
fn directory() -> Record {
    let mut d = Record::new([0xAD; 20], [0xAA; 20], 500);
    for name in ["arpit.vne", "arpitk.vne"] {
        let label = label_of(name, ALICE, 9_000);
        assert!(d.set_record(label, name.to_string(), ALICE, 100, [0; 32], [9; 20], 9_000));
    }
    d
}

fn mint(erc721: &mut Erc721, id: u64, name: &str, to: [u8; 20]) -> Result<(), Error> {
    erc721
        .mint(&directory(), id, name.to_string(), to, "arpit".to_string())
        .map(|_| ())
}

#[test]
fn mint_works() {
    // Create a new contract instance.
    let mut erc721 = Erc721::new([0x1; 20]);
    // Token 1 does not exists.
    assert_eq!(erc721.owner_of(1), None);
    // Alice does not owns tokens.
    assert_eq!(erc721.balance_of([0x1; 20]), 0);
    // Create token Id 1.
    assert_eq!(mint(&mut erc721, 1, "arpit.vne", [0x1; 20]), Ok(()));
    // Alice owns 1 token.
    assert_eq!(erc721.balance_of([0x1; 20]), 1);
}

#[test]
fn mint_existing_should_fail() {
    // Create a new contract instance.
    let mut erc721 = Erc721::new([0x0; 20]);
    let mut events = Vec::new();
    // Create token Id 1.
    let minted = erc721.mint(
        &directory(),
        1,
        "arpit.vne".to_string(),
        [0x1; 20],
        "arpit".to_string(),
    );
    assert_eq!(minted.map(|e| events.push(e)), Ok(()));
    // The first Transfer event takes place
    assert_eq!(1, events.len());
    // Alice owns 1 token.
    assert_eq!(erc721.balance_of([0x1; 20]), 1);
    // Alice owns token Id 1.
    assert_eq!(erc721.owner_of(1), Some([0x1; 20]));
    // Cannot create  token Id if it exists.
    // Bob cannot own token Id 1.
    assert_eq!(
        mint(&mut erc721, 1, "arpit.vne", [0x1; 20]),
        Err(Error::TokenExists)
    );
}

#[test]
fn transfer_works() {
    // Create a new contract instance.
    let mut erc721 = Erc721::new([0x0; 20]);
    let mut events = Vec::new();
    // Create token Id 1 for Alice
    let minted = erc721.mint(
        &directory(),
        1,
        "arpit.vne".to_string(),
        [0x1; 20],
        "arpit".to_string(),
    );
    assert_eq!(minted.map(|e| events.push(e)), Ok(()));
    // Alice owns token 1
    assert_eq!(erc721.balance_of([0x1; 20]), 1);
    // Bob does not owns any token
    assert_eq!(erc721.balance_of([0x2; 20]), 0);
    // The first Transfer event takes place
    assert_eq!(1, events.len());
    // Alice transfers token 1 to Bob
    assert_eq!(
        erc721.transfer(ALICE, [0x2; 20], 1).map(|e| events.push(e)),
        Ok(())
    );
    // The second Transfer event takes place
    assert_eq!(2, events.len());
    // Bob owns token 1
    assert_eq!(erc721.balance_of([0x2; 20]), 1);
}

#[test]
fn invalid_transfer_should_fail() {
    // Create a new contract instance.
    let mut erc721 = Erc721::new([0x0; 20]);
    // Transfer token fails if it does not exists.
    assert_eq!(
        erc721.transfer(ALICE, [0x2; 20], 1).map(|_| ()),
        Err(Error::TokenNotFound)
    );
    // Token Id 2 does not exists.
    assert_eq!(erc721.owner_of(2), None);
    // Create token Id 2.
    assert_eq!(mint(&mut erc721, 2, "arpit.vne", [0x1; 20]), Ok(()));
    // Alice owns 1 token.
    assert_eq!(erc721.balance_of([0x1; 20]), 1);
    // Token Id 2 is owned by Alice.
    assert_eq!(erc721.owner_of(2), Some([0x1; 20]));
    // Set Bob as caller
    // Bob cannot transfer not owned tokens.
    assert_eq!(
        erc721.transfer(BOB, [0x3; 20], 2).map(|_| ()),
        Err(Error::NotApproved)
    );
}

#[test]
fn approved_transfer_works() {
    // Create a new contract instance.
    let mut erc721 = Erc721::new([0x0; 20]);
    // Create token Id 1.
    assert_eq!(mint(&mut erc721, 1, "arpit.vne", [0x1; 20]), Ok(()));
    // Token Id 1 is owned by Alice.
    assert_eq!(erc721.owner_of(1), Some([0x1; 20]));
    // Approve token Id 1 transfer for Bob on behalf of Alice.
    assert_eq!(erc721.approve(ALICE, [0x2; 20], 1).map(|_| ()), Ok(()));
    // Set Bob as caller
    // Bob transfers token Id 1 from Alice to Eve.
    assert_eq!(
        erc721
            .transfer_from(BOB, [0x1; 20], [0x3; 20], 1)
            .map(|_| ()),
        Ok(())
    );
    // TokenId 3 is owned by Eve.
    assert_eq!(erc721.owner_of(1), Some([0x3; 20]));
    // Alice does not owns tokens.
    assert_eq!(erc721.balance_of([0x1; 20]), 0);
    // Bob does not owns tokens.
    assert_eq!(erc721.balance_of([0x2; 20]), 0);
    // Eve owns 1 token.
    assert_eq!(erc721.balance_of([0x3; 20]), 1);
}

#[test]
fn approved_for_all_works() {
    // Create a new contract instance.
    let mut erc721 = Erc721::new([0x0; 20]);
    // Create token Id 1.
    assert_eq!(mint(&mut erc721, 1, "arpit.vne", [0x1; 20]), Ok(()));
    // Create token Id 2.
    assert_eq!(mint(&mut erc721, 2, "arpitk.vne", [0x1; 20]), Ok(()));
    // Alice owns 2 tokens.
    assert_eq!(erc721.balance_of([0x1; 20]), 2);
    // Approve token Id 1 transfer for Bob on behalf of Alice.
    assert_eq!(
        erc721
            .set_approval_for_all(ALICE, [0x2; 20], true)
            .map(|_| ()),
        Ok(())
    );
    // Bob is an approved operator for Alice
    assert!(erc721.is_approved_for_all([0x1; 20], [0x2; 20]));
    // Set Bob as caller
    // Bob transfers token Id 1 from Alice to Eve.
    assert_eq!(
        erc721
            .transfer_from(BOB, [0x1; 20], [0x3; 20], 1)
            .map(|_| ()),
        Ok(())
    );
    // TokenId 1 is owned by Eve.
    assert_eq!(erc721.owner_of(1), Some([0x3; 20]));
    // Alice owns 1 token.
    assert_eq!(erc721.balance_of([0x1; 20]), 1);
    // Bob transfers token Id 2 from Alice to Eve.
    assert_eq!(
        erc721
            .transfer_from(BOB, [0x1; 20], [0x3; 20], 2)
            .map(|_| ()),
        Ok(())
    );
    // Bob does not own tokens.
    assert_eq!(erc721.balance_of([0x2; 20]), 0);
    // Eve owns 2 tokens.
    assert_eq!(erc721.balance_of([0x3; 20]), 2);
    // Remove operator approval for Bob on behalf of Alice.
    assert_eq!(
        erc721
            .set_approval_for_all(ALICE, [0x2; 20], false)
            .map(|_| ()),
        Ok(())
    );
    // Bob is not an approved operator for Alice.
    assert!(!erc721.is_approved_for_all([0x1; 20], [0x2; 20]));
}

#[test]
fn approve_nonexistent_token_should_fail() {
    // Create a new contract instance.
    let mut erc721 = Erc721::new([0x0; 20]);
    // Approve transfer of nonexistent token id 1
    assert_eq!(
        erc721.approve(ALICE, [0x2; 20], 1).map(|_| ()),
        Err(Error::TokenNotFound)
    );
}

#[test]
fn not_approved_transfer_should_fail() {
    // Create a new contract instance.
    let mut erc721 = Erc721::new([0x0; 20]);
    // Create token Id 1.
    assert_eq!(mint(&mut erc721, 1, "arpit.vne", [0x1; 20]), Ok(()));
    // Alice owns 1 token.
    assert_eq!(erc721.balance_of([0x1; 20]), 1);
    // Bob does not owns tokens.
    assert_eq!(erc721.balance_of([0x2; 20]), 0);
    // Eve does not owns tokens.
    assert_eq!(erc721.balance_of([0x3; 20]), 0);
    // Set Eve as caller
    // Eve is not an approved operator by Alice.
    assert_eq!(
        erc721
            .transfer_from(EVE, [0x1; 20], [0x4; 20], 1)
            .map(|_| ()),
        Err(Error::NotApproved)
    );
    // Alice owns 1 token.
    assert_eq!(erc721.balance_of([0x1; 20]), 1);
    // Bob does not owns tokens.
    assert_eq!(erc721.balance_of([0x2; 20]), 0);
    // Eve does not owns tokens.
    assert_eq!(erc721.balance_of([0x3; 20]), 0);
}

#[test]
fn burn_works() {
    // Create a new contract instance.
    let mut erc721 = Erc721::new([0x0; 20]);
    // Create token Id 1 for Alice
    assert_eq!(mint(&mut erc721, 1, "arpit.vne", [0x1; 20]), Ok(()));
    // Alice owns 1 token.
    assert_eq!(erc721.balance_of([0x1; 20]), 1);
    // Alice owns token Id 1.
    assert_eq!(erc721.owner_of(1), Some([0x1; 20]));
    // Destroy token Id 1.
    assert_eq!(erc721.burn(ALICE, 1).map(|_| ()), Ok(()));
    // Alice does not owns tokens.
    assert_eq!(erc721.balance_of([0x1; 20]), 0);
    // Token Id 1 does not exists
    assert_eq!(erc721.owner_of(1), None);
}

#[test]
fn burn_fails_token_not_found() {
    // Create a new contract instance.
    let mut erc721 = Erc721::new([0x0; 20]);
    // Try burning a non existent token
    assert_eq!(erc721.burn(ALICE, 1).map(|_| ()), Err(Error::TokenNotFound));
}

#[test]
fn burn_fails_not_owner() {
    // Create a new contract instance.
    let mut erc721 = Erc721::new([0x0; 20]);
    // Create token Id 1 for Alice
    assert_eq!(mint(&mut erc721, 1, "arpit.vne", [0x1; 20]), Ok(()));
    // Try burning this token with a different account
    assert_eq!(erc721.burn(EVE, 1).map(|_| ()), Err(Error::NotOwner));
}

#[test]
fn transfer_from_fails_not_owner() {
    // Create a new contract instance.
    let mut erc721 = Erc721::new([0x0; 20]);
    // Create token Id 1 for Alice
    assert_eq!(mint(&mut erc721, 1, "arpit.vne", [0x1; 20]), Ok(()));
    // Bob can transfer alice's tokens
    assert_eq!(
        erc721
            .set_approval_for_all(ALICE, [0x2; 20], true)
            .map(|_| ()),
        Ok(())
    );
    // Set caller to Frank
    // Create token Id 2 for Frank
    assert_eq!(mint(&mut erc721, 2, "arpitk.vne", [0x1; 20]), Ok(()));
    // Set caller to Bob
    // Bob makes invalid call to transfer_from (Alice is token owner, not Frank)
    assert_eq!(
        erc721
            .transfer_from(BOB, [0x4; 20], [0x2; 20], 1)
            .map(|_| ()),
        Err(Error::NotOwner)
    );
}

#[test]
fn transfer_fails_not_owner() {
    // Create a new contract instance.
    let mut erc721 = Erc721::new([0x0; 20]);
    // Create token Id 1 for Alice
    assert_eq!(mint(&mut erc721, 1, "arpit.vne", [0x1; 20]), Ok(()));
    // Bob can transfer alice's tokens
    assert_eq!(
        erc721
            .set_approval_for_all(ALICE, [0x2; 20], true)
            .map(|_| ()),
        Ok(())
    );
    // Set caller to bob

    // Bob makes invalid call to transfer (he is not token owner, Alice is)
    assert_eq!(
        erc721.transfer(BOB, [0x2; 20], 1).map(|_| ()),
        Err(Error::NotOwner)
    );
}

#[test]
fn notices_carry_what_happened() {
    let mut erc721 = Erc721::new([0x0; 20]);
    let d = directory();
    assert_eq!(
        erc721.mint(&d, 7, "arpit.vne".to_string(), ALICE, "uri".to_string()),
        Ok(Transfer {
            from: Some(ZERO),
            to: Some(ALICE),
            id: 7
        })
    );
    assert_eq!(
        erc721.approve(ALICE, BOB, 7),
        Ok(Approval {
            from: ALICE,
            to: BOB,
            id: 7
        })
    );
    assert_eq!(erc721.get_approved(7), Some(BOB));
    assert_eq!(
        erc721.set_approval_for_all(ALICE, EVE, true),
        Ok(ApprovalForAll {
            owner: ALICE,
            operator: EVE,
            approved: true
        })
    );
    assert_eq!(
        erc721.transfer_from(BOB, ALICE, FRANK, 7),
        Ok(Transfer {
            from: Some(ALICE),
            to: Some(FRANK),
            id: 7
        })
    );
    // The approval for the token went with the transfer.
    assert_eq!(erc721.get_approved(7), None);
    assert_eq!(
        erc721.burn(FRANK, 7),
        Ok(Transfer {
            from: Some(FRANK),
            to: Some(ZERO),
            id: 7
        })
    );
}

#[test]
fn mint_is_for_registered_names_only() {
    let mut erc721 = Erc721::new([0x0; 20]);
    let d = directory();
    assert_eq!(
        erc721.mint(&d, 1, "nobody.vne".to_string(), ALICE, "uri".to_string()),
        Err(Error::DomainNotRegistered)
    );
    assert_eq!(
        erc721.mint_checked(true, 1, ALICE, "uri".to_string()),
        Err(Error::DomainNotRegistered)
    );
    assert_eq!(erc721.owner_of(1), None);
    assert_eq!(erc721.balance_of(ALICE), 0);
    assert!(erc721.mint_checked(false, 1, ALICE, "uri".to_string()).is_ok());
    assert_eq!(erc721.owner_of(1), Some(ALICE));
}

#[test]
fn the_zero_account_holds_nothing() {
    let mut erc721 = Erc721::new([0x0; 20]);
    let d = directory();
    assert!(is_zero_account(&ZERO));
    assert!(!is_zero_account(&ALICE));
    assert_eq!(
        erc721.mint(&d, 1, "arpit.vne".to_string(), ZERO, "uri".to_string()),
        Err(Error::NotAllowed)
    );
    assert_eq!(erc721.owner_of(1), None);
    assert!(erc721
        .mint(&d, 1, "arpit.vne".to_string(), ALICE, "uri".to_string())
        .is_ok());
    // A transfer to the zero account changes nothing.
    assert_eq!(erc721.transfer(ALICE, ZERO, 1), Err(Error::NotAllowed));
    assert_eq!(erc721.owner_of(1), Some(ALICE));
    assert_eq!(erc721.balance_of(ALICE), 1);
    // Nor is the zero account approved.
    assert_eq!(erc721.approve(ALICE, ZERO, 1), Err(Error::NotAllowed));
    assert_eq!(erc721.get_approved(1), None);
}

#[test]
fn approvals_have_their_rules() {
    let mut erc721 = Erc721::new([0x0; 20]);
    let d = directory();
    assert!(erc721
        .mint(&d, 1, "arpit.vne".to_string(), ALICE, "uri".to_string())
        .is_ok());
    // No one approves themselves as their operator.
    assert_eq!(
        erc721.set_approval_for_all(ALICE, ALICE, true),
        Err(Error::NotAllowed)
    );
    // A stranger approves no one.
    assert_eq!(erc721.approve(BOB, EVE, 1), Err(Error::NotAllowed));
    // A token is approved once.
    assert!(erc721.approve(ALICE, BOB, 1).is_ok());
    assert_eq!(erc721.approve(ALICE, EVE, 1), Err(Error::CannotInsert));
    assert_eq!(erc721.get_approved(1), Some(BOB));
    // An operator approves on the owner's behalf.
    assert!(erc721
        .mint(&d, 2, "arpitk.vne".to_string(), ALICE, "uri".to_string())
        .is_ok());
    assert!(erc721.set_approval_for_all(ALICE, FRANK, true).is_ok());
    assert!(erc721.approve(FRANK, EVE, 2).is_ok());
    assert_eq!(erc721.get_approved(2), Some(EVE));
}

#[test]
fn a_transfer_to_oneself_keeps_the_balance() {
    let mut erc721 = Erc721::new([0x0; 20]);
    let d = directory();
    assert!(erc721
        .mint(&d, 1, "arpit.vne".to_string(), ALICE, "uri".to_string())
        .is_ok());
    assert!(erc721.transfer(ALICE, ALICE, 1).is_ok());
    assert_eq!(erc721.balance_of(ALICE), 1);
    assert_eq!(erc721.owner_of(1), Some(ALICE));
}
