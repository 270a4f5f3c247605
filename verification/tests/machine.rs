//! Behavioral tests for the registry state machine.
//!
//! Account convention: `alice` deploys (and so administers) the
//! registry, `bob` is a counterparty, `charlie` an unauthorized third
//! party.

use nft_minting_machine::{AccountId, Error, NFTMintingMachine};

fn alice() -> AccountId {
    AccountId::new(0, 1)
}

fn bob() -> AccountId {
    AccountId::new(0, 2)
}

fn charlie() -> AccountId {
    AccountId::new(0, 3)
}

#[test]
fn test_setup_oracle() {
    let mut contract = NFTMintingMachine::new(alice());
    assert_eq!(contract.setup_oracle(alice()), Ok(()));
    assert_eq!(contract.setup_oracle(alice()), Err(Error::OracleAlreadySet));
}

#[test]
fn test_mint_token() {
    let mut contract = NFTMintingMachine::new(alice());
    assert_eq!(contract.mint_token(alice()), Err(Error::OracleNotSetup));

    contract.setup_oracle(alice()).unwrap();
    let token_index = contract.mint_token(alice()).unwrap();
    assert_eq!(token_index, 1);

    let nft = contract.get_nft(token_index).unwrap();
    assert_eq!(nft.token_name(), "NFT #1");
    assert_eq!(nft.owner(), &alice());
}

#[test]
fn test_transfer_nft() {
    let mut contract = NFTMintingMachine::new(alice());
    contract.setup_oracle(alice()).unwrap();
    let token_index = contract.mint_token(alice()).unwrap();

    assert_eq!(contract.transfer_nft(alice(), token_index, bob()), Ok(()));

    let nft = contract.get_nft(token_index).unwrap();
    assert_eq!(nft.owner(), &bob());

    assert_eq!(
        contract.transfer_nft(charlie(), token_index, alice()),
        Err(Error::NotOwner)
    );
}

#[test]
fn test_get_oracle_data() {
    let mut contract = NFTMintingMachine::new(alice());
    assert_eq!(contract.get_oracle_data().current_index, 0);

    contract.setup_oracle(alice()).unwrap();
    contract.mint_token(alice()).unwrap();
    assert_eq!(contract.get_oracle_data().current_index, 1);
}

#[test]
fn test_sequence_is_zero_right_after_setup() {
    let mut contract = NFTMintingMachine::new(alice());
    assert_eq!(contract.setup_oracle(alice()), Ok(()));
    assert_eq!(contract.get_oracle_data().current_index, 0);
    assert_eq!(contract.setup_oracle(alice()), Err(Error::OracleAlreadySet));
    assert_eq!(contract.get_oracle_data().current_index, 0);
}

#[test]
fn test_mint_before_setup_creates_no_record() {
    let mut contract = NFTMintingMachine::new(alice());
    assert_eq!(contract.mint_token(bob()), Err(Error::OracleNotSetup));
    assert_eq!(contract.mint_token(alice()), Err(Error::OracleNotSetup));
    assert!(contract.get_nft(1).is_none());
    assert_eq!(contract.get_oracle_data().current_index, 0);
}

#[test]
fn test_sequential_mint_indices_and_names() {
    let mut contract = NFTMintingMachine::new(alice());
    contract.setup_oracle(alice()).unwrap();

    assert_eq!(contract.mint_token(bob()), Ok(1));
    assert_eq!(contract.mint_token(charlie()), Ok(2));
    assert_eq!(contract.mint_token(bob()), Ok(3));
    assert_eq!(contract.get_oracle_data().current_index, 3);

    let first = contract.get_nft(1).unwrap();
    assert_eq!(first.token_name(), "NFT #1");
    assert_eq!(first.owner(), &bob());
    let second = contract.get_nft(2).unwrap();
    assert_eq!(second.token_name(), "NFT #2");
    assert_eq!(second.owner(), &charlie());
    let third = contract.get_nft(3).unwrap();
    assert_eq!(third.token_name(), "NFT #3");
    assert_eq!(third.owner(), &bob());
}

#[test]
fn test_transfer_by_non_owner_leaves_owner_unchanged() {
    let mut contract = NFTMintingMachine::new(alice());
    contract.setup_oracle(alice()).unwrap();
    let token_index = contract.mint_token(bob()).unwrap();

    assert_eq!(
        contract.transfer_nft(charlie(), token_index, charlie()),
        Err(Error::NotOwner)
    );
    assert_eq!(contract.get_nft(token_index).unwrap().owner(), &bob());

    assert_eq!(contract.transfer_nft(bob(), token_index, charlie()), Ok(()));
    assert_eq!(contract.get_nft(token_index).unwrap().owner(), &charlie());
}

#[test]
fn test_transfer_keeps_token_name() {
    let mut contract = NFTMintingMachine::new(alice());
    contract.setup_oracle(alice()).unwrap();
    let token_index = contract.mint_token(bob()).unwrap();
    contract.transfer_nft(bob(), token_index, charlie()).unwrap();
    assert_eq!(contract.get_nft(token_index).unwrap().token_name(), "NFT #1");
}

#[test]
fn test_transfer_never_minted_index() {
    let mut contract = NFTMintingMachine::new(alice());
    assert_eq!(
        contract.transfer_nft(alice(), 99, bob()),
        Err(Error::NFTNotFound)
    );

    contract.setup_oracle(alice()).unwrap();
    contract.mint_token(bob()).unwrap();
    assert_eq!(
        contract.transfer_nft(bob(), 0, alice()),
        Err(Error::NFTNotFound)
    );
    assert_eq!(
        contract.transfer_nft(bob(), 2, alice()),
        Err(Error::NFTNotFound)
    );
}

#[test]
fn test_setup_by_non_admin_does_not_activate() {
    let mut contract = NFTMintingMachine::new(alice());
    assert_eq!(contract.setup_oracle(bob()), Err(Error::NotAdmin));
    // Still not activated: minting is refused and the admin can still
    // perform the one-time activation.
    assert_eq!(contract.mint_token(bob()), Err(Error::OracleNotSetup));
    assert_eq!(contract.setup_oracle(alice()), Ok(()));
}

#[test]
fn test_transfer_to_self_and_to_zero_identity() {
    let mut contract = NFTMintingMachine::new(alice());
    contract.setup_oracle(alice()).unwrap();
    let token_index = contract.mint_token(bob()).unwrap();

    assert_eq!(contract.transfer_nft(bob(), token_index, bob()), Ok(()));
    assert_eq!(contract.get_nft(token_index).unwrap().owner(), &bob());

    let zero = AccountId::zero();
    assert_eq!(contract.transfer_nft(bob(), token_index, zero), Ok(()));
    assert_eq!(contract.get_nft(token_index).unwrap().owner(), &zero);
}

#[test]
fn test_get_nft_absent() {
    let mut contract = NFTMintingMachine::new(alice());
    assert!(contract.get_nft(0).is_none());
    assert!(contract.get_nft(1).is_none());

    contract.setup_oracle(alice()).unwrap();
    contract.mint_token(bob()).unwrap();
    assert!(contract.get_nft(0).is_none());
    assert!(contract.get_nft(1).is_some());
    assert!(contract.get_nft(2).is_none());
}

#[test]
fn test_default_machine() {
    let mut contract = NFTMintingMachine::default();
    assert_eq!(contract.get_oracle_data().current_index, 0);
    assert_eq!(contract.setup_oracle(alice()), Err(Error::NotAdmin));
    assert_eq!(contract.setup_oracle(AccountId::zero()), Ok(()));
    assert_eq!(contract.mint_token(bob()), Ok(1));
}

#[test]
fn test_end_to_end() {
    let a = alice();
    let b = bob();
    let c = charlie();

    let mut contract = NFTMintingMachine::new(a);
    assert_eq!(contract.setup_oracle(a), Ok(()));

    assert_eq!(contract.mint_token(b), Ok(1));
    let nft = contract.get_nft(1).unwrap();
    assert_eq!(nft.owner(), &b);
    assert_eq!(nft.token_name(), "NFT #1");

    assert_eq!(contract.transfer_nft(b, 1, c), Ok(()));
    assert_eq!(contract.get_nft(1).unwrap().owner(), &c);

    assert_eq!(contract.transfer_nft(b, 1, a), Err(Error::NotOwner));
    assert_eq!(contract.transfer_nft(b, 99, a), Err(Error::NFTNotFound));
}
