use signature_relay::contract::{Contract, DeployContract};
use signature_relay::error::{AdmissionError, OwnerError, UpgradeError};
use signature_relay::types::{AccountId, Context, SignRequest};

fn id(name: &str) -> AccountId {
    AccountId::new(name.to_string())
}

fn fresh() -> Contract {
    Contract::new(id("v1.signer"), id("owner.near"), id("caller.near"))
}

fn from(predecessor: &str) -> Context {
    Context {
        current_account_id: id("relay.near"),
        predecessor_account_id: id(predecessor),
        prepaid_gas: u64::MAX,
    }
}

fn one_request() -> Vec<SignRequest> {
    vec![SignRequest { payload: vec![7; 32], path: "m".to_string(), key_version: 0 }]
}

#[test]
fn new_keeps_each_identity_in_its_place() {
    let contract = fresh();
    assert_eq!(contract.mpc_contract_id, id("v1.signer"));
    assert_eq!(contract.owner_id, id("owner.near"));
    assert_eq!(contract.permitted_caller, id("caller.near"));
}

#[test]
fn owner_changes_the_permitted_caller() {
    let mut contract = fresh();
    assert_eq!(contract.update_permitted_caller(&from("owner.near"), id("next.near")), Ok(()));
    assert_eq!(contract, Contract::new(id("v1.signer"), id("owner.near"), id("next.near")));
}

#[test]
fn nobody_else_changes_the_permitted_caller() {
    for stranger in ["caller.near", "relay.near", "v1.signer", "next.near"] {
        let mut contract = fresh();
        assert_eq!(
            contract.update_permitted_caller(&from(stranger), id("next.near")),
            Err(OwnerError::NotOwner)
        );
        assert_eq!(contract, fresh());
    }
}

#[test]
fn owner_hands_the_relay_over() {
    let mut contract = fresh();
    assert_eq!(contract.update_owner(&from("owner.near"), id("heir.near")), Ok(()));
    assert_eq!(contract, Contract::new(id("v1.signer"), id("heir.near"), id("caller.near")));
    assert_eq!(
        contract.update_owner(&from("owner.near"), id("owner.near")),
        Err(OwnerError::NotOwner)
    );
    assert_eq!(contract.update_permitted_caller(&from("heir.near"), id("next.near")), Ok(()));
}

#[test]
fn nobody_else_hands_the_relay_over() {
    let mut contract = fresh();
    assert_eq!(contract.update_owner(&from("caller.near"), id("caller.near")), Err(OwnerError::NotOwner));
    assert_eq!(contract, fresh());
}

#[test]
fn change_of_caller_holds_for_the_next_request() {
    let mut contract = fresh();
    assert!(contract.request_signatures(&from("caller.near"), one_request()).is_ok());
    assert_eq!(
        contract.request_signatures(&from("next.near"), one_request()),
        Err(AdmissionError::Unauthorized)
    );
    contract.update_permitted_caller(&from("owner.near"), id("next.near")).unwrap();
    assert!(contract.request_signatures(&from("next.near"), one_request()).is_ok());
    assert_eq!(
        contract.request_signatures(&from("caller.near"), one_request()),
        Err(AdmissionError::Unauthorized)
    );
}

#[test]
fn owner_replaces_the_code() {
    let planned = fresh().update_contract(&from("owner.near"), Some(vec![0, 97, 115, 109]));
    assert_eq!(
        planned,
        Ok(DeployContract { receiver: id("relay.near"), code: vec![0, 97, 115, 109] })
    );
}

#[test]
fn nobody_else_replaces_the_code() {
    let planned = fresh().update_contract(&from("caller.near"), Some(vec![0]));
    assert_eq!(planned, Err(UpgradeError::NotOwner));
    let planned = fresh().update_contract(&from("caller.near"), None);
    assert_eq!(planned, Err(UpgradeError::NotOwner));
}

#[test]
fn code_must_come_with_the_call() {
    let planned = fresh().update_contract(&from("owner.near"), None);
    assert_eq!(planned, Err(UpgradeError::NoInput));
}

#[test]
fn owner_and_upgrade_errors_have_their_messages() {
    assert_eq!(OwnerError::NotOwner.message(), "Only the owner can call this contract");
    assert_eq!(UpgradeError::NotOwner.message(), "Only the owner can update the code");
    assert_eq!(UpgradeError::NoInput.message(), "Error: No input");
}
