use cosmwasm_std::testing::MockApi;
use cosmwasm_std::{from_json, to_json_vec, Api, Empty, StdError};
use cw721_metadata_onchain::{Metadata, Trait};
use cw721_minter::coin::Coin;
use cw721_minter::contract::{
    execute, instantiate, mint_nft, mint_response, query, query_state, set_nft_contract,
};
use cw721_minter::error::ContractError;
use cw721_minter::guard::ACCEPTED_DENOM;
use cw721_minter::msg::{ExecuteMsg, MessageInfo, QueryMsg, StateResponse};
use cw721_minter::response::{Effect, Response};
use cw721_minter::state::{State, Store};

type TokenMsg = cw721_base::ExecuteMsg<Option<Metadata>, Empty>;

fn caller(sender: &str, funds: Vec<Coin>) -> MessageInfo {
    MessageInfo { sender: sender.to_string(), funds }
}

fn coin(amount: u128, denom: &str) -> Coin {
    Coin::new(amount, denom.to_string())
}

fn state_of(store: &Store) -> StateResponse {
    query_state(store).unwrap()
}

/// A store initialized by `admin`, with no NFT contract named.
fn initialized(admin: &str) -> Store {
    let mut store = Store::new();
    instantiate(&mut store, caller(admin, vec![])).unwrap();
    store
}

/// A store initialized by `admin`, who then named `nft_contract`.
fn configured(admin: &str, nft_contract: &str) -> Store {
    let mut store = initialized(admin);
    set_nft_contract(&mut store, caller(admin, vec![]), nft_contract.to_string(), true).unwrap();
    store
}

fn mint(token_id: &str, owner: &str) -> ExecuteMsg {
    ExecuteMsg::MintNft {
        token_id: token_id.to_string(),
        owner: owner.to_string(),
        token_uri: None,
        extension: None,
    }
}

#[test]
fn instantiate_makes_the_caller_admin_and_leaves_the_nft_contract_unset() {
    let mut store = Store::new();
    let response = instantiate(&mut store, caller("alice", vec![coin(5, "test")])).unwrap();
    assert_eq!(response, Response { messages: vec![] });
    assert_eq!(
        state_of(&store),
        StateResponse { admin: "alice".to_string(), nft_contract: String::new() }
    );
}

#[test]
fn instantiate_overwrites_an_earlier_state() {
    let mut store = configured("alice", "nft_contract");
    instantiate(&mut store, caller("bob", vec![])).unwrap();
    assert_eq!(
        state_of(&store),
        StateResponse { admin: "bob".to_string(), nft_contract: String::new() }
    );
}

#[test]
fn commands_and_queries_fail_on_a_store_without_state() {
    let mut store = Store::new();
    assert_eq!(query(&store, QueryMsg::GetState {}), Err(ContractError::Std {}));
    assert_eq!(query_state(&store), Err(ContractError::Std {}));
    assert_eq!(
        set_nft_contract(&mut store, caller("alice", vec![]), "nft_contract".to_string(), true),
        Err(ContractError::Std {})
    );
    assert_eq!(
        execute(&mut store, caller("alice", vec![coin(0, "fake")]), mint("1", "bob"), true),
        Err(ContractError::Std {})
    );
    assert_eq!(query_state(&store), Err(ContractError::Std {}));
}

#[test]
fn only_the_admin_sets_the_nft_contract() {
    let mut store = configured("alice", "first");
    let before = state_of(&store);
    for impostor in ["bob", "", "Alice", "alice ", "alic"] {
        for valid in [true, false] {
            let result =
                set_nft_contract(&mut store, caller(impostor, vec![]), "scam".to_string(), valid);
            assert_eq!(result, Err(ContractError::Unauthorized {}));
            assert_eq!(state_of(&store), before);
        }
    }
}

#[test]
fn the_admin_sets_and_replaces_the_nft_contract() {
    let mut store = initialized("alice");
    let response =
        set_nft_contract(&mut store, caller("alice", vec![]), "first".to_string(), true).unwrap();
    assert_eq!(response, Response { messages: vec![] });
    assert_eq!(
        state_of(&store),
        StateResponse { admin: "alice".to_string(), nft_contract: "first".to_string() }
    );
    let msg = ExecuteMsg::SetNftContract { address: "second".to_string() };
    let response = execute(&mut store, caller("alice", vec![]), msg, true).unwrap();
    assert_eq!(response, Response { messages: vec![] });
    assert_eq!(
        state_of(&store),
        StateResponse { admin: "alice".to_string(), nft_contract: "second".to_string() }
    );
}

#[test]
fn an_address_that_the_host_rejects_is_not_stored() {
    let api = MockApi::default();
    let mut store = configured("alice", "first");
    let before = state_of(&store);
    for address in ["", "ab", "Foobar123"] {
        let valid = api.addr_validate(address).is_ok();
        assert!(!valid);
        let msg = ExecuteMsg::SetNftContract { address: address.to_string() };
        let result = execute(&mut store, caller("alice", vec![]), msg, valid);
        assert_eq!(result, Err(ContractError::InvalidAddress {}));
        assert_eq!(state_of(&store), before);
    }
}

#[test]
fn the_caller_is_checked_before_the_address() {
    let mut store = initialized("alice");
    let result = set_nft_contract(&mut store, caller("bob", vec![]), String::new(), false);
    assert_eq!(result, Err(ContractError::Unauthorized {}));
}

#[test]
fn mint_fails_for_everyone_while_the_nft_contract_is_unset() {
    let mut store = initialized("alice");
    let payments = [
        vec![],
        vec![coin(1000, ACCEPTED_DENOM)],
        vec![coin(0, ACCEPTED_DENOM)],
        vec![coin(1000, "fake")],
    ];
    for sender in ["alice", "bob"] {
        for funds in payments.iter() {
            let funds = funds.iter().map(|c| coin(c.amount, &c.denom)).collect();
            let result = execute(&mut store, caller(sender, funds), mint("1", "bob"), true);
            assert_eq!(result, Err(ContractError::EmptyNftAddress {}));
        }
    }
    assert_eq!(
        state_of(&store),
        StateResponse { admin: "alice".to_string(), nft_contract: String::new() }
    );
}

#[test]
fn mint_rejects_a_foreign_denomination_whatever_the_amount() {
    let store = configured("alice", "nft_contract");
    for amount in [0, 1, 1000, u128::MAX] {
        for denom in ["fake", "test", "", "ujuno", "ujunoxx", "UJUNOX"] {
            let info = caller("bob", vec![coin(amount, denom)]);
            let result = mint_nft(&store, info, "1".to_string(), "bob".to_string(), None, None);
            assert_eq!(result, Err(ContractError::UnmatchDenom {}));
        }
    }
    let info = caller("bob", vec![coin(7, ACCEPTED_DENOM), coin(7, "fake")]);
    let result = mint_nft(&store, info, "1".to_string(), "bob".to_string(), None, None);
    assert_eq!(result, Err(ContractError::UnmatchDenom {}));
}

#[test]
fn mint_rejects_a_zero_amount_of_the_accepted_denomination() {
    let store = configured("alice", "nft_contract");
    let info = caller("bob", vec![coin(0, ACCEPTED_DENOM)]);
    let result = mint_nft(&store, info, "1".to_string(), "bob".to_string(), None, None);
    assert_eq!(result, Err(ContractError::InsufficientFunds {}));

    let info = caller("bob", vec![coin(7, ACCEPTED_DENOM), coin(0, ACCEPTED_DENOM)]);
    let result = mint_nft(&store, info, "1".to_string(), "bob".to_string(), None, None);
    assert_eq!(result, Err(ContractError::InsufficientFunds {}));
}

#[test]
fn the_first_faulty_coin_decides() {
    let store = configured("alice", "nft_contract");
    let info = caller("bob", vec![coin(0, ACCEPTED_DENOM), coin(5, "fake")]);
    let result = mint_nft(&store, info, "1".to_string(), "bob".to_string(), None, None);
    assert_eq!(result, Err(ContractError::InsufficientFunds {}));

    let info = caller("bob", vec![coin(1, "fake"), coin(0, ACCEPTED_DENOM)]);
    let result = mint_nft(&store, info, "1".to_string(), "bob".to_string(), None, None);
    assert_eq!(result, Err(ContractError::UnmatchDenom {}));
}

#[test]
fn mint_describes_the_delegated_mint_and_the_transfer() {
    let mut store = Store::new();
    instantiate(&mut store, caller("sender", vec![])).unwrap();
    let set = ExecuteMsg::SetNftContract { address: "nft_contract".to_string() };
    execute(&mut store, caller("sender", vec![]), set, true).unwrap();

    let extension = Some(Metadata {
        description: Some("Spaceship with Warp Drive".into()),
        name: Some("Starship USS Enterprise".to_string()),
        attributes: Some(vec![Trait {
            display_type: None,
            trait_type: "class".to_string(),
            value: "Constitution".to_string(),
        }]),
        ..Metadata::default()
    });
    let token_uri = Some("https://starships.example.com/Starship/Enterprise.json".to_string());
    let msg = ExecuteMsg::MintNft {
        token_id: "Enterprise".to_string(),
        owner: "john".to_string(),
        token_uri: token_uri.clone(),
        extension: extension.clone(),
    };
    let payer = caller("anyone", vec![coin(1000, "ujunox")]);
    let response = execute(&mut store, payer, msg, false).unwrap();

    assert_eq!(response.messages.len(), 2);
    match &response.messages[0] {
        Effect::Execute { contract_addr, msg, funds } => {
            assert_eq!(contract_addr, "nft_contract");
            assert!(funds.is_empty());
            let decoded: TokenMsg = from_json(msg).unwrap();
            let expected: TokenMsg = cw721_base::ExecuteMsg::Mint {
                token_id: "Enterprise".to_string(),
                owner: "john".to_string(),
                token_uri,
                extension,
            };
            assert_eq!(decoded, expected);
            assert_eq!(msg, &to_json_vec(&expected).unwrap());
        }
        other => panic!("expected a call into the NFT contract, got {:?}", other),
    }
    assert_eq!(
        response.messages[1],
        Effect::Send { to_address: "sender".to_string(), amount: vec![coin(1000, "ujunox")] }
    );
    assert_eq!(
        state_of(&store),
        StateResponse { admin: "sender".to_string(), nft_contract: "nft_contract".to_string() }
    );
}

#[test]
fn the_mint_message_is_the_json_of_the_token_contract() {
    let store = configured("alice", "nft_contract");
    let info = caller("bob", vec![coin(1, ACCEPTED_DENOM)]);
    let response =
        mint_nft(&store, info, "7".to_string(), "carol".to_string(), None, None).unwrap();
    let expected = br#"{"mint":{"token_id":"7","owner":"carol","token_uri":null,"extension":null}}"#;
    assert_eq!(
        response.messages[0],
        Effect::Execute {
            contract_addr: "nft_contract".to_string(),
            msg: expected.to_vec(),
            funds: vec![],
        }
    );
}

#[test]
fn mint_with_no_coins_attached_passes_the_payment_check() {
    let store = configured("alice", "nft_contract");
    let response =
        mint_nft(&store, caller("bob", vec![]), "1".to_string(), "bob".to_string(), None, None)
            .unwrap();
    assert_eq!(response.messages.len(), 2);
    assert!(matches!(&response.messages[0], Effect::Execute { contract_addr, funds, .. }
        if contract_addr == "nft_contract" && funds.is_empty()));
    assert_eq!(
        response.messages[1],
        Effect::Send { to_address: "alice".to_string(), amount: vec![] }
    );
}

#[test]
fn mint_sends_every_attached_coin_to_the_admin() {
    let store = configured("alice", "nft_contract");
    let funds = vec![coin(1, ACCEPTED_DENOM), coin(u128::MAX, ACCEPTED_DENOM)];
    let response =
        mint_nft(&store, caller("alice", funds), "1".to_string(), "bob".to_string(), None, None)
            .unwrap();
    assert_eq!(
        response.messages[1],
        Effect::Send {
            to_address: "alice".to_string(),
            amount: vec![coin(1, ACCEPTED_DENOM), coin(u128::MAX, ACCEPTED_DENOM)],
        }
    );
}

#[test]
fn mint_response_holds_the_call_and_then_the_transfer() {
    let state = State { admin: "alice".to_string(), nft_contract: "nft".to_string() };
    let response = mint_response(state, vec![coin(3, "ujunox")], Ok(vec![1, 2, 3])).unwrap();
    assert_eq!(
        response,
        Response {
            messages: vec![
                Effect::Execute {
                    contract_addr: "nft".to_string(),
                    msg: vec![1, 2, 3],
                    funds: vec![],
                },
                Effect::Send { to_address: "alice".to_string(), amount: vec![coin(3, "ujunox")] },
            ],
        }
    );
}

#[test]
fn mint_response_fails_where_the_encoder_failed() {
    let state = State { admin: "alice".to_string(), nft_contract: "nft".to_string() };
    let result = mint_response(state, vec![], Err(StdError::generic_err("no encoding")));
    assert_eq!(result, Err(ContractError::Std {}));
}

#[test]
fn a_query_gives_the_same_answer_twice() {
    let store = configured("alice", "nft_contract");
    let first = query(&store, QueryMsg::GetState {});
    let second = query(&store, QueryMsg::GetState {});
    assert_eq!(first, second);
    assert_eq!(
        first,
        Ok(StateResponse { admin: "alice".to_string(), nft_contract: "nft_contract".to_string() })
    );

    let empty = Store::new();
    assert_eq!(query(&empty, QueryMsg::GetState {}), query(&empty, QueryMsg::GetState {}));
}

#[test]
fn a_mint_does_not_change_the_state() {
    let mut store = configured("alice", "nft_contract");
    let before = state_of(&store);
    execute(&mut store, caller("bob", vec![coin(1, ACCEPTED_DENOM)]), mint("1", "bob"), true)
        .unwrap();
    assert_eq!(state_of(&store), before);
    execute(&mut store, caller("bob", vec![coin(1, "fake")]), mint("1", "bob"), true).unwrap_err();
    assert_eq!(state_of(&store), before);
}

#[test]
fn a_mint_does_not_read_the_verdict_on_addresses() {
    let mut store = configured("alice", "nft_contract");
    let with = execute(&mut store, caller("bob", vec![coin(2, "ujunox")]), mint("1", "bob"), true);
    let without =
        execute(&mut store, caller("bob", vec![coin(2, "ujunox")]), mint("1", "bob"), false);
    assert!(with.is_ok());
    assert_eq!(with, without);
}

#[test]
fn the_admin_stays_through_every_command() {
    let mut store = initialized("alice");
    let _ = execute(&mut store, caller("bob", vec![]), mint("1", "bob"), false);
    let _ = set_nft_contract(&mut store, caller("bob", vec![]), "bob".to_string(), true);
    let _ = set_nft_contract(&mut store, caller("alice", vec![]), "broken".to_string(), false);
    assert_eq!(
        state_of(&store),
        StateResponse { admin: "alice".to_string(), nft_contract: String::new() }
    );
    let _ = set_nft_contract(&mut store, caller("alice", vec![]), "first".to_string(), true);
    let _ = execute(&mut store, caller("bob", vec![coin(1, "ujunox")]), mint("1", "bob"), false);
    let _ = set_nft_contract(&mut store, caller("first", vec![]), "second".to_string(), true);
    assert_eq!(
        state_of(&store),
        StateResponse { admin: "alice".to_string(), nft_contract: "first".to_string() }
    );
}
