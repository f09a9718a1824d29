use cosmwasm_std::testing::{mock_dependencies, mock_info};
use cosmwasm_std::{coins, BankMsg, Response, SubMsg, Uint128};
use counter::error::ContractError;
use counter::payout::distribute_tokens_to_whitelist;
use counter::state::State;
use counter::wallets::{
    get_wallets, instantiate, perform_token_transfer, query_token_balance, store_wallets,
    InstantiateMsg, Wallets,
};
use counter::whitelist::{add_to_whitelist, remove_from_whitelist};

#[test]
fn perform_token_transfer_works() {
    // Define sender and recipient addresses
    let _sender_addr = String::from("sender");
    let recipient_addr = String::from("recipient");

    // Perform token transfer
    let transfer_result = perform_token_transfer(&recipient_addr, 100);

    // Assert that the transfer was ordered
    assert_eq!(
        transfer_result.messages,
        vec![SubMsg::new(BankMsg::Send {
            to_address: "recipient".to_string(),
            amount: coins(100, "TOKEN_SYMBOL"),
        })]
    );
    assert_eq!(0, transfer_result.attributes.len());
}

#[test]
fn query_token_balance_works() {
    // Define owner address
    let owner_addr = String::from("owner");

    // Instantiate the smart contract
    let init_msg = InstantiateMsg {
        wallet: String::from("wallet"),
        wallets: Wallets { addresses: vec![] },
    };
    let (_wallets, _res): (Wallets, Response) = instantiate(init_msg);

    // Query the token balance
    let deps = mock_dependencies();
    let info = mock_info(&owner_addr, &[]);
    let held = deps.as_ref().querier.query_balance(&owner_addr, "TOKEN_SYMBOL").unwrap();
    let query_response: u128 =
        query_token_balance(info.sender.as_str(), &owner_addr, held.amount.u128()).unwrap();

    // Assert that the balance is initially zero
    assert_eq!(Uint128::new(0), Uint128::new(query_response));
}

#[test]
fn store_wallets_works() {
    // Define owner address
    let owner_addr = String::from("owner");

    // Instantiate the smart contract
    let init_msg = InstantiateMsg {
        wallet: String::from("wallet"),
        wallets: Wallets { addresses: vec![] },
    };
    let (_wallets, _res): (Wallets, Response) = instantiate(init_msg);

    // Define wallet addresses to store
    let wallet_addresses =
        Wallets { addresses: vec!["wallet1".to_string(), "wallet2".to_string()] };

    // Store wallet addresses
    let store_result = store_wallets(&owner_addr, &owner_addr, wallet_addresses.clone());

    // Assert that storing wallet addresses was successful
    assert!(store_result.is_ok());

    // Retrieve stored wallet addresses
    let retrieved_wallets: Wallets = get_wallets(store_result.ok());

    // Assert that the retrieved wallet addresses match the stored ones
    assert_eq!(wallet_addresses, retrieved_wallets);
}

fn fresh_state(owner: &str) -> State {
    State { count: 0, owner: owner.to_string(), whitelist: vec![] }
}

#[test]
fn add_to_whitelist_works() {
    // Define owner address
    let owner_addr = String::from("owner");
    let mut state = fresh_state(&owner_addr);

    // Define addresses to add to the whitelist
    let addresses_to_add = vec!["address1".to_string(), "address2".to_string()];

    // Add addresses to the whitelist
    let add_result = add_to_whitelist(&mut state, &owner_addr, addresses_to_add.clone());

    // Assert that adding addresses to the whitelist was successful
    assert!(add_result.is_ok());

    // Assert that the whitelist contains the added addresses
    assert_eq!(addresses_to_add, state.whitelist);
}

#[test]
fn remove_from_whitelist_works() {
    // Define owner address
    let owner_addr = String::from("owner");
    let mut state = fresh_state(&owner_addr);

    // Define addresses to add to and remove from the whitelist
    let addresses_to_add = vec!["address1".to_string(), "address2".to_string()];
    let addresses_to_remove = vec!["address1".to_string()];

    // Add addresses to the whitelist
    let add_result = add_to_whitelist(&mut state, &owner_addr, addresses_to_add.clone());
    assert!(add_result.is_ok());

    // Remove addresses from the whitelist
    let remove_result =
        remove_from_whitelist(&mut state, &owner_addr, addresses_to_remove.clone());

    // Assert that removing addresses from the whitelist was successful
    assert!(remove_result.is_ok());

    // Assert that the whitelist does not contain the removed addresses
    assert!(!state.whitelist.contains(&addresses_to_remove[0]));
    assert_eq!(vec!["address2".to_string()], state.whitelist);
}

#[test]
fn distribute_tokens_to_whitelist_works() {
    // Define owner address
    let owner_addr = String::from("owner");
    let mut state = fresh_state(&owner_addr);
    let balance: u128 = 1000000;

    // Define addresses to add to the whitelist
    let addresses_to_add = vec!["address1".to_string(), "address2".to_string()];
    let amount_to_distribute: u128 = 100;

    // Add addresses to the whitelist
    let add_result = add_to_whitelist(&mut state, &owner_addr, addresses_to_add.clone());
    assert!(add_result.is_ok());

    // Distribute tokens to addresses in the whitelist
    let distribute_result = distribute_tokens_to_whitelist(
        &state,
        &owner_addr,
        amount_to_distribute,
        "token",
        balance,
    );
    assert!(distribute_result.is_ok());
    let distribute_result = distribute_result.unwrap();

    // Ensure the messages are correct
    let expected_messages: Vec<SubMsg> = vec![
        SubMsg::new(BankMsg::Send {
            to_address: "address1".to_string(),
            amount: coins(amount_to_distribute, "token"),
        }),
        SubMsg::new(BankMsg::Send {
            to_address: "address2".to_string(),
            amount: coins(amount_to_distribute, "token"),
        }),
    ];

    // Get the actual messages from the response
    let actual_messages = distribute_result.messages;

    // Assert that the actual messages match the expected messages
    assert_eq!(expected_messages, actual_messages);
}

#[test]
fn strangers_cannot_store_wallets() {
    let wallets = Wallets { addresses: vec!["wallet1".to_string()] };
    assert_eq!(store_wallets("owner", "anyone", wallets), Err(ContractError::Unauthorized));
}

#[test]
fn registry_starts_with_the_one_wallet() {
    let msg = InstantiateMsg {
        wallet: "wallet".to_string(),
        wallets: Wallets { addresses: vec!["ignored".to_string()] },
    };
    let (wallets, res) = instantiate(msg);
    assert_eq!(Wallets { addresses: vec!["wallet".to_string()] }, wallets);
    assert_eq!(0, res.attributes.len());
    assert_eq!(0, res.messages.len());
}

#[test]
fn nothing_on_record_means_no_wallets() {
    assert_eq!(Wallets { addresses: vec![] }, get_wallets(None));
    let kept = Wallets { addresses: vec!["a".to_string(), "a".to_string()] };
    assert_eq!(kept.clone(), get_wallets(Some(kept)));
}

#[test]
fn only_the_contract_learns_its_balance() {
    assert_eq!(Ok(20), query_token_balance("contract", "contract", 20));
    assert_eq!(Err(ContractError::Unauthorized), query_token_balance("anyone", "contract", 20));
}
