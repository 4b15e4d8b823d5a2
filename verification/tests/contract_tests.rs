use cw721_angel::contract;
use cw721_angel::errors::{ContractError, StdError};
use cw721_angel::ledger::{BlockInfo, Env, MessageInfo, TokenLedger};
use cw721_angel::metadata::{Coin, Metadata};
use cw721_angel::msg::{ExecuteMsg, InstantiateMsg, MintMsg, Response};

const CREATOR: &str = "creator";

fn mock_env() -> Env {
    Env { block: BlockInfo { height: 12_345, time: 1_571_797_419_879_305_533 } }
}

fn mock_info(sender: &str) -> MessageInfo {
    MessageInfo { sender: sender.to_string(), funds: vec![] }
}

fn coins(amount: u128, denom: &str) -> Vec<Coin> {
    vec![Coin { denom: denom.to_string(), amount }]
}

fn setup(minter: &str) -> TokenLedger {
    let env = mock_env();
    let info = mock_info(minter);
    let init_msg = InstantiateMsg {
        name: "Greeks".to_string(),
        symbol: "drachma".to_string(),
        minter: minter.to_string(),
    };
    let (ledger, _res) = contract::instantiate(&env, &info, init_msg).unwrap();
    ledger
}

fn mint(
    ledger: &mut TokenLedger,
    sender: &str,
    token_id: &str,
    owner: &str,
    token_uri: Option<String>,
    extension: Metadata,
) -> Result<Response, ContractError> {
    let env = mock_env();
    let info = mock_info(sender);
    let mint_msg = MintMsg {
        token_id: token_id.to_string(),
        owner: owner.to_string(),
        token_uri,
        extension,
    };
    contract::execute(ledger, &env, &info, ExecuteMsg::Mint(mint_msg))
}

fn issue_update(
    ledger: &mut TokenLedger,
    sender: &str,
    token_id: &str,
    token_uri: &str,
    metadata: Metadata,
) -> Result<Response, ContractError> {
    let env = mock_env();
    let info = mock_info(sender);
    contract::execute(
        ledger,
        &env,
        &info,
        ExecuteMsg::UpdateMetadata {
            token_id: token_id.to_string(),
            token_uri: token_uri.to_string(),
            metadata,
        },
    )
}

#[test]
fn use_metadata_extension() {
    let env = mock_env();
    let info = mock_info(CREATOR);
    let init_msg = InstantiateMsg {
        name: "Greeks".to_string(),
        symbol: "drachma".to_string(),
        minter: CREATOR.to_string(),
    };
    let (mut ledger, _res) = contract::instantiate(&env, &info, init_msg).unwrap();

    let token_id = "1";
    let mint_msg = MintMsg {
        token_id: token_id.to_string(),
        owner: "bob".to_string(),
        token_uri: None,
        extension: Metadata { native: Some(coins(1000, "earth")), cw20: None },
    };
    let expected_uri = mint_msg.token_uri.clone();
    let expected_ext = mint_msg.extension.clone();
    let exec_msg = ExecuteMsg::Mint(mint_msg);
    contract::execute(&mut ledger, &env, &info, exec_msg).unwrap();

    let res = ledger.nft_info(&token_id.to_string()).unwrap();
    assert_eq!(res.token_uri, expected_uri);
    assert_eq!(res.extension, expected_ext);
}

#[test]
fn update_metadata() {
    let env = mock_env();
    let info = mock_info(CREATOR);
    let init_msg = InstantiateMsg {
        name: "Greeks".to_string(),
        symbol: "drachma".to_string(),
        minter: CREATOR.to_string(),
    };
    let (mut ledger, _res) = contract::instantiate(&env, &info, init_msg).unwrap();

    let token_id = "1";
    let mint_msg = MintMsg {
        token_id: token_id.to_string(),
        owner: "bob".to_string(),
        token_uri: None,
        extension: Metadata { native: Some(coins(1000, "mars")), cw20: None },
    };
    let exec_msg = ExecuteMsg::Mint(mint_msg);
    contract::execute(&mut ledger, &env, &info, exec_msg).unwrap();

    let _new_metadata = Metadata { native: Some(coins(2000, "mars")), cw20: None };
}

#[test]
fn update_replaces_uri_and_metadata() {
    let mut ledger = setup("minty");
    mint(
        &mut ledger,
        "minty",
        "1",
        "bob",
        None,
        Metadata { native: Some(coins(1000, "earth")), cw20: None },
    )
    .unwrap();

    let env = mock_env();
    let owner_before = ledger.owner_of(&env, &"1".to_string(), false).unwrap();

    let res = issue_update(
        &mut ledger,
        "minty",
        "1",
        "u2",
        Metadata { native: Some(coins(2000, "mars")), cw20: None },
    )
    .unwrap();
    assert!(res.attributes.is_empty());
    assert!(res.messages.is_empty());

    let info = ledger.nft_info(&"1".to_string()).unwrap();
    assert_eq!(info.token_uri, Some("u2".to_string()));
    assert_eq!(
        info.extension,
        Metadata { native: Some(coins(2000, "mars")), cw20: None }
    );

    let owner_after = ledger.owner_of(&env, &"1".to_string(), false).unwrap();
    assert_eq!(owner_before, owner_after);
}

#[test]
fn update_by_non_minter_is_unauthorized() {
    let mut ledger = setup("minty");
    mint(
        &mut ledger,
        "minty",
        "1",
        "bob",
        Some("u1".to_string()),
        Metadata { native: Some(coins(1000, "earth")), cw20: None },
    )
    .unwrap();

    let before = ledger.nft_info(&"1".to_string()).unwrap();
    let err = issue_update(
        &mut ledger,
        "bob",
        "1",
        "u2",
        Metadata { native: Some(coins(2000, "mars")), cw20: None },
    )
    .unwrap_err();
    assert_eq!(err, ContractError::Unauthorized);
    let after = ledger.nft_info(&"1".to_string()).unwrap();
    assert_eq!(before, after);
}

#[test]
fn update_missing_token_is_unauthorized_not_not_found() {
    let mut ledger = setup("minty");
    let snapshot_count = ledger.num_tokens();
    let err = issue_update(
        &mut ledger,
        "minty",
        "nope",
        "u2",
        Metadata { native: None, cw20: None },
    )
    .unwrap_err();
    assert_eq!(err, ContractError::Unauthorized);
    assert_eq!(ledger.num_tokens(), snapshot_count);

    // A read of the same missing identifier does report not-found: only the
    // update folds absence into the authorization failure.
    let read_err = ledger.nft_info(&"nope".to_string()).unwrap_err();
    assert_eq!(read_err, StdError::NotFound);
}

#[test]
fn update_twice_equals_update_once() {
    let make = || {
        let mut ledger = setup("minty");
        mint(
            &mut ledger,
            "minty",
            "1",
            "bob",
            None,
            Metadata { native: Some(coins(1000, "earth")), cw20: None },
        )
        .unwrap();
        ledger
    };
    let meta = || Metadata { native: Some(coins(2000, "mars")), cw20: None };

    let mut once = make();
    issue_update(&mut once, "minty", "1", "u2", meta()).unwrap();

    let mut twice = make();
    let r1 = issue_update(&mut twice, "minty", "1", "u2", meta()).unwrap();
    let r2 = issue_update(&mut twice, "minty", "1", "u2", meta()).unwrap();

    assert_eq!(once, twice);
    assert_eq!(r1, r2);
}

#[test]
fn mint_by_non_minter_is_unauthorized() {
    let mut ledger = setup("minty");
    let err = mint(
        &mut ledger,
        "bob",
        "1",
        "bob",
        None,
        Metadata { native: None, cw20: None },
    )
    .unwrap_err();
    assert_eq!(err, ContractError::Unauthorized);
    assert_eq!(ledger.num_tokens().count, 0);
}

#[test]
fn mint_taken_id_is_claimed() {
    let mut ledger = setup("minty");
    mint(&mut ledger, "minty", "1", "bob", None, Metadata { native: None, cw20: None }).unwrap();
    let err = mint(
        &mut ledger,
        "minty",
        "1",
        "alice",
        None,
        Metadata { native: None, cw20: None },
    )
    .unwrap_err();
    assert_eq!(err, ContractError::Claimed);
    assert_eq!(ledger.num_tokens().count, 1);
}

#[test]
fn mint_response_attributes() {
    let mut ledger = setup("minty");
    let res = mint(&mut ledger, "minty", "1", "bob", None, Metadata { native: None, cw20: None })
        .unwrap();
    let pairs: Vec<(&str, &str)> = res
        .attributes
        .iter()
        .map(|a| (a.key.as_str(), a.value.as_str()))
        .collect();
    assert_eq!(
        pairs,
        vec![
            ("action", "mint"),
            ("minter", "minty"),
            ("owner", "bob"),
            ("token_id", "1"),
        ]
    );
    assert!(res.messages.is_empty());
}

#[test]
fn burn_removes_record() {
    let mut ledger = setup("minty");
    mint(&mut ledger, "minty", "1", "bob", None, Metadata { native: None, cw20: None }).unwrap();
    let env = mock_env();
    let info = mock_info("bob");
    contract::execute(
        &mut ledger,
        &env,
        &info,
        ExecuteMsg::Burn { token_id: "1".to_string() },
    )
    .unwrap();
    assert_eq!(ledger.num_tokens().count, 0);
    assert_eq!(ledger.nft_info(&"1".to_string()).unwrap_err(), StdError::NotFound);
}

#[test]
fn burn_by_stranger_is_unauthorized() {
    let mut ledger = setup("minty");
    mint(&mut ledger, "minty", "1", "bob", None, Metadata { native: None, cw20: None }).unwrap();
    let env = mock_env();
    let info = mock_info("alice");
    let err = contract::execute(
        &mut ledger,
        &env,
        &info,
        ExecuteMsg::Burn { token_id: "1".to_string() },
    )
    .unwrap_err();
    assert_eq!(err, ContractError::Unauthorized);
    assert_eq!(ledger.num_tokens().count, 1);
}

#[test]
fn burn_missing_token_is_not_found() {
    let mut ledger = setup("minty");
    let env = mock_env();
    let info = mock_info("minty");
    let err = contract::execute(
        &mut ledger,
        &env,
        &info,
        ExecuteMsg::Burn { token_id: "1".to_string() },
    )
    .unwrap_err();
    assert_eq!(err, ContractError::Std(StdError::NotFound));
}

#[test]
fn transfer_moves_ownership() {
    let mut ledger = setup("minty");
    mint(&mut ledger, "minty", "1", "bob", None, Metadata { native: None, cw20: None }).unwrap();
    let env = mock_env();
    let info = mock_info("bob");
    contract::execute(
        &mut ledger,
        &env,
        &info,
        ExecuteMsg::TransferNft { recipient: "alice".to_string(), token_id: "1".to_string() },
    )
    .unwrap();
    let owner = ledger.owner_of(&env, &"1".to_string(), false).unwrap();
    assert_eq!(owner.owner, "alice");
    assert!(owner.approvals.is_empty());
}

#[test]
fn transfer_by_stranger_is_unauthorized() {
    let mut ledger = setup("minty");
    mint(&mut ledger, "minty", "1", "bob", None, Metadata { native: None, cw20: None }).unwrap();
    let env = mock_env();
    let info = mock_info("alice");
    let err = contract::execute(
        &mut ledger,
        &env,
        &info,
        ExecuteMsg::TransferNft { recipient: "alice".to_string(), token_id: "1".to_string() },
    )
    .unwrap_err();
    assert_eq!(err, ContractError::Unauthorized);
    let owner = ledger.owner_of(&env, &"1".to_string(), false).unwrap();
    assert_eq!(owner.owner, "bob");
}

#[test]
fn send_nft_moves_ownership_and_dispatches_hook() {
    let mut ledger = setup("minty");
    mint(&mut ledger, "minty", "1", "bob", None, Metadata { native: None, cw20: None }).unwrap();
    let env = mock_env();
    let info = mock_info("bob");
    let res = contract::execute(
        &mut ledger,
        &env,
        &info,
        ExecuteMsg::SendNft {
            contract: "game".to_string(),
            token_id: "1".to_string(),
            msg: vec![1, 2, 3],
        },
    )
    .unwrap();
    let owner = ledger.owner_of(&env, &"1".to_string(), false).unwrap();
    assert_eq!(owner.owner, "game");
    assert_eq!(res.messages.len(), 1);
    assert_eq!(res.messages[0].contract, "game");
    assert_eq!(res.messages[0].sender, "bob");
    assert_eq!(res.messages[0].token_id, "1");
    assert_eq!(res.messages[0].msg, vec![1, 2, 3]);
}

#[test]
fn has_native_or_cw20_reports_presence_not_non_emptiness() {
    let empty = Metadata { native: None, cw20: None };
    assert!(!empty.has_native_or_cw20());

    let explicit_empty_list = Metadata { native: Some(vec![]), cw20: None };
    assert!(explicit_empty_list.has_native_or_cw20());

    let cw20_only = Metadata {
        native: None,
        cw20: Some(vec![cw721_angel::metadata::Cw20 {
            contract_address: "token".to_string(),
            amount: 5,
        }]),
    };
    assert!(cw20_only.has_native_or_cw20());
}
