use cw721_angel::contract::{self, QueryAnswer};
use cw721_angel::ledger::{BlockInfo, Env, Expiration, MessageInfo, TokenLedger};
use cw721_angel::metadata::{Coin, Metadata};
use cw721_angel::msg::{Cw721ExecuteMsg, Cw721QueryMsg, ExecuteMsg, InstantiateMsg, MintMsg, QueryMsg};

const USER1: &str = "juno10c3slrqx3369mfsr9670au22zvq082jaej8ve4";
const ADMIN: &str = "ADMIN";
const NATIVE_DENOM: &str = "ujunox";
const TOKEN_ID: &str = "0";
const MINTER: &str = "juno10c3slrqx3369mfsr9670au22zvq082jaejxx85";

fn mock_env() -> Env {
    Env { block: BlockInfo { height: 12_345, time: 1_571_797_419_879_305_533 } }
}

fn mock_info(sender: &str) -> MessageInfo {
    MessageInfo { sender: sender.to_string(), funds: vec![] }
}

fn coins(amount: u128, denom: &str) -> Vec<Coin> {
    vec![Coin { denom: denom.to_string(), amount }]
}

fn cw721_instantiate(name: &str, symbol: &str, minter: &str) -> TokenLedger {
    let env = mock_env();
    let info = mock_info(ADMIN);
    let init_msg = InstantiateMsg {
        name: name.to_string(),
        symbol: symbol.to_string(),
        minter: minter.to_string(),
    };
    let (ledger, _res) = contract::instantiate(&env, &info, init_msg).unwrap();
    ledger
}

fn mint_nft(
    ledger: &mut TokenLedger,
    sender: &str,
    token_id: String,
    token_uri: Option<String>,
    owner: String,
    extension: Metadata,
) {
    let env = mock_env();
    let info = mock_info(sender);
    let mint_msg = MintMsg { token_id, owner, token_uri, extension };
    contract::execute(ledger, &env, &info, ExecuteMsg::Mint(mint_msg)).unwrap();
}

fn get_owner_of(ledger: &TokenLedger, token_id: String) -> String {
    let env = mock_env();
    match contract::query(
        ledger,
        &env,
        QueryMsg::OwnerOf { token_id, include_expired: None },
    )
    .unwrap()
    {
        QueryAnswer::OwnerOf(o) => o.owner,
        other => panic!("unexpected answer: {:?}", other),
    }
}

#[test]
fn instantiate_mint_nft() {
    let mut ledger = cw721_instantiate("Greeks", "draghma", MINTER);

    let metadata = Metadata { native: Some(coins(1000, NATIVE_DENOM)), cw20: None };
    let _new_metadata = Metadata { native: Some(coins(2000, NATIVE_DENOM)), cw20: None };

    mint_nft(
        &mut ledger,
        MINTER,
        TOKEN_ID.to_string(),
        Some("url".to_string()),
        USER1.to_string(),
        metadata,
    );

    let owner = get_owner_of(&ledger, TOKEN_ID.to_string());
    assert_eq!(owner, USER1.to_string());
}

#[test]
fn mint_update_and_query_flow() {
    let mut ledger = cw721_instantiate("Greeks", "drachma", "M");
    let env = mock_env();

    mint_nft(
        &mut ledger,
        "M",
        "1".to_string(),
        None,
        "bob".to_string(),
        Metadata { native: Some(coins(1000, "earth")), cw20: None },
    );
    assert_eq!(get_owner_of(&ledger, "1".to_string()), "bob");

    let info = mock_info("M");
    contract::execute(
        &mut ledger,
        &env,
        &info,
        ExecuteMsg::UpdateMetadata {
            token_id: "1".to_string(),
            token_uri: "u2".to_string(),
            metadata: Metadata { native: Some(coins(2000, "mars")), cw20: None },
        },
    )
    .unwrap();

    match contract::query(&ledger, &env, QueryMsg::NftInfo { token_id: "1".to_string() }).unwrap()
    {
        QueryAnswer::NftInfo(info) => {
            assert_eq!(info.token_uri, Some("u2".to_string()));
            assert_eq!(
                info.extension,
                Metadata { native: Some(coins(2000, "mars")), cw20: None }
            );
        },
        other => panic!("unexpected answer: {:?}", other),
    }
}

#[test]
fn update_by_owner_not_minter_fails() {
    let mut ledger = cw721_instantiate("Greeks", "drachma", "M");
    let env = mock_env();

    mint_nft(
        &mut ledger,
        "M",
        "1".to_string(),
        None,
        "bob".to_string(),
        Metadata { native: Some(coins(1000, "earth")), cw20: None },
    );

    let info = mock_info("bob");
    let err = contract::execute(
        &mut ledger,
        &env,
        &info,
        ExecuteMsg::UpdateMetadata {
            token_id: "1".to_string(),
            token_uri: "u2".to_string(),
            metadata: Metadata { native: Some(coins(2000, "mars")), cw20: None },
        },
    )
    .unwrap_err();
    assert_eq!(err, cw721_angel::errors::ContractError::Unauthorized);
}

#[test]
fn query_contract_info_num_tokens_and_minter() {
    let mut ledger = cw721_instantiate("Greeks", "drachma", MINTER);
    let env = mock_env();

    mint_nft(
        &mut ledger,
        MINTER,
        "a".to_string(),
        None,
        "bob".to_string(),
        Metadata { native: None, cw20: None },
    );
    mint_nft(
        &mut ledger,
        MINTER,
        "b".to_string(),
        None,
        "alice".to_string(),
        Metadata { native: None, cw20: None },
    );

    match contract::query(&ledger, &env, QueryMsg::ContractInfo {}).unwrap() {
        QueryAnswer::ContractInfo(c) => {
            assert_eq!(c.name, "Greeks");
            assert_eq!(c.symbol, "drachma");
        },
        other => panic!("unexpected answer: {:?}", other),
    }
    match contract::query(&ledger, &env, QueryMsg::NumTokens {}).unwrap() {
        QueryAnswer::NumTokens(n) => assert_eq!(n.count, 2),
        other => panic!("unexpected answer: {:?}", other),
    }
    match contract::query(&ledger, &env, QueryMsg::Minter {}).unwrap() {
        QueryAnswer::Minter(m) => assert_eq!(m.minter, MINTER),
        other => panic!("unexpected answer: {:?}", other),
    }
}

#[test]
fn query_tokens_filters_pages_and_limits() {
    let mut ledger = cw721_instantiate("Greeks", "drachma", MINTER);
    let env = mock_env();
    let none_meta = || Metadata { native: None, cw20: None };

    mint_nft(&mut ledger, MINTER, "a".to_string(), None, "bob".to_string(), none_meta());
    mint_nft(&mut ledger, MINTER, "b".to_string(), None, "alice".to_string(), none_meta());
    mint_nft(&mut ledger, MINTER, "c".to_string(), None, "bob".to_string(), none_meta());

    match contract::query(
        &ledger,
        &env,
        QueryMsg::Tokens { owner: "bob".to_string(), start_after: None, limit: None },
    )
    .unwrap()
    {
        QueryAnswer::Tokens(t) => assert_eq!(t.tokens, vec!["a".to_string(), "c".to_string()]),
        other => panic!("unexpected answer: {:?}", other),
    }
    match contract::query(
        &ledger,
        &env,
        QueryMsg::Tokens {
            owner: "bob".to_string(),
            start_after: Some("a".to_string()),
            limit: None,
        },
    )
    .unwrap()
    {
        QueryAnswer::Tokens(t) => assert_eq!(t.tokens, vec!["c".to_string()]),
        other => panic!("unexpected answer: {:?}", other),
    }
    match contract::query(
        &ledger,
        &env,
        QueryMsg::AllTokens { start_after: None, limit: Some(2) },
    )
    .unwrap()
    {
        QueryAnswer::AllTokens(t) => {
            assert_eq!(t.tokens, vec!["a".to_string(), "b".to_string()])
        },
        other => panic!("unexpected answer: {:?}", other),
    }
    match contract::query(
        &ledger,
        &env,
        QueryMsg::AllNftInfo { token_id: "a".to_string(), include_expired: None },
    )
    .unwrap()
    {
        QueryAnswer::AllNftInfo(a) => {
            assert_eq!(a.access.owner, "bob");
            assert!(a.access.approvals.is_empty());
            assert_eq!(a.info.token_uri, None);
        },
        other => panic!("unexpected answer: {:?}", other),
    }
}

#[test]
fn execute_msg_converts_to_base_set() {
    let converted = ExecuteMsg::TransferNft {
        recipient: "alice".to_string(),
        token_id: "7".to_string(),
    }
    .into_base();
    assert_eq!(
        converted,
        Cw721ExecuteMsg::TransferNft { recipient: "alice".to_string(), token_id: "7".to_string() }
    );

    let converted = ExecuteMsg::Burn { token_id: "7".to_string() }.into_base();
    assert_eq!(converted, Cw721ExecuteMsg::Burn { token_id: "7".to_string() });
}

#[test]
fn query_msg_converts_to_base_set() {
    let converted = QueryMsg::NftInfo { token_id: "7".to_string() }.into_base();
    assert_eq!(converted, Cw721QueryMsg::NftInfo { token_id: "7".to_string() });

    let converted =
        QueryMsg::Tokens { owner: "bob".to_string(), start_after: None, limit: Some(3) }
            .into_base();
    assert_eq!(
        converted,
        Cw721QueryMsg::Tokens { owner: "bob".to_string(), start_after: None, limit: Some(3) }
    );
}

#[test]
fn expiration_against_block() {
    let block = BlockInfo { height: 100, time: 1_000 };
    assert!(Expiration::AtHeight(100).is_expired(&block));
    assert!(!Expiration::AtHeight(101).is_expired(&block));
    assert!(Expiration::AtTime(999).is_expired(&block));
    assert!(!Expiration::AtTime(1_001).is_expired(&block));
    assert!(!Expiration::Never.is_expired(&block));
}
