use vstd::prelude::*;
use vstd::string::StringExecFns;

use crate::errors::{ContractError, StdError};
use crate::ledger::{
    approvals_view, humanized, id_sel, opt_str_view, selected_ids, spec_can_send, spec_limit,
    strings_view, AllNftInfoResponse, ContractInfoResponse, Env, LedgerView, MessageInfo,
    NftInfoResponse, NumTokensResponse, OwnerOfResponse, TokenInfo, TokenLedger, TokenView,
    TokensResponse,
};
use crate::metadata::{Metadata, MetadataView};
use crate::msg::{
    AttributeView, Cw721ExecuteMsg, Cw721QueryMsg, Cw721ReceiveMsgView, ExecuteMsg, InstantiateMsg,
    MinterResponse, QueryMsg, Response, ResponseView,
};

verus! {

/// A token record with its URI and metadata replaced wholesale; identifier,
/// owner and grants untouched.
pub open spec fn updated_token(t: TokenView, token_uri: Seq<char>, metadata: MetadataView)
    -> TokenView {
    TokenView { token_uri: Some(token_uri), extension: metadata, ..t }
}

/// The one state transition original to this contract. A caller other than
/// the minter is refused; so — deliberately, and with the same error, not a
/// distinct not-found signal — is an update against a token identifier with
/// no record. Otherwise the token's URI and metadata are fully replaced,
/// every other record and every other part of the state is untouched, and
/// the acknowledgment carries no attributes and no messages.
pub open spec fn update_metadata_transition(
    s: LedgerView,
    sender: Seq<char>,
    token_id: Seq<char>,
    token_uri: Seq<char>,
    metadata: MetadataView,
) -> (LedgerView, Result<ResponseView, ContractError>) {
    if sender != s.minter {
        (s, Err(ContractError::Unauthorized))
    } else if !s.has_token(token_id) {
        (s, Err(ContractError::Unauthorized))
    } else {
        (
            (LedgerView {
                tokens: s.tokens.map_values(
                    |t: TokenView|
                        if t.token_id == token_id {
                            updated_token(t, token_uri, metadata)
                        } else {
                            t
                        },
                ),
                ..s
            }),
            Ok(ResponseView::empty()),
        )
    }
}

/// Authorizes and applies a metadata update: the body realizes exactly
/// [`update_metadata_transition`] on the ledger.
pub fn execute_update_metadata(
    ledger: &mut TokenLedger,
    _env: &Env,
    info: &MessageInfo,
    token_id: String,
    token_uri: String,
    metadata: Metadata,
) -> (r: Result<Response, ContractError>)
    requires
        old(ledger)@.wf(),
    ensures
        final(ledger)@.wf(),
        ({
            let t = update_metadata_transition(
                old(ledger)@,
                info.sender@,
                token_id@,
                token_uri@,
                metadata@,
            );
            &&& final(ledger)@ == t.0
            &&& match (r, t.1) {
                (Ok(resp), Ok(v)) => resp@ == v,
                (Err(e), Err(ev)) => e == ev,
                _ => false,
            }
        }),
{
    if info.sender != ledger.minter {
        return Err(ContractError::Unauthorized);
    }
    match ledger.find_token_index(&token_id) {
        None => Err(ContractError::Unauthorized),
        Some(i) => {
            let ghost oldv = ledger@;
            let ghost uriv = token_uri@;
            let ghost metav = metadata@;
            let mut t = ledger.tokens.remove(i);
            t.token_uri = Some(token_uri);
            t.extension = metadata;
            ledger.tokens.insert(i, t);
            proof {
                let f = |t: TokenView|
                    if t.token_id == token_id@ {
                        updated_token(t, uriv, metav)
                    } else {
                        t
                    };
                assert forall|j: int| 0 <= j < oldv.tokens.len() implies ledger@.tokens[j] == f(
                    oldv.tokens[j],
                ) by {
                    if j != i {
                        if j < i {
                            assert(oldv.tokens[j].token_id != oldv.tokens[i as int].token_id);
                        } else {
                            assert(oldv.tokens[i as int].token_id != oldv.tokens[j].token_id);
                        }
                        assert(ledger@.tokens[j] == oldv.tokens[j]);
                    } else {
                        assert(ledger@.tokens[j] =~= updated_token(oldv.tokens[j], uriv, metav));
                    }
                }
                assert(ledger@.tokens =~= oldv.tokens.map_values(f));
                assert(ledger@ =~= (LedgerView { tokens: oldv.tokens.map_values(f), ..oldv }));
                assert forall|p: int, q: int| 0 <= p < q < ledger@.tokens.len() implies ledger@
                    .tokens[p].token_id != ledger@.tokens[q].token_id by {
                    assert(ledger@.tokens[p] == f(oldv.tokens[p]));
                    assert(ledger@.tokens[q] == f(oldv.tokens[q]));
                    assert(oldv.tokens[p].token_id != oldv.tokens[q].token_id);
                }
            }
            Ok(Response::new())
        },
    }
}

/// The record-level decision of one update request, for a caller that
/// holds the durable store itself: given the recorded minter, the caller,
/// and the record currently under the token identifier (if any), says
/// whether anything may change and what the store must hold afterwards.
/// A caller other than the minter, or a missing record, is refused as
/// unauthorized; otherwise the returned record is the stored one with its
/// URI and metadata replaced and everything else untouched.
pub fn apply_update(
    minter: &String,
    sender: &String,
    token: Option<TokenInfo>,
    token_uri: String,
    metadata: Metadata,
) -> (r: Result<TokenInfo, ContractError>)
    ensures
        sender@ != minter@ ==> r == Err::<TokenInfo, ContractError>(ContractError::Unauthorized),
        sender@ == minter@ ==> (match token {
            None => r == Err::<TokenInfo, ContractError>(ContractError::Unauthorized),
            Some(t) => r matches Ok(t2) && t2@ == (TokenView {
                token_uri: Some(token_uri@),
                extension: metadata@,
                ..t@
            }),
        }),
{
    if *sender != *minter {
        return Err(ContractError::Unauthorized);
    }
    match token {
        None => Err(ContractError::Unauthorized),
        Some(mut t) => {
            t.token_uri = Some(token_uri);
            t.extension = metadata;
            Ok(t)
        },
    }
}

/// Sets up a fresh contract instance: the base ledger records name, symbol
/// and minter, then the instance's own name/version tag replaces the base
/// one for migration bookkeeping. In this model no input is refused; the
/// host side is what validates addresses before they reach the ledger.
pub fn instantiate(_env: &Env, _info: &MessageInfo, msg: InstantiateMsg) -> (r: Result<
    (TokenLedger, Response),
    ContractError,
>)
    ensures
        r matches Ok((ledger, resp)) && ledger@ == (LedgerView {
            name: msg.name@,
            symbol: msg.symbol@,
            minter: msg.minter@,
            tag_name: "crates.io:cw721-angel"@,
            tag_version: "0.1.0"@,
            tokens: Seq::empty(),
        }) && ledger@.wf() && resp@ == ResponseView::empty(),
{
    let mut ledger = TokenLedger::instantiate(msg);
    ledger.tag_name = String::from_str("crates.io:cw721-angel");
    ledger.tag_version = String::from_str("0.1.0");
    Ok((ledger, Response::new()))
}

/// Routes one execute request: `UpdateMetadata` is intercepted and handled
/// here, before any conversion to the base message set can be attempted;
/// each inherited operation is converted unchanged and delegated to the
/// base ledger. Exactly one branch runs per call.
pub fn execute(ledger: &mut TokenLedger, env: &Env, info: &MessageInfo, msg: ExecuteMsg) -> (r:
    Result<Response, ContractError>)
    requires
        old(ledger)@.wf(),
    ensures
        final(ledger)@.wf(),
        msg matches ExecuteMsg::UpdateMetadata { token_id, token_uri, metadata } ==> ({
            let t = update_metadata_transition(
                old(ledger)@,
                info.sender@,
                token_id@,
                token_uri@,
                metadata@,
            );
            &&& final(ledger)@ == t.0
            &&& match (r, t.1) {
                (Ok(resp), Ok(v)) => resp@ == v,
                (Err(e), Err(ev)) => e == ev,
                _ => false,
            }
        }),
        msg matches ExecuteMsg::Mint(m) ==> {
            &&& info.sender@ != old(ledger)@.minter ==> r == Err::<Response, ContractError>(
                ContractError::Unauthorized,
            ) && final(ledger)@ == old(ledger)@
            &&& info.sender@ == old(ledger)@.minter && old(ledger)@.has_token(m.token_id@) ==> r
                == Err::<Response, ContractError>(ContractError::Claimed) && final(ledger)@ == old(
                ledger,
            )@
            &&& info.sender@ == old(ledger)@.minter && !old(ledger)@.has_token(m.token_id@) ==> {
                &&& final(ledger)@ == (LedgerView {
                    tokens: old(ledger)@.tokens.push(
                        (TokenView {
                            token_id: m.token_id@,
                            owner: m.owner@,
                            approvals: Seq::empty(),
                            token_uri: opt_str_view(m.token_uri),
                            extension: m.extension@,
                        }),
                    ),
                    ..old(ledger)@
                })
                &&& r matches Ok(resp) && resp@ == (ResponseView {
                    attributes: seq![
                        (AttributeView { key: "action"@, value: "mint"@ }),
                        (AttributeView { key: "minter"@, value: info.sender@ }),
                        (AttributeView { key: "owner"@, value: m.owner@ }),
                        (AttributeView { key: "token_id"@, value: m.token_id@ }),
                    ],
                    messages: Seq::empty(),
                })
            }
        },
        msg matches ExecuteMsg::Burn { token_id } ==> {
            &&& !old(ledger)@.has_token(token_id@) ==> r == Err::<Response, ContractError>(
                ContractError::Std(StdError::NotFound),
            ) && final(ledger)@ == old(ledger)@
            &&& old(ledger)@.has_token(token_id@) && !spec_can_send(
                env.block,
                old(ledger)@.tokens[old(ledger)@.token_index(token_id@)],
                info.sender@,
            ) ==> r == Err::<Response, ContractError>(ContractError::Unauthorized) && final(ledger)@ == old(ledger)@
            &&& old(ledger)@.has_token(token_id@) && spec_can_send(
                env.block,
                old(ledger)@.tokens[old(ledger)@.token_index(token_id@)],
                info.sender@,
            ) ==> {
                &&& final(ledger)@ == (LedgerView {
                    tokens: old(ledger)@.tokens.remove(old(ledger)@.token_index(token_id@)),
                    ..old(ledger)@
                })
                &&& r matches Ok(resp) && resp@ == (ResponseView {
                    attributes: seq![
                        (AttributeView { key: "action"@, value: "burn"@ }),
                        (AttributeView { key: "sender"@, value: info.sender@ }),
                        (AttributeView { key: "token_id"@, value: token_id@ }),
                    ],
                    messages: Seq::empty(),
                })
            }
        },
        msg matches ExecuteMsg::TransferNft { recipient, token_id } ==> {
            &&& !old(ledger)@.has_token(token_id@) ==> r == Err::<Response, ContractError>(
                ContractError::Std(StdError::NotFound),
            ) && final(ledger)@ == old(ledger)@
            &&& old(ledger)@.has_token(token_id@) && !spec_can_send(
                env.block,
                old(ledger)@.tokens[old(ledger)@.token_index(token_id@)],
                info.sender@,
            ) ==> r == Err::<Response, ContractError>(ContractError::Unauthorized) && final(ledger)@ == old(ledger)@
            &&& old(ledger)@.has_token(token_id@) && spec_can_send(
                env.block,
                old(ledger)@.tokens[old(ledger)@.token_index(token_id@)],
                info.sender@,
            ) ==> {
                &&& final(ledger)@ == (LedgerView {
                    tokens: old(ledger)@.tokens.update(
                        old(ledger)@.token_index(token_id@),
                        (TokenView {
                            owner: recipient@,
                            approvals: Seq::empty(),
                            ..old(ledger)@.tokens[old(ledger)@.token_index(token_id@)]
                        }),
                    ),
                    ..old(ledger)@
                })
                &&& r matches Ok(resp) && resp@ == (ResponseView {
                    attributes: seq![
                        (AttributeView { key: "action"@, value: "transfer_nft"@ }),
                        (AttributeView { key: "sender"@, value: info.sender@ }),
                        (AttributeView { key: "recipient"@, value: recipient@ }),
                        (AttributeView { key: "token_id"@, value: token_id@ }),
                    ],
                    messages: Seq::empty(),
                })
            }
        },
        msg matches ExecuteMsg::SendNft { contract, token_id, msg: payload } ==> {
            &&& !old(ledger)@.has_token(token_id@) ==> r == Err::<Response, ContractError>(
                ContractError::Std(StdError::NotFound),
            ) && final(ledger)@ == old(ledger)@
            &&& old(ledger)@.has_token(token_id@) && !spec_can_send(
                env.block,
                old(ledger)@.tokens[old(ledger)@.token_index(token_id@)],
                info.sender@,
            ) ==> r == Err::<Response, ContractError>(ContractError::Unauthorized) && final(ledger)@ == old(ledger)@
            &&& old(ledger)@.has_token(token_id@) && spec_can_send(
                env.block,
                old(ledger)@.tokens[old(ledger)@.token_index(token_id@)],
                info.sender@,
            ) ==> {
                &&& final(ledger)@ == (LedgerView {
                    tokens: old(ledger)@.tokens.update(
                        old(ledger)@.token_index(token_id@),
                        (TokenView {
                            owner: contract@,
                            approvals: Seq::empty(),
                            ..old(ledger)@.tokens[old(ledger)@.token_index(token_id@)]
                        }),
                    ),
                    ..old(ledger)@
                })
                &&& r matches Ok(resp) && resp@ == (ResponseView {
                    attributes: seq![
                        (AttributeView { key: "action"@, value: "send_nft"@ }),
                        (AttributeView { key: "sender"@, value: info.sender@ }),
                        (AttributeView { key: "recipient"@, value: contract@ }),
                        (AttributeView { key: "token_id"@, value: token_id@ }),
                    ],
                    messages: seq![
                        (Cw721ReceiveMsgView {
                            contract: contract@,
                            sender: info.sender@,
                            token_id: token_id@,
                            msg: payload@,
                        }),
                    ],
                })
            }
        },
{
    match msg {
        ExecuteMsg::UpdateMetadata { token_id, token_uri, metadata } => execute_update_metadata(
            ledger,
            env,
            info,
            token_id,
            token_uri,
            metadata,
        ),
        base_msg => {
            match base_msg.into_base() {
                Cw721ExecuteMsg::Mint(m) => ledger.mint(env, info, m),
                Cw721ExecuteMsg::Burn { token_id } => ledger.burn(env, info, token_id),
                Cw721ExecuteMsg::TransferNft { recipient, token_id } => ledger.transfer_nft(
                    env,
                    info,
                    recipient,
                    token_id,
                ),
                Cw721ExecuteMsg::SendNft { contract, token_id, msg: payload } => ledger.send_nft(
                    env,
                    info,
                    contract,
                    token_id,
                    payload,
                ),
            }
        },
    }
}

/// What one read-only request returns.
#[derive(Debug, PartialEq)]
pub enum QueryAnswer {
    OwnerOf(OwnerOfResponse),
    NumTokens(NumTokensResponse),
    ContractInfo(ContractInfoResponse),
    NftInfo(NftInfoResponse),
    AllNftInfo(AllNftInfoResponse),
    Tokens(TokensResponse),
    AllTokens(TokensResponse),
    Minter(MinterResponse),
}

/// Routes one read-only request, converted unchanged and delegated to the
/// base ledger's read handlers. `CollectionInfo` has no base counterpart
/// and must be intercepted by the caller before this point.
pub fn query(ledger: &TokenLedger, env: &Env, msg: QueryMsg) -> (r: Result<QueryAnswer, StdError>)
    requires
        ledger@.wf(),
        !(msg is CollectionInfo),
    ensures
        msg matches QueryMsg::OwnerOf { token_id, include_expired } ==> {
            &&& !ledger@.has_token(token_id@) ==> r == Err::<QueryAnswer, StdError>(
                StdError::NotFound,
            )
            &&& ledger@.has_token(token_id@) ==> ({
                let t = ledger@.tokens[ledger@.token_index(token_id@)];
                r matches Ok(QueryAnswer::OwnerOf(o)) && o.owner@ == t.owner && approvals_view(
                    o.approvals,
                ) == humanized(
                    env.block,
                    t.approvals,
                    match include_expired {
                        Some(b) => b,
                        None => false,
                    },
                )
            })
        },
        msg matches QueryMsg::NumTokens {  } ==> r matches Ok(QueryAnswer::NumTokens(n)) && n.count
            == ledger@.tokens.len(),
        msg matches QueryMsg::ContractInfo {  } ==> r matches Ok(QueryAnswer::ContractInfo(c))
            && c.name@ == ledger@.name && c.symbol@ == ledger@.symbol,
        msg matches QueryMsg::NftInfo { token_id } ==> {
            &&& !ledger@.has_token(token_id@) ==> r == Err::<QueryAnswer, StdError>(
                StdError::NotFound,
            )
            &&& ledger@.has_token(token_id@) ==> ({
                let t = ledger@.tokens[ledger@.token_index(token_id@)];
                r matches Ok(QueryAnswer::NftInfo(info)) && opt_str_view(info.token_uri)
                    == t.token_uri && info.extension@ == t.extension
            })
        },
        msg matches QueryMsg::AllNftInfo { token_id, include_expired } ==> {
            &&& !ledger@.has_token(token_id@) ==> r == Err::<QueryAnswer, StdError>(
                StdError::NotFound,
            )
            &&& ledger@.has_token(token_id@) ==> ({
                let t = ledger@.tokens[ledger@.token_index(token_id@)];
                r matches Ok(QueryAnswer::AllNftInfo(a)) && a.access.owner@ == t.owner
                    && approvals_view(a.access.approvals) == humanized(
                    env.block,
                    t.approvals,
                    match include_expired {
                        Some(b) => b,
                        None => false,
                    },
                ) && opt_str_view(a.info.token_uri) == t.token_uri && a.info.extension@
                    == t.extension
            })
        },
        msg matches QueryMsg::Tokens { owner, start_after, limit } ==> ({
            let sel = selected_ids(ledger@.tokens, id_sel(Some(owner@), opt_str_view(start_after)));
            let k = if spec_limit(limit) <= sel.len() {
                spec_limit(limit)
            } else {
                sel.len() as int
            };
            r matches Ok(QueryAnswer::Tokens(ts)) && strings_view(ts.tokens) == sel.take(k)
        }),
        msg matches QueryMsg::AllTokens { start_after, limit } ==> ({
            let sel = selected_ids(ledger@.tokens, id_sel(None, opt_str_view(start_after)));
            let k = if spec_limit(limit) <= sel.len() {
                spec_limit(limit)
            } else {
                sel.len() as int
            };
            r matches Ok(QueryAnswer::AllTokens(ts)) && strings_view(ts.tokens) == sel.take(k)
        }),
        msg matches QueryMsg::Minter {  } ==> r matches Ok(QueryAnswer::Minter(m)) && m.minter@
            == ledger@.minter,
{
    match msg.into_base() {
        Cw721QueryMsg::OwnerOf { token_id, include_expired } => {
            let incl = match include_expired {
                Some(b) => b,
                None => false,
            };
            match ledger.owner_of(env, &token_id, incl) {
                Ok(o) => Ok(QueryAnswer::OwnerOf(o)),
                Err(e) => Err(e),
            }
        },
        Cw721QueryMsg::NumTokens {} => Ok(QueryAnswer::NumTokens(ledger.num_tokens())),
        Cw721QueryMsg::ContractInfo {} => Ok(QueryAnswer::ContractInfo(ledger.contract_info())),
        Cw721QueryMsg::NftInfo { token_id } => match ledger.nft_info(&token_id) {
            Ok(info) => Ok(QueryAnswer::NftInfo(info)),
            Err(e) => Err(e),
        },
        Cw721QueryMsg::AllNftInfo { token_id, include_expired } => {
            let incl = match include_expired {
                Some(b) => b,
                None => false,
            };
            match ledger.all_nft_info(env, &token_id, incl) {
                Ok(a) => Ok(QueryAnswer::AllNftInfo(a)),
                Err(e) => Err(e),
            }
        },
        Cw721QueryMsg::Tokens { owner, start_after, limit } => Ok(
            QueryAnswer::Tokens(ledger.tokens(owner, start_after, limit)),
        ),
        Cw721QueryMsg::AllTokens { start_after, limit } => Ok(
            QueryAnswer::AllTokens(ledger.all_tokens(start_after, limit)),
        ),
        Cw721QueryMsg::Minter {} => Ok(QueryAnswer::Minter(ledger.minter())),
    }
}

} // verus!
