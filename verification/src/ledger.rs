use vstd::prelude::*;

use crate::errors::{ContractError, StdError};
use crate::metadata::{Coin, Metadata, MetadataView};
use crate::msg::{
    AttributeView, Cw721ReceiveMsg, Cw721ReceiveMsgView, InstantiateMsg, MintMsg, MinterResponse,
    Response, ResponseView,
};
use crate::order::{lex_lt, str_lt};
use vstd::string::StringExecFns;

verus! {

/// The block the current transition runs in, as the host runtime reports
/// it: a height and a timestamp in nanoseconds.
#[derive(Clone, Copy, Debug, PartialEq, Eq, Structural)]
pub struct BlockInfo {
    pub height: u64,
    pub time: u64,
}

/// The host-supplied environment of one transition.
#[derive(Clone, Copy, Debug, PartialEq, Eq, Structural)]
pub struct Env {
    pub block: BlockInfo,
}

/// The authenticated request envelope: the caller's identity and the funds
/// sent along with the request.
#[derive(Debug, PartialEq)]
pub struct MessageInfo {
    pub sender: String,
    pub funds: Vec<Coin>,
}

/// When a grant of access runs out.
#[derive(Clone, Copy, Debug, PartialEq, Eq, Structural)]
pub enum Expiration {
    AtHeight(u64),
    AtTime(u64),
    Never,
}

/// Whether the grant has run out at the given block.
pub open spec fn spec_is_expired(e: Expiration, b: BlockInfo) -> bool {
    match e {
        Expiration::AtHeight(h) => b.height >= h,
        Expiration::AtTime(t) => b.time >= t,
        Expiration::Never => false,
    }
}

impl Expiration {
    pub fn is_expired(&self, b: &BlockInfo) -> (r: bool)
        ensures
            r == spec_is_expired(*self, *b),
    {
        match *self {
            Expiration::AtHeight(h) => b.height >= h,
            Expiration::AtTime(t) => b.time >= t,
            Expiration::Never => false,
        }
    }
}

/// A per-token grant: the address allowed to transfer or send the token,
/// and when that permission runs out.
#[derive(Debug, PartialEq)]
pub struct Approval {
    pub spender: String,
    pub expires: Expiration,
}

/// Mathematical view of an `Approval`.
#[verifier::ext_equal]
pub ghost struct ApprovalView {
    pub spender: Seq<char>,
    pub expires: Expiration,
}

impl View for Approval {
    type V = ApprovalView;

    open spec fn view(&self) -> ApprovalView {
        ApprovalView { spender: self.spender@, expires: self.expires }
    }
}

impl Clone for Approval {
    fn clone(&self) -> (r: Self)
        ensures
            r@ == self@,
    {
        Approval { spender: self.spender.clone(), expires: self.expires }
    }
}

/// One durable token record: the unique identifier it is keyed by, its
/// owner, the transfer grants on it, an optional URI and the metadata
/// extension.
#[derive(Debug, PartialEq)]
pub struct TokenInfo {
    pub token_id: String,
    pub owner: String,
    pub approvals: Vec<Approval>,
    pub token_uri: Option<String>,
    pub extension: Metadata,
}

/// Mathematical view of a token record.
#[verifier::ext_equal]
pub ghost struct TokenView {
    pub token_id: Seq<char>,
    pub owner: Seq<char>,
    pub approvals: Seq<ApprovalView>,
    pub token_uri: Option<Seq<char>>,
    pub extension: MetadataView,
}

pub open spec fn approvals_view(v: Vec<Approval>) -> Seq<ApprovalView> {
    v@.map(|i: int, a: Approval| a@)
}

pub open spec fn opt_str_view(o: Option<String>) -> Option<Seq<char>> {
    match o {
        Some(s) => Some(s@),
        None => None,
    }
}

impl View for TokenInfo {
    type V = TokenView;

    open spec fn view(&self) -> TokenView {
        TokenView {
            token_id: self.token_id@,
            owner: self.owner@,
            approvals: approvals_view(self.approvals),
            token_uri: opt_str_view(self.token_uri),
            extension: self.extension@,
        }
    }
}

/// The durable state of one contract instance: the collection bookkeeping
/// recorded at instantiation, the single minter identity, the contract
/// name/version tag kept for migration bookkeeping, and the token records.
#[derive(Debug, PartialEq)]
pub struct TokenLedger {
    pub name: String,
    pub symbol: String,
    pub minter: String,
    pub tag_name: String,
    pub tag_version: String,
    pub tokens: Vec<TokenInfo>,
}

/// Mathematical view of the whole ledger.
#[verifier::ext_equal]
pub ghost struct LedgerView {
    pub name: Seq<char>,
    pub symbol: Seq<char>,
    pub minter: Seq<char>,
    pub tag_name: Seq<char>,
    pub tag_version: Seq<char>,
    pub tokens: Seq<TokenView>,
}

pub open spec fn tokens_view(v: Vec<TokenInfo>) -> Seq<TokenView> {
    v@.map(|i: int, t: TokenInfo| t@)
}

impl View for TokenLedger {
    type V = LedgerView;

    open spec fn view(&self) -> LedgerView {
        LedgerView {
            name: self.name@,
            symbol: self.symbol@,
            minter: self.minter@,
            tag_name: self.tag_name@,
            tag_version: self.tag_version@,
            tokens: tokens_view(self.tokens),
        }
    }
}

impl LedgerView {
    /// A token identifier, once minted, maps to exactly one record: no two
    /// records share an identifier.
    pub open spec fn wf(self) -> bool {
        forall|i: int, j: int|
            0 <= i < j < self.tokens.len() ==> self.tokens[i].token_id != self.tokens[j].token_id
    }

    /// Whether some record is keyed by the given identifier.
    pub open spec fn has_token(self, token_id: Seq<char>) -> bool {
        exists|i: int| 0 <= i < self.tokens.len() && self.tokens[i].token_id == token_id
    }

    /// The position of the record keyed by the given identifier; under
    /// `wf` and `has_token` it is the one such position.
    pub open spec fn token_index(self, token_id: Seq<char>) -> int {
        choose|i: int| 0 <= i < self.tokens.len() && self.tokens[i].token_id == token_id
    }
}

/// Whether the sender may transfer, send or burn the token at the given
/// block: the owner always may, and so may any spender with an unexpired
/// grant. (Collection-wide operator grants have no operation in this
/// contract's message set, so no record of them can exist here.)
pub open spec fn spec_can_send(b: BlockInfo, t: TokenView, sender: Seq<char>) -> bool {
    t.owner == sender || exists|i: int|
        0 <= i < t.approvals.len() && t.approvals[i].spender == sender && !spec_is_expired(
            t.approvals[i].expires,
            b,
        )
}

impl TokenLedger {
    /// Position of the record keyed by `token_id`, if any.
    pub fn find_token_index(&self, token_id: &String) -> (r: Option<usize>)
        ensures
            match r {
                Some(i) => i < self@.tokens.len() && self@.tokens[i as int].token_id == token_id@
                    && (self@.wf() ==> i == self@.token_index(token_id@)),
                None => !self@.has_token(token_id@),
            },
    {
        let mut i: usize = 0;
        while i < self.tokens.len()
            invariant
                i <= self.tokens.len(),
                forall|j: int| 0 <= j < i ==> self@.tokens[j].token_id != token_id@,
            decreases self.tokens.len() - i,
        {
            if self.tokens[i].token_id == *token_id {
                proof {
                    if self@.wf() {
                        let k = self@.token_index(token_id@);
                        assert(self@.tokens[i as int].token_id == token_id@);
                        assert(self@.has_token(token_id@));
                        assert(0 <= k < self@.tokens.len() && self@.tokens[k].token_id
                            == token_id@);
                        if k < i {
                            assert(self@.tokens[k].token_id != self@.tokens[i as int].token_id);
                        } else if i < k {
                            assert(self@.tokens[i as int].token_id != self@.tokens[k].token_id);
                        }
                    }
                }
                return Some(i);
            }
            i += 1;
        }
        None
    }

    /// Whether `sender` may transfer, send or burn `token` now.
    fn can_send(&self, env: &Env, token: &TokenInfo, sender: &String) -> (r: bool)
        ensures
            r == spec_can_send(env.block, token@, sender@),
    {
        if token.owner == *sender {
            return true;
        }
        let mut i: usize = 0;
        while i < token.approvals.len()
            invariant
                i <= token.approvals.len(),
                token.owner@ != sender@,
                forall|j: int|
                    0 <= j < i ==> !(token@.approvals[j].spender == sender@ && !spec_is_expired(
                        token@.approvals[j].expires,
                        env.block,
                    )),
            decreases token.approvals.len() - i,
        {
            if token.approvals[i].spender == *sender && !token.approvals[i].expires.is_expired(
                &env.block,
            ) {
                proof {
                    assert(token@.approvals[i as int].spender == sender@ && !spec_is_expired(
                        token@.approvals[i as int].expires,
                        env.block,
                    ));
                }
                return true;
            }
            i += 1;
        }
        false
    }
}

impl TokenLedger {
    /// Sets up a fresh instance: records name, symbol and the minter, and
    /// stamps the base ledger's own name/version tag, which the extending
    /// contract overwrites with its own right after.
    pub fn instantiate(msg: InstantiateMsg) -> (r: TokenLedger)
        ensures
            r@ == (LedgerView {
                name: msg.name@,
                symbol: msg.symbol@,
                minter: msg.minter@,
                tag_name: "crates.io:cw721-base"@,
                tag_version: "0.15.0"@,
                tokens: Seq::empty(),
            }),
            r@.wf(),
    {
        let r = TokenLedger {
            name: msg.name,
            symbol: msg.symbol,
            minter: msg.minter,
            tag_name: String::from_str("crates.io:cw721-base"),
            tag_version: String::from_str("0.15.0"),
            tokens: Vec::new(),
        };
        proof {
            assert(r@.tokens =~= Seq::<TokenView>::empty());
        }
        r
    }

    /// Creates a new token record. Only the minter may mint; a taken
    /// identifier is refused as already claimed. On success the record is
    /// appended with the supplied owner, URI and metadata and no grants.
    pub fn mint(&mut self, _env: &Env, info: &MessageInfo, msg: MintMsg) -> (r: Result<
        Response,
        ContractError,
    >)
        requires
            old(self)@.wf(),
        ensures
            final(self)@.wf(),
            info.sender@ != old(self)@.minter ==> r == Err::<Response, ContractError>(
                ContractError::Unauthorized,
            ) && final(self)@ == old(self)@,
            info.sender@ == old(self)@.minter && old(self)@.has_token(msg.token_id@) ==> r
                == Err::<Response, ContractError>(ContractError::Claimed) && final(self)@ == old(
                self,
            )@,
            info.sender@ == old(self)@.minter && !old(self)@.has_token(msg.token_id@) ==> {
                &&& final(self)@ == (LedgerView {
                    tokens: old(self)@.tokens.push(
                        (TokenView {
                            token_id: msg.token_id@,
                            owner: msg.owner@,
                            approvals: Seq::empty(),
                            token_uri: opt_str_view(msg.token_uri),
                            extension: msg.extension@,
                        }),
                    ),
                    ..old(self)@
                })
                &&& r matches Ok(resp) && resp@ == (ResponseView {
                    attributes: seq![
                        (AttributeView { key: "action"@, value: "mint"@ }),
                        (AttributeView { key: "minter"@, value: info.sender@ }),
                        (AttributeView { key: "owner"@, value: msg.owner@ }),
                        (AttributeView { key: "token_id"@, value: msg.token_id@ }),
                    ],
                    messages: Seq::empty(),
                })
            },
    {
        if info.sender != self.minter {
            return Err(ContractError::Unauthorized);
        }
        match self.find_token_index(&msg.token_id) {
            Some(_) => Err(ContractError::Claimed),
            None => {
                let resp = Response::new().add_attribute(
                    "action",
                    String::from_str("mint"),
                ).add_attribute("minter", info.sender.clone()).add_attribute(
                    "owner",
                    msg.owner.clone(),
                ).add_attribute("token_id", msg.token_id.clone());
                let ghost oldv = self@;
                let ghost newtok = TokenView {
                    token_id: msg.token_id@,
                    owner: msg.owner@,
                    approvals: Seq::empty(),
                    token_uri: opt_str_view(msg.token_uri),
                    extension: msg.extension@,
                };
                let token = TokenInfo {
                    token_id: msg.token_id,
                    owner: msg.owner,
                    approvals: Vec::new(),
                    token_uri: msg.token_uri,
                    extension: msg.extension,
                };
                self.tokens.push(token);
                proof {
                    assert(token@ =~= newtok);
                    assert(self@.tokens =~= oldv.tokens.push(newtok));
                    assert(self@ =~= (LedgerView { tokens: oldv.tokens.push(newtok), ..oldv }));
                    assert forall|i: int, j: int| 0 <= i < j < self@.tokens.len() implies self@
                        .tokens[i].token_id != self@.tokens[j].token_id by {
                        if j < oldv.tokens.len() {
                            assert(oldv.tokens[i].token_id != oldv.tokens[j].token_id);
                        } else {
                            assert(self@.tokens[j] == newtok);
                            if oldv.tokens[i].token_id == newtok.token_id {
                                assert(oldv.has_token(newtok.token_id));
                            }
                        }
                    }
                    assert(resp@.attributes =~= seq![
                        (AttributeView { key: "action"@, value: "mint"@ }),
                        (AttributeView { key: "minter"@, value: info.sender@ }),
                        (AttributeView { key: "owner"@, value: newtok.owner }),
                        (AttributeView { key: "token_id"@, value: newtok.token_id }),
                    ]);
                    assert(resp@ =~= (ResponseView {
                        attributes: resp@.attributes,
                        messages: Seq::empty(),
                    }));
                }
                Ok(resp)
            },
        }
    }

    /// Removes a token record. The token must exist (a storage-level
    /// not-found fault otherwise) and the sender must be allowed to send
    /// it (the owner, or a spender with an unexpired grant).
    pub fn burn(&mut self, env: &Env, info: &MessageInfo, token_id: String) -> (r: Result<
        Response,
        ContractError,
    >)
        requires
            old(self)@.wf(),
        ensures
            final(self)@.wf(),
            !old(self)@.has_token(token_id@) ==> r == Err::<Response, ContractError>(
                ContractError::Std(StdError::NotFound),
            ) && final(self)@ == old(self)@,
            old(self)@.has_token(token_id@) && !spec_can_send(
                env.block,
                old(self)@.tokens[old(self)@.token_index(token_id@)],
                info.sender@,
            ) ==> r == Err::<Response, ContractError>(ContractError::Unauthorized) && final(self)@
                == old(self)@,
            old(self)@.has_token(token_id@) && spec_can_send(
                env.block,
                old(self)@.tokens[old(self)@.token_index(token_id@)],
                info.sender@,
            ) ==> {
                &&& final(self)@ == (LedgerView {
                    tokens: old(self)@.tokens.remove(old(self)@.token_index(token_id@)),
                    ..old(self)@
                })
                &&& r matches Ok(resp) && resp@ == (ResponseView {
                    attributes: seq![
                        (AttributeView { key: "action"@, value: "burn"@ }),
                        (AttributeView { key: "sender"@, value: info.sender@ }),
                        (AttributeView { key: "token_id"@, value: token_id@ }),
                    ],
                    messages: Seq::empty(),
                })
            },
    {
        match self.find_token_index(&token_id) {
            None => Err(ContractError::Std(StdError::NotFound)),
            Some(i) => {
                if !self.can_send(env, &self.tokens[i], &info.sender) {
                    Err(ContractError::Unauthorized)
                } else {
                    let ghost oldv = self@;
                    let _ = self.tokens.remove(i);
                    let resp = Response::new().add_attribute(
                        "action",
                        String::from_str("burn"),
                    ).add_attribute("sender", info.sender.clone()).add_attribute(
                        "token_id",
                        token_id,
                    );
                    proof {
                        assert(self@.tokens =~= oldv.tokens.remove(i as int));
                        assert(self@ =~= (LedgerView {
                            tokens: oldv.tokens.remove(i as int),
                            ..oldv
                        }));
                        assert forall|p: int, q: int| 0 <= p < q < self@.tokens.len() implies self@
                            .tokens[p].token_id != self@.tokens[q].token_id by {
                            let p0 = if p < i { p } else { p + 1 };
                            let q0 = if q < i { q } else { q + 1 };
                            assert(oldv.tokens[p0].token_id != oldv.tokens[q0].token_id);
                        }
                        assert(resp@.attributes =~= seq![
                            (AttributeView { key: "action"@, value: "burn"@ }),
                            (AttributeView { key: "sender"@, value: info.sender@ }),
                            (AttributeView { key: "token_id"@, value: oldv.tokens[i as int].token_id }),
                        ]);
                        assert(resp@ =~= (ResponseView {
                            attributes: resp@.attributes,
                            messages: Seq::empty(),
                        }));
                    }
                    Ok(resp)
                }
            },
        }
    }

    /// What `TransferNft` and `SendNft` share: authorize, then hand the
    /// token to the recipient and drop the grants on it.
    fn transfer_impl(&mut self, env: &Env, info: &MessageInfo, recipient: &String, token_id: &String)
        -> (r: Result<(), ContractError>)
        requires
            old(self)@.wf(),
        ensures
            final(self)@.wf(),
            !old(self)@.has_token(token_id@) ==> r == Err::<(), ContractError>(ContractError::Std(
                StdError::NotFound,
            )) && final(self)@ == old(self)@,
            old(self)@.has_token(token_id@) && !spec_can_send(
                env.block,
                old(self)@.tokens[old(self)@.token_index(token_id@)],
                info.sender@,
            ) ==> r == Err::<(), ContractError>(ContractError::Unauthorized) && final(self)@ == old(
                self,
            )@,
            old(self)@.has_token(token_id@) && spec_can_send(
                env.block,
                old(self)@.tokens[old(self)@.token_index(token_id@)],
                info.sender@,
            ) ==> r == Ok::<(), ContractError>(()) && final(self)@ == (LedgerView {
                tokens: old(self)@.tokens.update(
                    old(self)@.token_index(token_id@),
                    (TokenView {
                        owner: recipient@,
                        approvals: Seq::empty(),
                        ..old(self)@.tokens[old(self)@.token_index(token_id@)]
                    }),
                ),
                ..old(self)@
            }),
    {
        match self.find_token_index(token_id) {
            None => Err(ContractError::Std(StdError::NotFound)),
            Some(i) => {
                if !self.can_send(env, &self.tokens[i], &info.sender) {
                    Err(ContractError::Unauthorized)
                } else {
                    let ghost oldv = self@;
                    let mut t = self.tokens.remove(i);
                    t.owner = recipient.clone();
                    t.approvals = Vec::new();
                    let ghost tv = t@;
                    self.tokens.insert(i, t);
                    proof {
                        assert(tv.approvals =~= Seq::<ApprovalView>::empty());
                        assert(self@.tokens =~= oldv.tokens.update(
                            i as int,
                            (TokenView {
                                owner: recipient@,
                                approvals: Seq::empty(),
                                ..oldv.tokens[i as int]
                            }),
                        ));
                        assert(self@ =~= (LedgerView { tokens: self@.tokens, ..oldv }));
                        assert forall|p: int, q: int| 0 <= p < q < self@.tokens.len() implies self@
                            .tokens[p].token_id != self@.tokens[q].token_id by {
                            assert(oldv.tokens[p].token_id != oldv.tokens[q].token_id);
                            assert(self@.tokens[p].token_id == oldv.tokens[p].token_id);
                            assert(self@.tokens[q].token_id == oldv.tokens[q].token_id);
                        }
                    }
                    Ok(())
                }
            },
        }
    }

    /// Moves a token to another account without triggering actions.
    pub fn transfer_nft(&mut self, env: &Env, info: &MessageInfo, recipient: String, token_id: String)
        -> (r: Result<Response, ContractError>)
        requires
            old(self)@.wf(),
        ensures
            final(self)@.wf(),
            !old(self)@.has_token(token_id@) ==> r == Err::<Response, ContractError>(
                ContractError::Std(StdError::NotFound),
            ) && final(self)@ == old(self)@,
            old(self)@.has_token(token_id@) && !spec_can_send(
                env.block,
                old(self)@.tokens[old(self)@.token_index(token_id@)],
                info.sender@,
            ) ==> r == Err::<Response, ContractError>(ContractError::Unauthorized) && final(self)@
                == old(self)@,
            old(self)@.has_token(token_id@) && spec_can_send(
                env.block,
                old(self)@.tokens[old(self)@.token_index(token_id@)],
                info.sender@,
            ) ==> {
                &&& final(self)@ == (LedgerView {
                    tokens: old(self)@.tokens.update(
                        old(self)@.token_index(token_id@),
                        (TokenView {
                            owner: recipient@,
                            approvals: Seq::empty(),
                            ..old(self)@.tokens[old(self)@.token_index(token_id@)]
                        }),
                    ),
                    ..old(self)@
                })
                &&& r matches Ok(resp) && resp@ == (ResponseView {
                    attributes: seq![
                        (AttributeView { key: "action"@, value: "transfer_nft"@ }),
                        (AttributeView { key: "sender"@, value: info.sender@ }),
                        (AttributeView { key: "recipient"@, value: recipient@ }),
                        (AttributeView { key: "token_id"@, value: token_id@ }),
                    ],
                    messages: Seq::empty(),
                })
            },
    {
        match self.transfer_impl(env, info, &recipient, &token_id) {
            Err(e) => Err(e),
            Ok(()) => {
                let resp = Response::new().add_attribute(
                    "action",
                    String::from_str("transfer_nft"),
                ).add_attribute("sender", info.sender.clone()).add_attribute(
                    "recipient",
                    recipient,
                ).add_attribute("token_id", token_id);
                proof {
                    assert(resp@ =~= (ResponseView {
                        attributes: resp@.attributes,
                        messages: Seq::empty(),
                    }));
                    assert(resp@.attributes =~= seq![
                        (AttributeView { key: "action"@, value: "transfer_nft"@ }),
                        (AttributeView { key: "sender"@, value: info.sender@ }),
                        (AttributeView { key: "recipient"@, value: resp@.attributes[2].value }),
                        (AttributeView { key: "token_id"@, value: resp@.attributes[3].value }),
                    ]);
                }
                Ok(resp)
            },
        }
    }

    /// Transfers a token to a contract and dispatches the receive hook
    /// that triggers an action there.
    pub fn send_nft(
        &mut self,
        env: &Env,
        info: &MessageInfo,
        contract: String,
        token_id: String,
        msg: Vec<u8>,
    ) -> (r: Result<Response, ContractError>)
        requires
            old(self)@.wf(),
        ensures
            final(self)@.wf(),
            !old(self)@.has_token(token_id@) ==> r == Err::<Response, ContractError>(
                ContractError::Std(StdError::NotFound),
            ) && final(self)@ == old(self)@,
            old(self)@.has_token(token_id@) && !spec_can_send(
                env.block,
                old(self)@.tokens[old(self)@.token_index(token_id@)],
                info.sender@,
            ) ==> r == Err::<Response, ContractError>(ContractError::Unauthorized) && final(self)@
                == old(self)@,
            old(self)@.has_token(token_id@) && spec_can_send(
                env.block,
                old(self)@.tokens[old(self)@.token_index(token_id@)],
                info.sender@,
            ) ==> {
                &&& final(self)@ == (LedgerView {
                    tokens: old(self)@.tokens.update(
                        old(self)@.token_index(token_id@),
                        (TokenView {
                            owner: contract@,
                            approvals: Seq::empty(),
                            ..old(self)@.tokens[old(self)@.token_index(token_id@)]
                        }),
                    ),
                    ..old(self)@
                })
                &&& r matches Ok(resp) && resp@ == (ResponseView {
                    attributes: seq![
                        (AttributeView { key: "action"@, value: "send_nft"@ }),
                        (AttributeView { key: "sender"@, value: info.sender@ }),
                        (AttributeView { key: "recipient"@, value: contract@ }),
                        (AttributeView { key: "token_id"@, value: token_id@ }),
                    ],
                    messages: seq![
                        (Cw721ReceiveMsgView {
                            contract: contract@,
                            sender: info.sender@,
                            token_id: token_id@,
                            msg: msg@,
                        }),
                    ],
                })
            },
    {
        match self.transfer_impl(env, info, &contract, &token_id) {
            Err(e) => Err(e),
            Ok(()) => {
                let hook = Cw721ReceiveMsg {
                    contract: contract.clone(),
                    sender: info.sender.clone(),
                    token_id: token_id.clone(),
                    msg,
                };
                let ghost hookv = hook@;
                let resp = Response::new().add_message(hook).add_attribute(
                    "action",
                    String::from_str("send_nft"),
                ).add_attribute("sender", info.sender.clone()).add_attribute(
                    "recipient",
                    contract,
                ).add_attribute("token_id", token_id);
                proof {
                    assert(resp@.attributes =~= seq![
                        (AttributeView { key: "action"@, value: "send_nft"@ }),
                        (AttributeView { key: "sender"@, value: info.sender@ }),
                        (AttributeView { key: "recipient"@, value: resp@.attributes[2].value }),
                        (AttributeView { key: "token_id"@, value: resp@.attributes[3].value }),
                    ]);
                    assert(resp@.messages =~= seq![hookv]);
                    assert(resp@ =~= (ResponseView {
                        attributes: resp@.attributes,
                        messages: resp@.messages,
                    }));
                }
                Ok(resp)
            },
        }
    }
}

/// Owner and live transfer grants of one token.
#[derive(Debug, PartialEq)]
pub struct OwnerOfResponse {
    pub owner: String,
    pub approvals: Vec<Approval>,
}

/// URI and metadata of one token.
#[derive(Debug, PartialEq)]
pub struct NftInfoResponse {
    pub token_uri: Option<String>,
    pub extension: Metadata,
}

/// The result of both `OwnerOf` and `NftInfo` in one query.
#[derive(Debug, PartialEq)]
pub struct AllNftInfoResponse {
    pub access: OwnerOfResponse,
    pub info: NftInfoResponse,
}

/// Total number of tokens issued.
#[derive(Debug, PartialEq)]
pub struct NumTokensResponse {
    pub count: u64,
}

/// Top-level name and symbol of the collection.
#[derive(Debug, PartialEq)]
pub struct ContractInfoResponse {
    pub name: String,
    pub symbol: String,
}

/// A page of token identifiers.
#[derive(Debug, PartialEq)]
pub struct TokensResponse {
    pub tokens: Vec<String>,
}

/// The grants reported for a token: all of them if `include_expired`, and
/// only the unexpired ones otherwise.
pub open spec fn humanized(
    b: BlockInfo,
    approvals: Seq<ApprovalView>,
    include_expired: bool,
) -> Seq<ApprovalView> {
    if include_expired {
        approvals
    } else {
        approvals.filter(|a: ApprovalView| !spec_is_expired(a.expires, b))
    }
}

/// Which token records an enumeration request selects: those of the given
/// owner (all owners when `None`) whose identifier comes strictly after
/// `start_after` in lexicographic order (all of them when `None`).
pub open spec fn id_sel(owner: Option<Seq<char>>, start_after: Option<Seq<char>>) -> spec_fn(
    TokenView,
) -> bool {
    |t: TokenView|
        (match owner {
            None => true,
            Some(o) => t.owner == o,
        }) && (match start_after {
            None => true,
            Some(s) => lex_lt(s, t.token_id),
        })
}

/// The identifiers of the selected records, in the ledger's stored order.
pub open spec fn selected_ids(tokens: Seq<TokenView>, pred: spec_fn(TokenView) -> bool) -> Seq<
    Seq<char>,
> {
    tokens.filter(pred).map_values(|t: TokenView| t.token_id)
}

pub open spec fn strings_view(v: Vec<String>) -> Seq<Seq<char>> {
    v@.map(|i: int, s: String| s@)
}

/// The page size an enumeration request resolves to: ten when unspecified,
/// and never more than one hundred.
pub open spec fn spec_limit(limit: Option<u32>) -> int {
    match limit {
        None => 10,
        Some(l) => if l <= 100 {
            l as int
        } else {
            100
        },
    }
}

/// How one more element changes a filtered sequence.
pub proof fn lemma_filter_push<A>(s: Seq<A>, pred: spec_fn(A) -> bool, e: A)
    ensures
        s.push(e).filter(pred) == (if pred(e) {
            s.filter(pred).push(e)
        } else {
            s.filter(pred)
        }),
{
    reveal(Seq::filter);
    assert(s.push(e).drop_last() =~= s);
    assert(s.push(e).last() == e);
}

impl TokenLedger {
    /// The collection's name and symbol.
    pub fn contract_info(&self) -> (r: ContractInfoResponse)
        ensures
            r.name@ == self@.name,
            r.symbol@ == self@.symbol,
    {
        ContractInfoResponse { name: self.name.clone(), symbol: self.symbol.clone() }
    }

    /// How many token records the ledger holds.
    pub fn num_tokens(&self) -> (r: NumTokensResponse)
        ensures
            r.count == self@.tokens.len(),
    {
        NumTokensResponse { count: self.tokens.len() as u64 }
    }

    /// The recorded minter.
    pub fn minter(&self) -> (r: MinterResponse)
        ensures
            r.minter@ == self@.minter,
    {
        MinterResponse { minter: self.minter.clone() }
    }

    /// URI and metadata of the token, or a not-found fault.
    pub fn nft_info(&self, token_id: &String) -> (r: Result<NftInfoResponse, StdError>)
        requires
            self@.wf(),
        ensures
            !self@.has_token(token_id@) ==> r == Err::<NftInfoResponse, StdError>(
                StdError::NotFound,
            ),
            self@.has_token(token_id@) ==> ({
                let t = self@.tokens[self@.token_index(token_id@)];
                r matches Ok(info) && opt_str_view(info.token_uri) == t.token_uri
                    && info.extension@ == t.extension
            }),
    {
        match self.find_token_index(token_id) {
            None => Err(StdError::NotFound),
            Some(i) => {
                let t = &self.tokens[i];
                Ok(
                    NftInfoResponse {
                        token_uri: match &t.token_uri {
                            Some(u) => Some(u.clone()),
                            None => None,
                        },
                        extension: t.extension.clone(),
                    },
                )
            },
        }
    }

    /// Owner and (unless asked for all) unexpired grants of the token, or
    /// a not-found fault.
    pub fn owner_of(&self, env: &Env, token_id: &String, include_expired: bool) -> (r: Result<
        OwnerOfResponse,
        StdError,
    >)
        requires
            self@.wf(),
        ensures
            !self@.has_token(token_id@) ==> r == Err::<OwnerOfResponse, StdError>(
                StdError::NotFound,
            ),
            self@.has_token(token_id@) ==> ({
                let t = self@.tokens[self@.token_index(token_id@)];
                r matches Ok(o) && o.owner@ == t.owner && approvals_view(o.approvals) == humanized(
                    env.block,
                    t.approvals,
                    include_expired,
                )
            }),
    {
        match self.find_token_index(token_id) {
            None => Err(StdError::NotFound),
            Some(i) => {
                let t = &self.tokens[i];
                let mut approvals: Vec<Approval> = Vec::new();
                let mut j: usize = 0;
                while j < t.approvals.len()
                    invariant
                        j <= t.approvals.len(),
                        approvals_view(approvals) == humanized(
                            env.block,
                            approvals_view(t.approvals).take(j as int),
                            include_expired,
                        ),
                    decreases t.approvals.len() - j,
                {
                    let ghost prefix = approvals_view(t.approvals).take(j as int);
                    let ghost av = t.approvals@[j as int]@;
                    if include_expired || !t.approvals[j].expires.is_expired(&env.block) {
                        approvals.push(t.approvals[j].clone());
                    }
                    proof {
                        assert(approvals_view(t.approvals).take(j + 1) =~= prefix.push(av));
                        lemma_filter_push(
                            prefix,
                            |a: ApprovalView| !spec_is_expired(a.expires, env.block),
                            av,
                        );
                        assert(approvals_view(approvals) =~= humanized(
                            env.block,
                            prefix.push(av),
                            include_expired,
                        ));
                    }
                    j += 1;
                }
                proof {
                    assert(approvals_view(t.approvals).take(t.approvals@.len() as int)
                        =~= approvals_view(t.approvals));
                }
                Ok(OwnerOfResponse { owner: t.owner.clone(), approvals })
            },
        }
    }

    /// `OwnerOf` and `NftInfo` in one query.
    pub fn all_nft_info(&self, env: &Env, token_id: &String, include_expired: bool) -> (r: Result<
        AllNftInfoResponse,
        StdError,
    >)
        requires
            self@.wf(),
        ensures
            !self@.has_token(token_id@) ==> r == Err::<AllNftInfoResponse, StdError>(
                StdError::NotFound,
            ),
            self@.has_token(token_id@) ==> ({
                let t = self@.tokens[self@.token_index(token_id@)];
                r matches Ok(a) && a.access.owner@ == t.owner && approvals_view(a.access.approvals)
                    == humanized(env.block, t.approvals, include_expired) && opt_str_view(
                    a.info.token_uri,
                ) == t.token_uri && a.info.extension@ == t.extension
            }),
    {
        let access = match self.owner_of(env, token_id, include_expired) {
            Ok(o) => o,
            Err(e) => {
                return Err(e);
            },
        };
        let info = match self.nft_info(token_id) {
            Ok(i) => i,
            Err(e) => {
                return Err(e);
            },
        };
        Ok(AllNftInfoResponse { access, info })
    }

    /// The identifiers the enumeration request selects, in the ledger's
    /// stored order, cut down to the resolved page size.
    fn list_ids(&self, owner: Option<&String>, start_after: &Option<String>, limit: Option<u32>)
        -> (r: Vec<String>)
        ensures
            ({
                let ov = match owner {
                    None => None::<Seq<char>>,
                    Some(o) => Some(o@),
                };
                let sel = selected_ids(self@.tokens, id_sel(ov, opt_str_view(*start_after)));
                let k = if spec_limit(limit) <= sel.len() {
                    spec_limit(limit)
                } else {
                    sel.len() as int
                };
                strings_view(r) == sel.take(k)
            }),
    {
        let ghost ov = match owner {
            None => None::<Seq<char>>,
            Some(o) => Some(o@),
        };
        let ghost pred = id_sel(ov, opt_str_view(*start_after));
        let lim: u32 = match limit {
            None => 10,
            Some(l) => if l > 100 {
                100
            } else {
                l
            },
        };
        let mut out: Vec<String> = Vec::new();
        let mut i: usize = 0;
        proof {
            assert(self@.tokens.take(0) =~= Seq::<TokenView>::empty());
            assert(Seq::<TokenView>::empty().filter(pred) =~= Seq::<TokenView>::empty()) by {
                reveal(Seq::filter);
            }
            assert(strings_view(out) =~= selected_ids(self@.tokens.take(0), pred));
        }
        while i < self.tokens.len()
            invariant
                i <= self.tokens.len(),
                strings_view(out) == selected_ids(self@.tokens.take(i as int), pred),
                pred == id_sel(ov, opt_str_view(*start_after)),
                ov == (match owner {
                    None => None::<Seq<char>>,
                    Some(o) => Some(o@),
                }),
            decreases self.tokens.len() - i,
        {
            let t = &self.tokens[i];
            let ghost prefix = self@.tokens.take(i as int);
            let keep_owner = match owner {
                None => true,
                Some(o) => t.owner == *o,
            };
            let keep_after = match start_after {
                None => true,
                Some(s) => str_lt(s.as_str(), t.token_id.as_str()),
            };
            if keep_owner && keep_after {
                out.push(t.token_id.clone());
            }
            proof {
                let tok = self@.tokens[i as int];
                let sa = opt_str_view(*start_after);
                assert(self@.tokens.take(i + 1) =~= prefix.push(tok));
                assert(pred(tok) == ((match ov {
                    None => true,
                    Some(o) => tok.owner == o,
                }) && (match sa {
                    None => true,
                    Some(s) => lex_lt(s, tok.token_id),
                })));
                assert(pred(tok) == (keep_owner && keep_after));
                lemma_filter_push(prefix, pred, tok);
                if keep_owner && keep_after {
                    assert(selected_ids(prefix.push(tok), pred) =~= selected_ids(
                        prefix,
                        pred,
                    ).push(tok.token_id));
                    assert(strings_view(out) =~= selected_ids(prefix, pred).push(tok.token_id));
                } else {
                    assert(selected_ids(prefix.push(tok), pred) =~= selected_ids(prefix, pred));
                    assert(strings_view(out) =~= selected_ids(prefix, pred));
                }
            }
            i += 1;
        }
        proof {
            assert(self@.tokens.take(self.tokens@.len() as int) =~= self@.tokens);
        }
        let ghost whole = strings_view(out);
        out.truncate(lim as usize);
        proof {
            let sel = selected_ids(self@.tokens, pred);
            let k = if spec_limit(limit) <= sel.len() {
                spec_limit(limit)
            } else {
                sel.len() as int
            };
            if lim as int <= whole.len() {
                assert(out@.map(|n: int, s: String| s@) =~= whole.subrange(0, lim as int));
                assert(whole.subrange(0, lim as int) =~= sel.take(k));
            } else {
                assert(out@.map(|n: int, s: String| s@) =~= whole);
                assert(whole =~= sel.take(k));
            }
        }
        out
    }

    /// Identifiers of the tokens the given address owns, beginning
    /// strictly after `start_after`, at most `limit` of them.
    pub fn tokens(&self, owner: String, start_after: Option<String>, limit: Option<u32>) -> (r:
        TokensResponse)
        ensures
            ({
                let sel = selected_ids(
                    self@.tokens,
                    id_sel(Some(owner@), opt_str_view(start_after)),
                );
                let k = if spec_limit(limit) <= sel.len() {
                    spec_limit(limit)
                } else {
                    sel.len() as int
                };
                strings_view(r.tokens) == sel.take(k)
            }),
    {
        TokensResponse { tokens: self.list_ids(Some(&owner), &start_after, limit) }
    }

    /// Identifiers of all tokens the ledger tracks, beginning strictly
    /// after `start_after`, at most `limit` of them.
    pub fn all_tokens(&self, start_after: Option<String>, limit: Option<u32>) -> (r:
        TokensResponse)
        ensures
            ({
                let sel = selected_ids(self@.tokens, id_sel(None, opt_str_view(start_after)));
                let k = if spec_limit(limit) <= sel.len() {
                    spec_limit(limit)
                } else {
                    sel.len() as int
                };
                strings_view(r.tokens) == sel.take(k)
            }),
    {
        TokensResponse { tokens: self.list_ids(None, &start_after, limit) }
    }
}

} // verus!
