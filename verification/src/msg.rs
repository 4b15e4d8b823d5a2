use vstd::pervasive::unreached;
use vstd::prelude::*;
use vstd::string::StringExecFns;

use crate::metadata::Metadata;

verus! {

/// The instantiate payload: collection name, symbol, and the single address
/// allowed to mint (and, in this extension, to update metadata).
#[derive(Debug, PartialEq)]
pub struct InstantiateMsg {
    pub name: String,
    pub symbol: String,
    pub minter: String,
}

/// The mint payload: a fresh token identifier, its owner, an optional URI
/// and the metadata extension stored with the record.
#[derive(Debug, PartialEq)]
pub struct MintMsg {
    pub token_id: String,
    pub owner: String,
    pub token_uri: Option<String>,
    pub extension: Metadata,
}

/// The closed set of execute operations this contract accepts: the four
/// operations inherited from the base ledger plus `UpdateMetadata`.
#[derive(Debug, PartialEq)]
pub enum ExecuteMsg {
    /// Mint a new NFT; only the contract minter may call this.
    Mint(MintMsg),
    /// Replace the URI and metadata of an existing NFT; only the contract
    /// minter may call this.
    UpdateMetadata { token_id: String, token_uri: String, metadata: Metadata },
    /// Burn an NFT the sender has access to.
    Burn { token_id: String },
    /// Move a token to another account without triggering actions.
    TransferNft { recipient: String, token_id: String },
    /// Transfer a token to a contract and trigger an action on the
    /// receiving contract.
    SendNft { contract: String, token_id: String, msg: Vec<u8> },
}

/// The closed set of read-only operations this contract accepts: the eight
/// operations inherited from the base ledger plus `CollectionInfo`.
#[derive(Debug, PartialEq)]
pub enum QueryMsg {
    /// Owner of the given token; an error if the token does not exist.
    OwnerOf { token_id: String, include_expired: Option<bool> },
    /// Total number of tokens issued.
    NumTokens {},
    /// Top-level name and symbol of the collection.
    ContractInfo {},
    /// URI and metadata of one token.
    NftInfo { token_id: String },
    /// The result of both `NftInfo` and `OwnerOf` in one query.
    AllNftInfo { token_id: String, include_expired: Option<bool> },
    /// Identifiers of the tokens owned by the given address.
    Tokens { owner: String, start_after: Option<String>, limit: Option<u32> },
    /// Identifiers of all tokens the contract tracks.
    AllTokens { start_after: Option<String>, limit: Option<u32> },
    /// The recorded minter.
    Minter {},
    /// Extension query with no base counterpart.
    CollectionInfo {},
}

/// The base ledger's execute-message set, restricted to the operations this
/// contract ever hands down to it.
#[derive(Debug, PartialEq)]
pub enum Cw721ExecuteMsg {
    Mint(MintMsg),
    Burn { token_id: String },
    TransferNft { recipient: String, token_id: String },
    SendNft { contract: String, token_id: String, msg: Vec<u8> },
}

/// The base ledger's query-message set, restricted to the operations this
/// contract ever hands down to it.
#[derive(Debug, PartialEq)]
pub enum Cw721QueryMsg {
    OwnerOf { token_id: String, include_expired: Option<bool> },
    NumTokens {},
    ContractInfo {},
    NftInfo { token_id: String },
    AllNftInfo { token_id: String, include_expired: Option<bool> },
    Tokens { owner: String, start_after: Option<String>, limit: Option<u32> },
    AllTokens { start_after: Option<String>, limit: Option<u32> },
    Minter {},
}

impl ExecuteMsg {
    /// One-way conversion down to the base ledger's execute-message set: a
    /// structural identity mapping per field for the four inherited
    /// operations. `UpdateMetadata` has no base counterpart, so callers
    /// must intercept it before converting; the precondition makes the
    /// formerly unreachable branch impossible to reach.
    pub fn into_base(self) -> (r: Cw721ExecuteMsg)
        requires
            !(self is UpdateMetadata),
        ensures
            self matches ExecuteMsg::Mint(m) ==> r == Cw721ExecuteMsg::Mint(m),
            self matches ExecuteMsg::Burn { token_id } ==> r == (Cw721ExecuteMsg::Burn {
                token_id,
            }),
            self matches ExecuteMsg::TransferNft { recipient, token_id } ==> r
                == (Cw721ExecuteMsg::TransferNft { recipient, token_id }),
            self matches ExecuteMsg::SendNft { contract, token_id, msg } ==> r
                == (Cw721ExecuteMsg::SendNft { contract, token_id, msg }),
    {
        match self {
            ExecuteMsg::Mint(m) => Cw721ExecuteMsg::Mint(m),
            ExecuteMsg::UpdateMetadata { .. } => unreached(),
            ExecuteMsg::Burn { token_id } => Cw721ExecuteMsg::Burn { token_id },
            ExecuteMsg::TransferNft { recipient, token_id } => Cw721ExecuteMsg::TransferNft {
                recipient,
                token_id,
            },
            ExecuteMsg::SendNft { contract, token_id, msg } => Cw721ExecuteMsg::SendNft {
                contract,
                token_id,
                msg,
            },
        }
    }
}

impl QueryMsg {
    /// One-way conversion down to the base ledger's query-message set: a
    /// structural identity mapping per field for the eight inherited
    /// operations. `CollectionInfo` has no base counterpart, so callers
    /// must intercept it before converting.
    pub fn into_base(self) -> (r: Cw721QueryMsg)
        requires
            !(self is CollectionInfo),
        ensures
            self matches QueryMsg::OwnerOf { token_id, include_expired } ==> r
                == (Cw721QueryMsg::OwnerOf { token_id, include_expired }),
            self matches QueryMsg::NumTokens {  } ==> r == (Cw721QueryMsg::NumTokens {  }),
            self matches QueryMsg::ContractInfo {  } ==> r == (Cw721QueryMsg::ContractInfo {  }),
            self matches QueryMsg::NftInfo { token_id } ==> r == (Cw721QueryMsg::NftInfo {
                token_id,
            }),
            self matches QueryMsg::AllNftInfo { token_id, include_expired } ==> r
                == (Cw721QueryMsg::AllNftInfo { token_id, include_expired }),
            self matches QueryMsg::Tokens { owner, start_after, limit } ==> r
                == (Cw721QueryMsg::Tokens { owner, start_after, limit }),
            self matches QueryMsg::AllTokens { start_after, limit } ==> r
                == (Cw721QueryMsg::AllTokens { start_after, limit }),
            self matches QueryMsg::Minter {  } ==> r == (Cw721QueryMsg::Minter {  }),
    {
        match self {
            QueryMsg::OwnerOf { token_id, include_expired } => Cw721QueryMsg::OwnerOf {
                token_id,
                include_expired,
            },
            QueryMsg::NumTokens {} => Cw721QueryMsg::NumTokens {},
            QueryMsg::ContractInfo {} => Cw721QueryMsg::ContractInfo {},
            QueryMsg::NftInfo { token_id } => Cw721QueryMsg::NftInfo { token_id },
            QueryMsg::AllNftInfo { token_id, include_expired } => Cw721QueryMsg::AllNftInfo {
                token_id,
                include_expired,
            },
            QueryMsg::Tokens { owner, start_after, limit } => Cw721QueryMsg::Tokens {
                owner,
                start_after,
                limit,
            },
            QueryMsg::AllTokens { start_after, limit } => Cw721QueryMsg::AllTokens {
                start_after,
                limit,
            },
            QueryMsg::Minter {} => Cw721QueryMsg::Minter {},
            QueryMsg::CollectionInfo {} => unreached(),
        }
    }
}

/// Shows who can mint these tokens.
#[derive(Debug, PartialEq)]
pub struct MinterResponse {
    pub minter: String,
}

/// One key/value event attribute of a response.
#[derive(Debug, PartialEq)]
pub struct Attribute {
    pub key: String,
    pub value: String,
}

/// Mathematical view of an `Attribute`.
#[verifier::ext_equal]
pub ghost struct AttributeView {
    pub key: Seq<char>,
    pub value: Seq<char>,
}

impl View for Attribute {
    type V = AttributeView;

    open spec fn view(&self) -> AttributeView {
        AttributeView { key: self.key@, value: self.value@ }
    }
}

/// The receive hook a `SendNft` success dispatches to the recipient
/// contract: who sent, which token, and the opaque payload to act on.
#[derive(Debug, PartialEq)]
pub struct Cw721ReceiveMsg {
    pub contract: String,
    pub sender: String,
    pub token_id: String,
    pub msg: Vec<u8>,
}

/// Mathematical view of a `Cw721ReceiveMsg`.
#[verifier::ext_equal]
pub ghost struct Cw721ReceiveMsgView {
    pub contract: Seq<char>,
    pub sender: Seq<char>,
    pub token_id: Seq<char>,
    pub msg: Seq<u8>,
}

impl View for Cw721ReceiveMsg {
    type V = Cw721ReceiveMsgView;

    open spec fn view(&self) -> Cw721ReceiveMsgView {
        Cw721ReceiveMsgView {
            contract: self.contract@,
            sender: self.sender@,
            token_id: self.token_id@,
            msg: self.msg@,
        }
    }
}

/// The outcome of a successful state transition: the event attributes it
/// emits and the outbound messages it dispatches.
#[derive(Debug, PartialEq)]
pub struct Response {
    pub attributes: Vec<Attribute>,
    pub messages: Vec<Cw721ReceiveMsg>,
}

/// Mathematical view of a `Response`.
#[verifier::ext_equal]
pub ghost struct ResponseView {
    pub attributes: Seq<AttributeView>,
    pub messages: Seq<Cw721ReceiveMsgView>,
}

impl ResponseView {
    /// The empty-payload acknowledgment: no attributes, no messages.
    pub open spec fn empty() -> ResponseView {
        ResponseView { attributes: Seq::empty(), messages: Seq::empty() }
    }
}

impl View for Response {
    type V = ResponseView;

    open spec fn view(&self) -> ResponseView {
        ResponseView {
            attributes: self.attributes@.map(|i: int, a: Attribute| a@),
            messages: self.messages@.map(|i: int, m: Cw721ReceiveMsg| m@),
        }
    }
}

impl Response {
    /// The empty response.
    pub fn new() -> (r: Response)
        ensures
            r@ == ResponseView::empty(),
    {
        let r = Response { attributes: Vec::new(), messages: Vec::new() };
        proof {
            assert(r@.attributes =~= Seq::<AttributeView>::empty());
            assert(r@.messages =~= Seq::<Cw721ReceiveMsgView>::empty());
        }
        r
    }

    /// The same response with one more event attribute.
    pub fn add_attribute(self, key: &str, value: String) -> (r: Response)
        ensures
            r@.attributes == self@.attributes.push(AttributeView { key: key@, value: value@ }),
            r@.messages == self@.messages,
    {
        let mut attributes = self.attributes;
        let ghost prev = attributes@.map(|i: int, a: Attribute| a@);
        attributes.push(Attribute { key: String::from_str(key), value });
        let r = Response { attributes, messages: self.messages };
        proof {
            assert(r@.attributes =~= prev.push(AttributeView { key: key@, value: value@ }));
        }
        r
    }

    /// The same response with one more outbound message.
    pub fn add_message(self, m: Cw721ReceiveMsg) -> (r: Response)
        ensures
            r@.messages == self@.messages.push(m@),
            r@.attributes == self@.attributes,
    {
        let ghost mv = m@;
        let mut messages = self.messages;
        let ghost prev = messages@.map(|i: int, x: Cw721ReceiveMsg| x@);
        messages.push(m);
        let r = Response { attributes: self.attributes, messages };
        proof {
            assert(r@.messages =~= prev.push(mv));
        }
        r
    }
}

} // verus!
