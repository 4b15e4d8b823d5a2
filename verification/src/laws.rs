use vstd::prelude::*;

use crate::contract::{update_metadata_transition, updated_token};
use crate::errors::ContractError;
use crate::ledger::{LedgerView, TokenView};
use crate::metadata::MetadataView;
use crate::msg::ResponseView;

verus! {

/// For every caller other than the recorded minter, an update request
/// fails as unauthorized and leaves the whole state — the token records
/// included, whether or not the identifier names one — unchanged.
pub proof fn lemma_update_metadata_requires_minter(
    s: LedgerView,
    sender: Seq<char>,
    token_id: Seq<char>,
    token_uri: Seq<char>,
    metadata: MetadataView,
)
    requires
        sender != s.minter,
    ensures
        update_metadata_transition(s, sender, token_id, token_uri, metadata) == (
            s,
            Err::<ResponseView, ContractError>(ContractError::Unauthorized),
        ),
{
}

/// For the minter, an update against a token identifier with no record
/// fails as unauthorized — not with a distinct not-found signal — and
/// causes no state change.
pub proof fn lemma_update_metadata_missing_token(
    s: LedgerView,
    sender: Seq<char>,
    token_id: Seq<char>,
    token_uri: Seq<char>,
    metadata: MetadataView,
)
    requires
        sender == s.minter,
        !s.has_token(token_id),
    ensures
        update_metadata_transition(s, sender, token_id, token_uri, metadata) == (
            s,
            Err::<ResponseView, ContractError>(ContractError::Unauthorized),
        ),
{
}

/// For the minter and an existing token, the update succeeds with the
/// empty acknowledgment and fully replaces that token's URI and metadata;
/// the token's identifier, owner and grants, every other record, and every
/// other part of the state are unchanged.
pub proof fn lemma_update_metadata_replaces(
    s: LedgerView,
    sender: Seq<char>,
    token_id: Seq<char>,
    token_uri: Seq<char>,
    metadata: MetadataView,
    i: int,
)
    requires
        s.wf(),
        sender == s.minter,
        0 <= i < s.tokens.len(),
        s.tokens[i].token_id == token_id,
    ensures
        ({
            let t = update_metadata_transition(s, sender, token_id, token_uri, metadata);
            &&& t.1 == Ok::<ResponseView, ContractError>(ResponseView::empty())
            &&& t.0.tokens.len() == s.tokens.len()
            &&& t.0.tokens[i].token_uri == Some(token_uri)
            &&& t.0.tokens[i].extension == metadata
            &&& t.0.tokens[i].token_id == s.tokens[i].token_id
            &&& t.0.tokens[i].owner == s.tokens[i].owner
            &&& t.0.tokens[i].approvals == s.tokens[i].approvals
            &&& forall|j: int| 0 <= j < s.tokens.len() && j != i ==> t.0.tokens[j] == s.tokens[j]
            &&& t.0.name == s.name
            &&& t.0.symbol == s.symbol
            &&& t.0.minter == s.minter
            &&& t.0.tag_name == s.tag_name
            &&& t.0.tag_version == s.tag_version
        }),
{
    assert(s.has_token(token_id));
    let t = update_metadata_transition(s, sender, token_id, token_uri, metadata);
    assert forall|j: int| 0 <= j < s.tokens.len() && j != i implies t.0.tokens[j] == s.tokens[j] by {
        if j < i {
            assert(s.tokens[j].token_id != s.tokens[i].token_id);
        } else {
            assert(s.tokens[i].token_id != s.tokens[j].token_id);
        }
    }
}

/// Round trip through a mint: appending a record under a fresh identifier
/// keeps the ledger well formed, and a lookup by that identifier afterwards
/// finds exactly the appended record — so a query for the token's URI and
/// metadata returns what the mint supplied.
pub proof fn lemma_mint_round_trip(s: LedgerView, t: TokenView)
    requires
        s.wf(),
        !s.has_token(t.token_id),
    ensures
        ({
            let s2 = LedgerView { tokens: s.tokens.push(t), ..s };
            &&& s2.wf()
            &&& s2.has_token(t.token_id)
            &&& s2.tokens[s2.token_index(t.token_id)] == t
        }),
{
    let s2 = LedgerView { tokens: s.tokens.push(t), ..s };
    let n = s.tokens.len() as int;
    assert(s2.tokens[n] == t);
    assert(s2.has_token(t.token_id));
    assert forall|i: int, j: int| 0 <= i < j < s2.tokens.len() implies s2.tokens[i].token_id
        != s2.tokens[j].token_id by {
        if j < n {
            assert(s.tokens[i].token_id != s.tokens[j].token_id);
        } else {
            if s.tokens[i].token_id == t.token_id {
                assert(s.has_token(t.token_id));
            }
        }
    }
    let k = s2.token_index(t.token_id);
    if k != n {
        assert(s2.tokens[k].token_id == s2.tokens[n].token_id);
        assert(false);
    }
}

/// Issuing the same update request twice in succession ends in the same
/// final state, and with the same outcome, as issuing it once.
pub proof fn lemma_update_metadata_idempotent(
    s: LedgerView,
    sender: Seq<char>,
    token_id: Seq<char>,
    token_uri: Seq<char>,
    metadata: MetadataView,
)
    requires
        s.wf(),
    ensures
        ({
            let once = update_metadata_transition(s, sender, token_id, token_uri, metadata);
            let twice = update_metadata_transition(
                once.0,
                sender,
                token_id,
                token_uri,
                metadata,
            );
            twice.0 == once.0 && twice.1 == once.1
        }),
{
    let once = update_metadata_transition(s, sender, token_id, token_uri, metadata);
    let twice = update_metadata_transition(once.0, sender, token_id, token_uri, metadata);
    if sender == s.minter && s.has_token(token_id) {
        let s1 = once.0;
        let k = choose|k: int| 0 <= k < s.tokens.len() && s.tokens[k].token_id == token_id;
        assert(s1.tokens[k].token_id == token_id);
        assert(s1.has_token(token_id));
        assert forall|j: int| 0 <= j < s1.tokens.len() implies twice.0.tokens[j] == s1.tokens[j] by {
            assert(s1.tokens[j].token_id == s.tokens[j].token_id);
            if s.tokens[j].token_id == token_id {
                assert(s1.tokens[j] == updated_token(s.tokens[j], token_uri, metadata));
                assert(twice.0.tokens[j] == updated_token(s1.tokens[j], token_uri, metadata));
                assert(twice.0.tokens[j] =~= s1.tokens[j]);
            } else {
                assert(s1.tokens[j] == s.tokens[j]);
                assert(twice.0.tokens[j] == s1.tokens[j]);
            }
        }
        assert(twice.0.tokens =~= s1.tokens);
        assert(twice.0 =~= s1);
    }
}

} // verus!
