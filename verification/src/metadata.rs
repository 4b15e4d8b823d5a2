use vstd::prelude::*;

verus! {

/// A native-currency amount: a denomination together with a non-negative
/// integer amount.
#[derive(Debug, PartialEq)]
pub struct Coin {
    pub denom: String,
    pub amount: u128,
}

/// A reference to a fungible-token contract together with an amount held
/// there.
#[derive(Debug, PartialEq, Default)]
pub struct Cw20 {
    pub contract_address: String,
    pub amount: u128,
}

/// The metadata payload attached to each token: an optional list of
/// native-currency amounts and an optional list of fungible-token
/// references. Nothing forces either list to be present, and an explicitly
/// provided empty list counts as present.
#[derive(Debug, PartialEq, Default)]
pub struct Metadata {
    pub native: Option<Vec<Coin>>,
    pub cw20: Option<Vec<Cw20>>,
}

/// Mathematical view of a `Coin`.
#[verifier::ext_equal]
pub ghost struct CoinView {
    pub denom: Seq<char>,
    pub amount: u128,
}

/// Mathematical view of a `Cw20`.
#[verifier::ext_equal]
pub ghost struct Cw20View {
    pub contract_address: Seq<char>,
    pub amount: u128,
}

/// Mathematical view of a `Metadata`.
#[verifier::ext_equal]
pub ghost struct MetadataView {
    pub native: Option<Seq<CoinView>>,
    pub cw20: Option<Seq<Cw20View>>,
}

impl View for Coin {
    type V = CoinView;

    open spec fn view(&self) -> CoinView {
        CoinView { denom: self.denom@, amount: self.amount }
    }
}

impl View for Cw20 {
    type V = Cw20View;

    open spec fn view(&self) -> Cw20View {
        Cw20View { contract_address: self.contract_address@, amount: self.amount }
    }
}

pub open spec fn coins_view(v: Vec<Coin>) -> Seq<CoinView> {
    v@.map(|i: int, c: Coin| c@)
}

pub open spec fn cw20s_view(v: Vec<Cw20>) -> Seq<Cw20View> {
    v@.map(|i: int, c: Cw20| c@)
}

impl View for Metadata {
    type V = MetadataView;

    open spec fn view(&self) -> MetadataView {
        MetadataView {
            native: match self.native {
                Some(v) => Some(coins_view(v)),
                None => None,
            },
            cw20: match self.cw20 {
                Some(v) => Some(cw20s_view(v)),
                None => None,
            },
        }
    }
}

impl Clone for Coin {
    fn clone(&self) -> (r: Self)
        ensures
            r@ == self@,
    {
        Coin { denom: self.denom.clone(), amount: self.amount }
    }
}

impl Clone for Cw20 {
    fn clone(&self) -> (r: Self)
        ensures
            r@ == self@,
    {
        Cw20 { contract_address: self.contract_address.clone(), amount: self.amount }
    }
}

fn clone_coins(v: &Vec<Coin>) -> (r: Vec<Coin>)
    ensures
        coins_view(r) == coins_view(*v),
{
    let mut r: Vec<Coin> = Vec::new();
    let mut i: usize = 0;
    while i < v.len()
        invariant
            i <= v.len(),
            r@.len() == i,
            forall|j: int| 0 <= j < i ==> r@[j]@ == v@[j]@,
        decreases v.len() - i,
    {
        r.push(v[i].clone());
        i += 1;
    }
    proof {
        assert(coins_view(r) =~= coins_view(*v));
    }
    r
}

fn clone_cw20s(v: &Vec<Cw20>) -> (r: Vec<Cw20>)
    ensures
        cw20s_view(r) == cw20s_view(*v),
{
    let mut r: Vec<Cw20> = Vec::new();
    let mut i: usize = 0;
    while i < v.len()
        invariant
            i <= v.len(),
            r@.len() == i,
            forall|j: int| 0 <= j < i ==> r@[j]@ == v@[j]@,
        decreases v.len() - i,
    {
        r.push(v[i].clone());
        i += 1;
    }
    proof {
        assert(cw20s_view(r) =~= cw20s_view(*v));
    }
    r
}

impl Clone for Metadata {
    fn clone(&self) -> (r: Self)
        ensures
            r@ == self@,
    {
        Metadata {
            native: match &self.native {
                Some(v) => Some(clone_coins(v)),
                None => None,
            },
            cw20: match &self.cw20 {
                Some(v) => Some(clone_cw20s(v)),
                None => None,
            },
        }
    }
}

impl Metadata {
    /// True iff either list field is present. Presence, not non-emptiness:
    /// an explicitly provided empty list counts as present.
    pub fn has_native_or_cw20(&self) -> (r: bool)
        ensures
            r == (self@.native is Some || self@.cw20 is Some),
    {
        self.native.is_some() || self.cw20.is_some()
    }
}

} // verus!
