use vstd::prelude::*;

verus! {

/// The router holds no configuration at creation.
#[derive(Debug)]
pub struct InitMsg {}

/// A token handled by the router: its contract and the credential needed to
/// call it.
#[derive(Debug)]
pub struct Token {
    pub address: String,
    pub code_hash: String,
}

impl Clone for Token {
    fn clone(&self) -> (r: Token)
        ensures
            r == *self,
    {
        Token { address: self.address.clone(), code_hash: self.code_hash.clone() }
    }
}

/// One leg of a multi-pair route: which token is offered into which pair.
#[derive(Debug)]
pub struct Hop {
    pub from_token: Token,
    pub pair_address: String,
    pub pair_code_hash: String,
    pub expected_return: Option<u128>,
}

/// A route: the hops to walk, and who receives the final output.
#[derive(Debug)]
pub struct Route {
    pub hops: Vec<Hop>,
    pub to: String,
}

/// A request to the router.
#[derive(Debug)]
pub enum HandleMsg {
    /// A token contract notifies the router of a received transfer; the
    /// embedded request selects the route.
    Receive { from: String, msg: Option<Vec<u8>>, amount: u128 },
    /// Conclude the route in flight and check its expected return.
    FinalizeRoute,
    /// Make the router aware of tokens so it can receive them.
    RegisterTokens { tokens: Vec<Token> },
    /// Return stranded funds to their owner.
    RecoverFunds { token: Token, amount: u128, to: String, snip20_send_msg: Option<Vec<u8>> },
    /// Hand the router to a new owner.
    ChangeOwner { new_owner: String },
}

/// A read-only request to the router.
#[derive(Debug)]
pub enum QueryMsg {
    SupportedTokens,
}

/// The request embedded in a routed token transfer.
#[derive(Debug)]
pub enum Swap {
    Swap { expected_return: Option<u128>, to: Option<String> },
}

} // verus!
