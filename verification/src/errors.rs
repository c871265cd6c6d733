use vstd::prelude::*;

verus! {

/// The typed failures an entry point can surface.  Every error aborts the
/// whole call: no instruction emitted alongside an error is ever executed.
#[derive(Clone, Copy, Debug, PartialEq, Eq, Structural)]
pub enum ContractError {
    /// A permission, ownership or registration check failed.
    Unauthorized,
    /// An asset identity matches neither pool slot.
    InvalidAsset,
    /// A pair for the given asset identities is already in the registry.
    AlreadyExists,
    /// The pair was already announced by its deployed contract.
    AlreadyRegistered,
    /// No pair is recorded under the given asset identities.
    PairNotFound,
    /// Overflow, underflow or a division edge case not absorbed by clamping.
    ArithmeticError,
    /// A belief-price, max-spread or liquidity slippage-tolerance bound failed.
    SlippageExceeded,
    /// A reverse quote requests an output exceeding the feasible pool depth.
    InsufficientLiquidity,
    /// The funds sent along with the call do not match the declared native
    /// deposit.
    NativeBalanceMismatch,
    /// A token-receive notification arrived without an embedded request.
    MissingData,
}

} // verus!
