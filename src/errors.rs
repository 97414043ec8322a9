use vstd::prelude::*;

verus! {

/// Why an operation was rejected. Every variant aborts the whole operation
/// before any transfer, mint or burn is requested.
#[derive(Clone, Copy, Debug, PartialEq, Eq, Structural)]
pub enum AmmError {
    /// A requested amount or share count was zero.
    ZeroAmount,
    /// The fee rate was not below 10000 basis points.
    InvalidFee,
    /// The two assets of a pool were the same.
    IdenticalAssets,
    /// An asset handed to an operation is not one of the pool's assets.
    AssetMismatch,
    /// The pool is locked by its administrator.
    PoolLocked,
    /// The caller is not the pool's administrator, or there is none.
    Unauthorized,
    /// A derived amount violates the caller's minimum or maximum.
    SlippageExceeded,
    /// An intermediate or final value does not fit its integer type.
    Overflow,
    /// A division had a zero divisor.
    DivisionByZero,
    /// A swap would take the whole output reserve or more.
    ReserveExhausted,
}

} // verus!
