use vstd::prelude::*;

verus! {

/// The failure kinds of the minting engine.
///
/// Every check returns the specific kind for its own failure; the
/// coordinator never downgrades or catches one, so a caller observes
/// exactly one terminal outcome per invocation.
#[derive(Clone, Copy, Debug, PartialEq, Eq, Structural)]
pub enum Error {
    /// The configuration names no admin.
    AdminNotSet,
    /// A checked computation (cost, quota sum, or the issuance counter)
    /// would exceed its integer width.
    ArithmeticOverflow,
    /// An identity that had to be an account is not one.
    InvalidAccountHash,
    /// The operation was invoked from a context it does not support.
    InvalidContext,
    /// The configured issuer reference is not a contract package hash.
    InvalidContractPackageHash,
    /// The issuer rejected a unit of the batch.
    IssuerCallFailed,
    /// The owner would hold more units than the configured cap allows.
    MintLimitExceed,
    /// The public paid path is switched off.
    MintNotAllowed,
    /// The hosting package lacks a contract hash to upgrade.
    MissingContractHashForUpgrade,
    /// The hosting package hash is absent.
    MissingContractPackageHash,
    /// The hosting package lacks a package hash to upgrade.
    MissingPackageHashForUpgrade,
    /// The funding source holds less than the required amount.
    NotEnoughBalance,
    /// The whitelist gate is on and the owner is not eligible.
    NotWhitelisted,
    /// A caller other than the admin invoked an admin-only operation.
    PermissionDenied,
    /// The payment transfer itself was rejected.
    TransferFailed,
    /// The funding source's balance could not be read.
    UableToReadPurse,
    /// The configuration was read before initialization.
    Uninitialized,
    /// The arguments of the invocation are malformed.
    WrongArguments,
}

} // verus!
