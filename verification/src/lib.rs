//! An admission-gated issuance engine: it decides whether a batch of
//! sequentially numbered units may be issued to an owner, prices the batch,
//! and drives its creation through an external issuer as one atomic step.
//!
//! The engine owns its state (configuration and whitelist) as plain values.
//! Reads of the outside world (the issuer's holdings of an owner, a purse's
//! balance) come in as arguments; writes to it (the payment transfer, the
//! per-unit issuer calls) go out as receipts that the host performs after
//! the call, committing the returned state only when every step succeeded.

pub mod cep78_utils;
pub mod data;
pub mod error;
pub mod minter;
pub mod modifiers;

pub use crate::cep78_utils::IssueRequest;
pub use crate::data::Config;
pub use crate::data::Key;
pub use crate::data::Whitelist;
pub use crate::error::Error;
pub use crate::minter::Minter;
pub use crate::minter::NativeMintReceipt;
pub use crate::minter::TransferRequest;
