//! The crate error taxonomy.
//!
//! Every fallible operation returns a `Result` whose error is [`Error`]. The variants separate
//! the failure sources a pure builder can hit: a driver failure while constructing a spend, a
//! signer failure while computing the required signatures, an address (bech32m) codec failure,
//! and caller-supplied input that cannot produce a valid spend.

use vstd::prelude::*;

use chia_wallet_sdk::driver::DriverError;
use chia_wallet_sdk::signer::SignerError;
use chia_wallet_sdk::utils::Bech32Error;

verus! {

/// Everything that can go wrong while building an NFT spend, reporting its required
/// signatures, or encoding/decoding an `nft1…` identifier.
#[derive(Debug)]
pub enum Error {
    /// A failure in the underlying driver while constructing a spend (allocation, currying,
    /// puzzle assembly, running a puzzle).
    Driver(DriverError),
    /// A failure while computing the BLS signatures a coin spend requires.
    Signer(SignerError),
    /// A failure encoding or decoding an `nft1…` bech32m identifier.
    Address(Bech32Error),
    /// Caller-supplied input that cannot produce a valid spend (e.g. an empty bulk-mint
    /// request). The message states the precise violation.
    InvalidInput(String),
}

impl Error {
    /// An [`Error::InvalidInput`] carrying `message`.
    pub(crate) fn invalid(message: String) -> (r: Error)
        ensures
            r == Error::InvalidInput(message),
    {
        Error::InvalidInput(message)
    }
}

/// A driver result, with a driver failure reported as [`Error::Driver`].
pub(crate) fn driver_result<T>(r: Result<T, DriverError>) -> (o: Result<T, Error>)
    ensures
        r matches Ok(v) ==> o == Ok::<T, Error>(v),
        r matches Err(e) ==> o == Err::<T, Error>(Error::Driver(e)),
{
    match r {
        Ok(v) => Ok(v),
        Err(e) => Err(Error::Driver(e)),
    }
}

} // verus!
