//! The signatures a caller must produce.
//!
//! The crate never signs: it reports the messages that must be signed for a set of coin
//! spends, and the caller's signer produces the signatures.

use vstd::prelude::*;

use chia_protocol::CoinSpend;
use chia_wallet_sdk::signer::RequiredSignature;

use crate::error::Error;
use crate::sdk::{required_signatures_for, required_signatures_of};

verus! {

/// The signatures `coin_spends` require on the network whose `AGG_SIG_ME` additional data is
/// `agg_sig_me_additional_data`. A failure to compute them is an [`Error::Signer`].
pub fn required_signatures(coin_spends: &[CoinSpend], agg_sig_me_additional_data: [u8; 32]) -> (r: Result<Vec<RequiredSignature>, Error>)
    ensures
        r matches Ok(v) ==> required_signatures_for(coin_spends@, agg_sig_me_additional_data@) == Some(v@),
        r matches Err(e) ==> e is Signer && required_signatures_for(coin_spends@, agg_sig_me_additional_data@) is None,
        r matches Ok(v) ==> coin_spends@.len() == 0 ==> v@.len() == 0,
        coin_spends@.len() == 0 ==> r is Ok,
{
    match required_signatures_of(coin_spends, agg_sig_me_additional_data) {
        Ok(signatures) => Ok(signatures),
        Err(e) => Err(Error::Signer(e)),
    }
}

} // verus!
