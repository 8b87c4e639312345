//! The `nft1…` identifier codec.
//!
//! An NFT's stable identity is its launcher coin id. The user-facing form is a bech32m string
//! with the `nft` human-readable prefix (e.g. `nft1…`). These functions convert between a
//! launcher id and its `nft1…` encoding; decoding gives back what encoding wrote.

use vstd::prelude::*;

use crate::error::Error;
use crate::sdk::{address_decode, address_encode, bech32m_decoding, bech32m_encoding};

verus! {

/// The bech32m human-readable prefix for an NFT identifier.
pub open spec fn nft_prefix() -> Seq<char> {
    "nft"@
}

/// The `nft1…` identifier of the launcher id `launcher_id`.
pub open spec fn nft_id_of(launcher_id: Seq<u8>) -> Seq<char> {
    bech32m_encoding(launcher_id, nft_prefix())
}

/// The message of the error for an identifier whose prefix `prefix` is not `nft`.
pub open spec fn wrong_prefix_message(prefix: Seq<char>) -> Seq<char> {
    "expected an `nft` address, found prefix `"@ + prefix + "`"@
}

/// Encode a launcher id as its `nft1…` bech32m identifier. This always succeeds.
pub fn encode_nft_id(launcher_id: [u8; 32]) -> (r: Result<String, Error>)
    ensures
        r matches Ok(s) && s@ == nft_id_of(launcher_id@),
{
    proof {
        reveal_strlit("nft");
    }
    match address_encode(launcher_id, String::from_str("nft")) {
        Ok(s) => Ok(s),
        Err(e) => Err(Error::Address(e)),
    }
}

/// Decode an `nft1…` bech32m identifier back to its launcher id.
///
/// Returns an [`Error::Address`] if the string is not valid bech32m or does not carry 32
/// bytes, and an [`Error::InvalidInput`] if it does not carry the `nft` prefix. An identifier
/// produced by [`encode_nft_id`] decodes to the launcher id it encodes.
pub fn decode_nft_id(nft_id: &str) -> (r: Result<[u8; 32], Error>)
    ensures
        bech32m_decoding(nft_id@) is None ==> r matches Err(Error::Address(_)),
        bech32m_decoding(nft_id@) matches Some((h, p)) ==> (if p == nft_prefix() {
            r matches Ok(id) && id@ == h
        } else {
            r matches Err(Error::InvalidInput(message)) && message@ == wrong_prefix_message(p)
        }),
        forall|h: Seq<u8>| h.len() == 32 && nft_id@ == #[trigger] nft_id_of(h) ==> (r matches Ok(id) && id@ == h),
{
    proof {
        reveal_strlit("nft");
        reveal_strlit("expected an `nft` address, found prefix `");
        reveal_strlit("`");
    }
    match address_decode(nft_id) {
        Err(e) => Err(Error::Address(e)),
        Ok((launcher_id, prefix)) => {
            let expected = String::from_str("nft");
            if prefix != expected {
                let message = String::from_str("expected an `nft` address, found prefix `").concat(prefix.as_str()).concat("`");
                Err(Error::invalid(message))
            } else {
                Ok(launcher_id)
            }
        },
    }
}

} // verus!
