use chia_protocol::Bytes32;
use chia_wallet_sdk::utils::Address;
use dig_nft::{decode_nft_id, encode_nft_id, Error};

#[test]
fn round_trips_a_launcher_id() -> anyhow::Result<()> {
    let launcher_id = Bytes32::from([0x42; 32]);
    let encoded = encode_nft_id(launcher_id.into()).unwrap();
    assert!(encoded.starts_with("nft1"), "got: {encoded}");
    assert_eq!(Bytes32::from(decode_nft_id(&encoded).unwrap()), launcher_id);
    Ok(())
}

#[test]
fn rejects_a_non_nft_prefix() {
    // A valid bech32m address with the wrong (xch) prefix must be rejected.
    let xch = Address::new(Bytes32::from([1; 32]), "xch".to_string())
        .encode()
        .unwrap();
    let err = decode_nft_id(&xch).unwrap_err();
    assert!(matches!(err, Error::InvalidInput(_)), "got: {err:?}");
}

#[test]
fn rejects_garbage() {
    assert!(decode_nft_id("not an address").is_err());
}

#[test]
fn garbage_is_an_address_error() {
    assert!(matches!(decode_nft_id("not an address"), Err(Error::Address(_))));
}

#[test]
fn encodes_a_known_launcher_id() {
    // The bech32m encoding of 32 zero bytes under the `nft` prefix.
    let expected = Address::new(Bytes32::from([0; 32]), "nft".to_string()).encode().unwrap();
    assert_eq!(encode_nft_id([0; 32]).unwrap(), expected);
    assert_eq!(expected.len(), 62);
}

#[test]
fn wrong_prefix_message_names_the_prefix() {
    let xch = Address::new(Bytes32::from([7; 32]), "xch".to_string()).encode().unwrap();
    match decode_nft_id(&xch) {
        Err(Error::InvalidInput(message)) => {
            assert_eq!(message, "expected an `nft` address, found prefix `xch`");
        }
        other => panic!("unexpected: {other:?}"),
    }
}

#[test]
fn a_short_payload_is_an_address_error() {
    // A bech32m string under the `nft` prefix that carries 20 bytes, not 32.
    let short = chia_wallet_sdk::utils::Bech32::new(vec![9u8; 20].into(), "nft".to_string())
        .encode()
        .unwrap();
    assert!(matches!(decode_nft_id(&short), Err(Error::Address(_))));
}

#[test]
fn every_launcher_id_round_trips() {
    for byte in [0u8, 1, 0x7f, 0x80, 0xff] {
        let id = [byte; 32];
        assert_eq!(decode_nft_id(&encode_nft_id(id).unwrap()).unwrap(), id);
    }
}
