use forest_filecoin::eth::bigint::BigInt;
use forest_filecoin::eth::chain_id::{
    calc_eip155_sig_len, calc_valid_eip155_sig_len, derive_eip_155_chain_id, is_derivable,
    validate_eip155_chain_id, ChainIdError, HOMESTEAD_SIG_LEN,
};
use forest_filecoin::eth::num_bytes::Sign;
use forest_filecoin::eth::types::EthChainId;

const CHAIN_IDS: [EthChainId; 10] = [
    0,
    1,
    2,
    109,
    110,
    111,
    314,
    314159,
    1 << 63,
    u64::MAX,
];

/// Twice the chain plus 35, as it is written into a signature.
fn v_bytes(eth_chain_id: EthChainId) -> Vec<u8> {
    let v = eth_chain_id as u128 * 2 + 35;
    let bytes = v.to_be_bytes();
    let first = bytes.iter().position(|byte| *byte != 0).unwrap();
    bytes[first..].to_vec()
}

fn number(n: i128) -> BigInt {
    let sign = if n < 0 { Sign::Minus } else { Sign::Plus };
    BigInt::from_bytes_be(sign, &n.unsigned_abs().to_be_bytes())
}

#[test]
fn test_derive_eip_155_chain_id() {
    for eth_chain_id in CHAIN_IDS {
        let v = BigInt::from_bytes_be(Sign::Plus, &v_bytes(eth_chain_id));
        assert_eq!(derive_eip_155_chain_id(&v).unwrap(), BigInt::from_u64(eth_chain_id));
    }
}

#[test]
fn test_validate_eip155_chain_id() {
    for eth_chain_id in CHAIN_IDS {
        let v = BigInt::from_bytes_be(Sign::Plus, &v_bytes(eth_chain_id));
        validate_eip155_chain_id(eth_chain_id, &v).unwrap();
    }
}

#[test]
fn test_calc_eip_155_sig_len() {
    let cases = [
        (
            "ChainId fits in 1 byte",
            0x01,
            HOMESTEAD_SIG_LEN as u64 + 1 - 1,
        ),
        (
            "ChainId fits in 2 bytes",
            0x0100,
            HOMESTEAD_SIG_LEN as u64 + 2 - 1,
        ),
        (
            "ChainId fits in 3 bytes",
            0x10000,
            HOMESTEAD_SIG_LEN as u64 + 3 - 1,
        ),
        (
            "ChainId fits in 4 bytes",
            0x01000000,
            HOMESTEAD_SIG_LEN as u64 + 4 - 1,
        ),
        (
            "ChainId fits in 6 bytes",
            0x010000000000,
            HOMESTEAD_SIG_LEN as u64 + 6 - 1,
        ),
    ];

    for (name, chain_id, expected) in cases {
        let actual = calc_eip155_sig_len(chain_id, 1);
        assert_eq!(actual, expected, "{name}");
    }
}

#[test]
fn valid_signature_lengths() {
    assert_eq!(calc_valid_eip155_sig_len(0), (66, 66));
    assert_eq!(calc_valid_eip155_sig_len(109), (66, 66));
    // The two values of `v` are 255 and 256.
    assert_eq!(calc_valid_eip155_sig_len(110), (66, 67));
    assert_eq!(calc_valid_eip155_sig_len(111), (67, 67));
    assert_eq!(calc_valid_eip155_sig_len(314159), (68, 68));
    assert_eq!(calc_valid_eip155_sig_len(u64::MAX), (74, 74));
    assert_eq!(calc_eip155_sig_len(0, 0), 66);
    assert_eq!(calc_eip155_sig_len(u64::MAX, u64::MAX), 74);
}

#[test]
fn no_replay_protection_names_chain_zero() {
    for v in [27, 28] {
        assert_eq!(derive_eip_155_chain_id(&number(v)), Ok(number(0)));
        assert_eq!(validate_eip155_chain_id(0, &number(v)), Ok(()));
        assert_eq!(
            validate_eip155_chain_id(1, &number(v)),
            Err(ChainIdError::Mismatch { expected: 1, derived: 0 })
        );
    }
}

#[test]
fn both_values_of_v_name_the_chain() {
    assert_eq!(derive_eip_155_chain_id(&number(628353)), Ok(number(314159)));
    assert_eq!(derive_eip_155_chain_id(&number(628354)), Ok(number(314159)));
    assert_eq!(
        validate_eip155_chain_id(314159, &number(628355)),
        Err(ChainIdError::Mismatch { expected: 314159, derived: 314160 })
    );
}

#[test]
fn large_v() {
    let two_64: i128 = 1 << 64;
    assert_eq!(derive_eip_155_chain_id(&number(two_64 - 1)), Ok(number((two_64 - 36) / 2)));
    assert_eq!(derive_eip_155_chain_id(&number(two_64)), Ok(number((two_64 - 35) / 2)));
    assert_eq!(
        validate_eip155_chain_id(7, &number(4 * two_64)),
        Err(ChainIdError::OutOfRange)
    );
    assert_eq!(validate_eip155_chain_id(u64::MAX, &number(2 * two_64 + 34)), Ok(()));
    assert_eq!(
        validate_eip155_chain_id(u64::MAX, &number(2 * two_64 + 35)),
        Err(ChainIdError::OutOfRange)
    );
}

#[test]
fn negative_v() {
    let two_64: i128 = 1 << 64;
    assert_eq!(derive_eip_155_chain_id(&number(-1)), Err(ChainIdError::NegativeV));
    assert_eq!(derive_eip_155_chain_id(&number(1 - two_64)), Err(ChainIdError::NegativeV));
    // Beyond 64 bits a negative number is halved like any other, toward zero.
    assert_eq!(derive_eip_155_chain_id(&number(-two_64)), Ok(number((-two_64 - 35) / 2)));
    assert_eq!(validate_eip155_chain_id(0, &number(-two_64)), Err(ChainIdError::OutOfRange));
    assert_eq!(validate_eip155_chain_id(0, &number(-1)), Err(ChainIdError::NegativeV));
}

#[test]
fn derivable_values() {
    for v in 0..40 {
        assert_eq!(is_derivable(&number(v)), v == 27 || v == 28 || v >= 35);
    }
    assert!(is_derivable(&number(-1)));
    assert!(is_derivable(&number(1 << 70)));
}
