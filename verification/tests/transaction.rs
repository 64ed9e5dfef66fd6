use forest_filecoin::eth::bigint::BigInt;
use forest_filecoin::eth::builder::{
    EthLegacyEip155TxArgsBuilder, EthLegacyEip155TxArgsBuilderError,
};
use forest_filecoin::eth::chain_id::ChainIdError;
use forest_filecoin::eth::eip_155_transaction::{
    eth_legacy_155_tx_signature_len_0, eth_legacy_155_tx_signature_len_1, has_derivable_v,
    Eip155Error, EthLegacyEip155TxArgs, EIP155_CHAIN_ID, EIP_155_SIG_PREFIX,
};
use forest_filecoin::eth::format::NegativeNumber;
use forest_filecoin::eth::num_bytes::Sign;
use forest_filecoin::eth::rlp_stream::encode_list;
use forest_filecoin::eth::types::{EthAddress, Message, Signature, SignatureType};

fn hex(text: &str) -> Vec<u8> {
    (0..text.len() / 2)
        .map(|i| u8::from_str_radix(&text[2 * i..2 * i + 2], 16).unwrap())
        .collect()
}

fn number(text: &str) -> BigInt {
    BigInt::from_bytes_be(Sign::Plus, &hex(text))
}

fn minus_one() -> BigInt {
    BigInt::from_bytes_be(Sign::Minus, &[1])
}

/// The transaction of the example in EIP-155.
fn example() -> EthLegacyEip155TxArgs {
    EthLegacyEip155TxArgs {
        chain_id: 1,
        nonce: 9,
        gas_price: BigInt::from_u64(20_000_000_000),
        gas_limit: 21000,
        to: Some(EthAddress([0x35; 20])),
        value: BigInt::from_u64(1_000_000_000_000_000_000),
        input: vec![],
        v: BigInt::from_u64(37),
        r: number("28ef61340bd939bc2195fe537567866003e1a15d3c71ff63e1590620aa636276"),
        s: number("67cbe9d8997f761aecb703304b3800ccf555c9f3dc64214b297fb1966a3b6d83"),
    }
}

fn signed(v: u64) -> EthLegacyEip155TxArgs {
    EthLegacyEip155TxArgs {
        chain_id: EIP155_CHAIN_ID,
        v: BigInt::from_u64(v),
        r: number("0102"),
        s: number("ff00"),
        ..example()
    }
}

/// The signature of `signed(628353)`.
fn signature_bytes() -> Vec<u8> {
    let mut bytes = vec![EIP_155_SIG_PREFIX];
    bytes.extend([0; 30]);
    bytes.extend([1, 2]);
    bytes.extend([0; 30]);
    bytes.extend([0xff, 0]);
    bytes.extend([0x09, 0x96, 0x81]);
    bytes
}

fn delegated(bytes: Vec<u8>) -> Signature {
    Signature { sig_type: SignatureType::Delegated, bytes }
}

#[test]
fn signature_lengths() {
    assert_eq!(eth_legacy_155_tx_signature_len_0(), 68);
    assert_eq!(eth_legacy_155_tx_signature_len_1(), 68);
}

#[test]
fn signature_is_marker_r_s_and_v() {
    let signature = signed(628353).signature().unwrap();
    assert_eq!(signature.signature_type(), SignatureType::Delegated);
    assert_eq!(signature.bytes(), signature_bytes());
}

#[test]
fn signature_of_zeros() {
    let tx = EthLegacyEip155TxArgs {
        v: BigInt::from_u64(628354),
        ..EthLegacyEip155TxArgs::default()
    };
    let mut expected = vec![2];
    expected.extend([0; 64]);
    expected.extend([0x09, 0x96, 0x82]);
    assert_eq!(tx.signature().unwrap().bytes, expected);
}

#[test]
fn signature_for_another_chain() {
    // The `v` of the example is for chain 1.
    assert_eq!(
        example().signature(),
        Err(Eip155Error::ChainId(ChainIdError::Mismatch { expected: 314159, derived: 1 }))
    );
    let tx = EthLegacyEip155TxArgs { v: minus_one(), ..example() };
    assert_eq!(tx.signature(), Err(Eip155Error::ChainId(ChainIdError::NegativeV)));
    let tx = EthLegacyEip155TxArgs { v: number("ff0000000000000000"), ..example() };
    assert_eq!(tx.signature(), Err(Eip155Error::ChainId(ChainIdError::OutOfRange)));
}

#[test]
fn signature_with_a_number_that_does_not_fit() {
    let mut tx = signed(628353);
    let mut bytes = vec![1];
    bytes.extend([0; 32]);
    tx.r = BigInt::from_bytes_be(Sign::Plus, &bytes);
    assert_eq!(tx.signature(), Err(Eip155Error::SignatureLength { len: 69 }));
    tx.r = BigInt::from_bytes_be(Sign::Plus, &[0xff; 32]);
    assert!(tx.signature().is_ok());
}

#[test]
fn taking_a_made_signature_gives_it_back() {
    for v in [628353, 628354] {
        let tx = signed(v);
        let signature = tx.signature().unwrap();
        let unsigned = EthLegacyEip155TxArgs {
            v: BigInt::default(),
            r: BigInt::default(),
            s: BigInt::default(),
            ..tx.clone()
        };
        let taken = unsigned.with_signature(&signature).unwrap();
        assert_eq!(taken, tx);
        assert_eq!(taken.signature().unwrap(), signature);
    }
}

#[test]
fn with_signature_for_a_chain_of_one_byte() {
    // 2 * 1 + 36
    let mut bytes = vec![2];
    bytes.extend([3; 32]);
    bytes.extend([4; 32]);
    bytes.push(38);
    let tx = example().with_signature(&delegated(bytes)).unwrap();
    assert_eq!(tx.v, BigInt::from_u64(38));
    assert_eq!(tx.r, BigInt::from_bytes_be(Sign::Plus, &[3; 32]));
    assert_eq!(tx.s, BigInt::from_bytes_be(Sign::Plus, &[4; 32]));
    assert_eq!(tx.nonce, 9);
}

#[test]
fn with_signature_without_replay_protection() {
    for v in [27, 28, 35, 36] {
        let mut bytes = vec![2];
        bytes.extend([3; 64]);
        bytes.push(v);
        let tx = EthLegacyEip155TxArgs::default().with_signature(&delegated(bytes)).unwrap();
        assert_eq!(tx.v, BigInt::from_u64(v as u64));
    }
}

#[test]
fn chains_of_signature_bytes() {
    let bytes = |marker: u8, v: &[u8]| {
        let mut bytes = vec![marker];
        bytes.extend([0; 64]);
        bytes.extend(v);
        bytes
    };
    assert!(!has_derivable_v(1, &bytes(2, &[0])));
    assert!(!has_derivable_v(1, &bytes(2, &[34])));
    assert!(has_derivable_v(1, &bytes(2, &[27])));
    assert!(has_derivable_v(1, &bytes(2, &[28])));
    assert!(has_derivable_v(1, &bytes(2, &[35])));
    assert!(!has_derivable_v(EIP155_CHAIN_ID, &bytes(2, &[0, 0, 34])));
    assert!(has_derivable_v(EIP155_CHAIN_ID, &signature_bytes()));
    // These are refused before `v` is read.
    assert!(has_derivable_v(1, &bytes(1, &[34])));
    assert!(has_derivable_v(1, &bytes(2, &[34, 0])));
    assert!(has_derivable_v(1, &[]));
}

#[test]
fn with_signature_refuses() {
    let tx = signed(628353);
    let other = Signature { sig_type: SignatureType::Bls, bytes: signature_bytes() };
    assert_eq!(tx.clone().with_signature(&other), Err(Eip155Error::NotDelegated));
    assert_eq!(
        tx.clone().with_signature(&delegated(vec![])),
        Err(Eip155Error::SignatureLength { len: 0 })
    );
    let mut bytes = signature_bytes();
    bytes.push(0);
    assert_eq!(
        tx.clone().with_signature(&delegated(bytes)),
        Err(Eip155Error::SignatureLength { len: 69 })
    );
    let mut bytes = signature_bytes();
    bytes[0] = 1;
    assert_eq!(
        tx.clone().with_signature(&delegated(bytes)),
        Err(Eip155Error::SignaturePrefix { prefix: 1 })
    );
    let mut bytes = signature_bytes();
    bytes[67] = 0x83;
    assert_eq!(
        tx.with_signature(&delegated(bytes)),
        Err(Eip155Error::ChainId(ChainIdError::Mismatch { expected: 314159, derived: 314160 }))
    );
}

#[test]
fn verifiable_signature() {
    let tx = signed(628353);
    let mut expected = signature_bytes()[1..65].to_vec();
    expected.push(0);
    assert_eq!(tx.to_verifiable_signature(signature_bytes()), Ok(expected.clone()));
    let mut bytes = signature_bytes();
    bytes[67] = 0x82;
    expected[64] = 1;
    assert_eq!(tx.to_verifiable_signature(bytes), Ok(expected));
}

#[test]
fn verifiable_signature_refuses() {
    let tx = signed(628353);
    assert_eq!(
        tx.to_verifiable_signature(vec![2; 67]),
        Err(Eip155Error::SignatureLength { len: 67 })
    );
    let mut bytes = signature_bytes();
    bytes[0] = 7;
    assert_eq!(
        tx.to_verifiable_signature(bytes),
        Err(Eip155Error::SignaturePrefix { prefix: 7 })
    );
    let mut bytes = signature_bytes();
    bytes[65] = 0;
    assert_eq!(
        tx.to_verifiable_signature(bytes),
        Err(Eip155Error::ChainId(ChainIdError::Mismatch { expected: 314159, derived: 19247 }))
    );
}

#[test]
fn signed_message_of_the_example() {
    let expected = hex(concat_hex());
    assert_eq!(example().rlp_signed_message(), Ok(expected.clone()));
    // The chain is no field of it.
    let tx = EthLegacyEip155TxArgs { chain_id: 5, ..example() };
    assert_eq!(tx.rlp_signed_message(), Ok(expected));
}

fn concat_hex() -> &'static str {
    "f86c098504a817c800825208943535353535353535353535353535353535353535880de0b6b3a76400008025a028ef61340bd939bc2195fe537567866003e1a15d3c71ff63e1590620aa636276a067cbe9d8997f761aecb703304b3800ccf555c9f3dc64214b297fb1966a3b6d83"
}

#[test]
fn unsigned_message_of_the_example() {
    let expected = hex("ef098504a817c800825208943535353535353535353535353535353535353535880de0b6b3a7640000808304cb2f8080");
    assert_eq!(example().rlp_unsigned_message(), Ok(expected.clone()));
    // Neither the signature nor the chain of the transaction matters.
    assert_eq!(signed(628354).rlp_unsigned_message(), Ok(expected));
}

#[test]
fn message_without_recipient_and_with_long_input() {
    let tx = EthLegacyEip155TxArgs { input: vec![0xab; 60], ..EthLegacyEip155TxArgs::default() };
    let mut expected = vec![0xf8, 70, 0x80, 0x80, 0x80, 0x80, 0x80, 0xb8, 60];
    expected.extend([0xab; 60]);
    expected.extend([0x80, 0x80, 0x80]);
    assert_eq!(tx.rlp_signed_message(), Ok(expected));
}

#[test]
fn negative_numbers_have_no_message() {
    let tx = EthLegacyEip155TxArgs { gas_price: minus_one(), ..example() };
    assert_eq!(tx.rlp_signed_message(), Err(NegativeNumber));
    assert_eq!(tx.rlp_unsigned_message(), Err(NegativeNumber));
    let tx = EthLegacyEip155TxArgs { value: minus_one(), ..example() };
    assert_eq!(tx.rlp_signed_message(), Err(NegativeNumber));
    assert_eq!(tx.rlp_unsigned_message(), Err(NegativeNumber));
    let tx = EthLegacyEip155TxArgs { s: minus_one(), ..example() };
    assert_eq!(tx.rlp_signed_message(), Err(NegativeNumber));
    assert!(tx.rlp_unsigned_message().is_ok());
}

#[test]
fn list_encoding() {
    assert_eq!(encode_list(&vec![]), vec![0xc0]);
    assert_eq!(
        encode_list(&vec![b"cat".to_vec(), b"dog".to_vec()]),
        vec![0xc8, 0x83, b'c', b'a', b't', 0x83, b'd', b'o', b'g']
    );
    assert_eq!(
        encode_list(&vec![vec![0x7f], vec![0x80], vec![0], vec![]]),
        vec![0xc5, 0x7f, 0x81, 0x80, 0x00, 0x80]
    );
    let list = encode_list(&vec![vec![1; 1000]]);
    assert_eq!(list[..6], [0xf9, 0x03, 0xeb, 0xb9, 0x03, 0xe8]);
    assert_eq!(list.len(), 1006);
}

fn message() -> Message {
    Message {
        sequence: 9,
        value: BigInt::from_u64(5),
        gas_limit: 21000,
        gas_fee_cap: BigInt::from_u64(7),
    }
}

#[test]
fn transaction_of_a_message() {
    let mut builder = EthLegacyEip155TxArgsBuilder::default();
    let to = Some(EthAddress([1; 20]));
    let read: Result<(Vec<u8>, Option<EthAddress>), ()> = Ok((vec![1, 2, 3], to));
    assert_eq!(
        builder.build(),
        Err(EthLegacyEip155TxArgsBuilderError::UninitializedField("chain_id"))
    );
    let tx = builder.unsigned_message(&message(), read).unwrap().chain_id(314159).build().unwrap();
    let expected = EthLegacyEip155TxArgs {
        chain_id: 314159,
        nonce: 9,
        gas_price: BigInt::from_u64(7),
        gas_limit: 21000,
        to,
        value: BigInt::from_u64(5),
        input: vec![1, 2, 3],
        ..EthLegacyEip155TxArgs::default()
    };
    assert_eq!(tx, expected);
}

#[test]
fn message_that_cannot_be_read_changes_nothing() {
    let mut builder = EthLegacyEip155TxArgsBuilder::default();
    builder.chain_id(1);
    let read: Result<(Vec<u8>, Option<EthAddress>), &str> = Err("unsupported method");
    assert_eq!(builder.unsigned_message(&message(), read).err(), Some("unsupported method"));
    assert_eq!(
        builder.build(),
        Err(EthLegacyEip155TxArgsBuilderError::UninitializedField("nonce"))
    );
}

#[test]
fn every_field_must_be_set() {
    let missing = |builder: &EthLegacyEip155TxArgsBuilder| match builder.build() {
        Err(EthLegacyEip155TxArgsBuilderError::UninitializedField(name)) => name,
        Ok(_) => "none",
    };
    let mut builder = EthLegacyEip155TxArgsBuilder::default();
    assert_eq!(missing(&builder), "chain_id");
    assert_eq!(missing(builder.chain_id(1)), "nonce");
    assert_eq!(missing(builder.nonce(2)), "gas_price");
    assert_eq!(missing(builder.gas_price(BigInt::from_u64(3))), "gas_limit");
    assert_eq!(missing(builder.gas_limit(4)), "to");
    assert_eq!(missing(builder.to(None)), "value");
    assert_eq!(missing(builder.value(BigInt::from_u64(5))), "input");
    assert_eq!(missing(builder.input(vec![6])), "none");
}

#[test]
fn a_cloned_builder_goes_its_own_way() {
    let mut builder = EthLegacyEip155TxArgsBuilder::default();
    builder.chain_id(1).nonce(2).gas_price(BigInt::from_u64(3)).gas_limit(4);
    builder.to(None).value(BigInt::from_u64(5)).input(vec![6]);
    let mut other = builder.clone();
    assert_eq!(other.build(), builder.build());
    other.nonce(7);
    assert_eq!(other.build().unwrap().nonce, 7);
    assert_eq!(builder.build().unwrap().nonce, 2);
    assert_eq!(
        EthLegacyEip155TxArgsBuilder::default().clone().build(),
        Err(EthLegacyEip155TxArgsBuilderError::UninitializedField("chain_id"))
    );
}
