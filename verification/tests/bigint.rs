use forest_filecoin::eth::bigint::{BigInt, BigUint};
use forest_filecoin::eth::format::{
    format_address, format_bigint, format_u64, pad_leading_zeros, NegativeNumber,
};
use forest_filecoin::eth::num_bytes::Sign;
use forest_filecoin::eth::types::EthAddress;

#[test]
fn bytes_of_a_number() {
    assert_eq!(BigInt::from_u64(0).to_bytes_be(), (Sign::NoSign, vec![0]));
    assert_eq!(BigInt::from_u64(255).to_bytes_be(), (Sign::Plus, vec![255]));
    assert_eq!(BigInt::from_u64(1125).to_bytes_be(), (Sign::Plus, vec![4, 101]));
    let negative = BigInt::from_bytes_be(Sign::Minus, &[0, 4, 101]);
    assert_eq!(negative.to_bytes_be(), (Sign::Minus, vec![4, 101]));
    assert_eq!(BigInt::from_bytes_be(Sign::NoSign, &[7]), BigInt::from_u64(0));
    assert_eq!(BigInt::from_bytes_be(Sign::Plus, &[]), BigInt::from_u64(0));
    assert_eq!(BigInt::from_bytes_be(Sign::Minus, &[0]), BigInt::default());
}

#[test]
fn arithmetic() {
    let mut a = BigInt::from_u64(u64::MAX).times(&BigInt::from_u64(u64::MAX));
    assert_eq!(a.bits(), 128);
    assert_eq!(a.to_u64(), None);
    a.subtract(&BigInt::from_bytes_be(
        Sign::Plus,
        &[255, 255, 255, 255, 255, 255, 255, 254, 0, 0, 0, 0, 0, 0, 0, 9],
    ));
    assert_eq!(a.to_bytes_be(), (Sign::Minus, vec![8]));
    assert_eq!(a.sub_u32(3).to_bytes_be(), (Sign::Minus, vec![11]));
    assert_eq!(a.sub_u32(3).div_u32(2).to_bytes_be(), (Sign::Minus, vec![5]));
    assert_eq!(BigInt::from_u64(11).div_u32(2).to_u64(), Some(5));
    assert_eq!(a.to_u64(), None);
    assert_eq!(a.clone(), a);
    assert_eq!(BigInt::from_u64(0).bits(), 0);
    assert_eq!(BigInt::from_u64(u64::MAX).bits(), 64);
    assert_eq!(BigInt::from_u64(u64::MAX).to_u64(), Some(u64::MAX));
    let n = BigUint::from_u64(u64::MAX).mul_u64(2).add_u64(3);
    assert_eq!(n.to_bytes_be(), vec![2, 0, 0, 0, 0, 0, 0, 0, 1]);
}

#[test]
fn fields() {
    assert_eq!(format_u64(0), Vec::<u8>::new());
    assert_eq!(format_u64(0x80), vec![0x80]);
    assert_eq!(format_u64(0x0102), vec![1, 2]);
    assert_eq!(format_bigint(&BigInt::from_u64(0)), Ok(vec![]));
    assert_eq!(format_bigint(&BigInt::from_u64(256)), Ok(vec![1, 0]));
    assert_eq!(format_bigint(&BigInt::from_bytes_be(Sign::Minus, &[1])), Err(NegativeNumber));
    assert_eq!(format_address(&None), Vec::<u8>::new());
    assert_eq!(format_address(&Some(EthAddress([9; 20]))), vec![9; 20]);
    assert_eq!(pad_leading_zeros(&[1, 2], 4), vec![0, 0, 1, 2]);
    assert_eq!(pad_leading_zeros(&[1, 2], 2), vec![1, 2]);
    assert_eq!(pad_leading_zeros(&[1, 2, 3], 2), vec![1, 2, 3]);
    assert_eq!(pad_leading_zeros(&[], 2), vec![0, 0]);
}
