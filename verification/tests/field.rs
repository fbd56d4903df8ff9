use nova_demo::field::{same_encoded, Fe};

const P0: u64 = 0x43e1f593f0000001;
const P1: u64 = 0x2833e84879b97091;
const P2: u64 = 0xb85045b68181585d;
const P3: u64 = 0x30644e72e131a029;

#[test]
fn small_sums_and_products() {
    let a = Fe::from_u64(10);
    let b = Fe::from_u64(7);
    assert_eq!(a.plus(&b), Fe::from_u64(17));
    assert_eq!(a.times(&b), Fe::from_u64(70));
    assert!(a.plus(&b).same(&Fe::from_u64(17)));
    assert!(!a.same(&b));
}

#[test]
fn sums_wrap_at_the_modulus() {
    let minus_one = Fe::from_limbs([P0 - 1, P1, P2, P3]).unwrap();
    assert_eq!(minus_one.plus(&Fe::from_u64(1)), Fe::from_u64(0));
    assert_eq!(minus_one.plus(&Fe::from_u64(3)), Fe::from_u64(2));
    assert_eq!(minus_one.times(&minus_one), Fe::from_u64(1));
    assert_eq!(minus_one.times(&Fe::from_u64(2)).limbs(), [P0 - 2, P1, P2, P3]);
}

#[test]
fn limbs_at_or_above_the_modulus_are_refused() {
    assert!(Fe::from_limbs([P0, P1, P2, P3]).is_none());
    assert!(Fe::from_limbs([0, 0, 0, P3 + 1]).is_none());
    assert!(Fe::from_limbs([u64::MAX, u64::MAX, u64::MAX, u64::MAX]).is_none());
    assert!(Fe::from_limbs([P0 - 1, P1, P2, P3]).is_some());
    assert!(Fe::from_limbs([u64::MAX, u64::MAX, u64::MAX, P3 - 1]).is_some());
    assert_eq!(Fe::from_limbs([5, 0, 0, 0]), Some(Fe::from_u64(5)));
}

#[test]
fn products_carry_across_limbs() {
    let two_64 = Fe::from_limbs([0, 1, 0, 0]).unwrap();
    let two_128 = Fe::from_limbs([0, 0, 1, 0]).unwrap();
    assert_eq!(two_64.times(&two_64), two_128);
    assert_eq!(Fe::from_u64(1 << 63).plus(&Fe::from_u64(1 << 63)), two_64);
}

#[test]
fn elements_decode_from_little_endian_bytes() {
    let mut bytes = [0u8; 32];
    bytes[0] = 0x14;
    assert_eq!(Fe::from_le_bytes(&bytes), Some(Fe::from_u64(20)));
    bytes[8] = 1;
    assert_eq!(Fe::from_le_bytes(&bytes), Fe::from_limbs([20, 1, 0, 0]));
    bytes[1] = 0x02;
    bytes[31] = 0x30;
    assert_eq!(
        Fe::from_le_bytes(&bytes),
        Fe::from_limbs([0x214, 1, 0, 0x30 << 56])
    );
    bytes[31] = 0x31;
    assert_eq!(Fe::from_le_bytes(&bytes), None);
    assert_eq!(Fe::from_le_bytes(&[0xff; 32]), None);
}

#[test]
fn decimal_numerals() {
    assert_eq!(Fe::from_u64(0).to_decimal(), b"0".to_vec());
    assert_eq!(Fe::from_u64(7).to_decimal(), b"7".to_vec());
    assert_eq!(Fe::from_u64(10).to_decimal(), b"10".to_vec());
    assert_eq!(Fe::from_u64(1070).to_decimal(), b"1070".to_vec());
    assert_eq!(
        Fe::from_u64(u64::MAX).to_decimal(),
        b"18446744073709551615".to_vec()
    );
    assert_eq!(
        Fe::from_limbs([0, 1, 0, 0]).unwrap().to_decimal(),
        b"18446744073709551616".to_vec()
    );
    assert_eq!(
        Fe::from_limbs([P0 - 1, P1, P2, P3]).unwrap().to_decimal(),
        b"21888242871839275222246405745257275088548364400416034343698204186575808495616".to_vec()
    );
}

#[test]
fn encodings_are_held_against_elements() {
    let mut twenty = [0u8; 32];
    twenty[0] = 20;
    let mut big = [0u8; 32];
    big[9] = 1;
    let z = vec![Fe::from_u64(20), Fe::from_limbs([0, 256, 0, 0]).unwrap()];
    assert!(same_encoded(&vec![twenty, big], &z));
    assert!(!same_encoded(&vec![big, twenty], &z));
    assert!(!same_encoded(&vec![twenty], &z));
    assert!(!same_encoded(&vec![twenty, big, twenty], &z));
    assert!(!same_encoded(&vec![twenty, [0xff; 32]], &z));
    assert!(same_encoded(&vec![], &vec![]));
}
