use neonswap::address::{address_from_digest, create_preimage_bytes, nonce_be_bytes, predict, Address};
use neonswap::token::parse_address;

fn addr(s: &str) -> Address {
    parse_address(s).expect("address text")
}

const SENDER: &str = "0x6ac7ea33f8831ea9dcc53393aaa88b25a785dbf0";

#[test]
fn predict_nonce_zero_uses_empty_encoding() {
    let s = addr(SENDER);
    assert_eq!(predict(&s, 0), addr("0xcd234a471b72ba2f1ccf0a70fcaba648a5eecd8d"));
}

#[test]
fn predict_known_vectors() {
    let s = addr(SENDER);
    assert_eq!(predict(&s, 1), addr("0x343c43a37d37dff08ae8c4a11544c718abb4fcf8"));
    assert_eq!(predict(&s, 2), addr("0xf778b86fa74e846c4f0a1fbd1335fe81c00a0c91"));
    assert_eq!(predict(&s, 3), addr("0xfffd933a0bc612844eaf0c6fe3e5b8e9b6c1d19c"));
}

#[test]
fn predict_is_deterministic() {
    let s = addr(SENDER);
    for n in [0u64, 1, 127, 128, 255, 256, 65535, u64::MAX] {
        assert_eq!(predict(&s, n), predict(&s, n));
    }
    assert_ne!(predict(&s, 0), predict(&s, 1));
}

#[test]
fn nonce_bytes_are_minimal() {
    assert_eq!(nonce_be_bytes(0), Vec::<u8>::new());
    assert_eq!(nonce_be_bytes(1), vec![1u8]);
    assert_eq!(nonce_be_bytes(255), vec![255u8]);
    assert_eq!(nonce_be_bytes(256), vec![1u8, 0]);
    assert_eq!(nonce_be_bytes(u64::MAX), vec![0xffu8; 8]);
}

#[test]
fn preimage_encoding() {
    let s = addr(SENDER);
    let head: Vec<u8> = {
        let mut v = vec![0x94u8];
        v.extend_from_slice(&s.bytes);
        v
    };
    let mut zero = vec![0xd6u8];
    zero.extend_from_slice(&head);
    zero.push(0x80);
    assert_eq!(create_preimage_bytes(&s, 0), zero);

    let mut one = vec![0xd6u8];
    one.extend_from_slice(&head);
    one.push(0x01);
    assert_eq!(create_preimage_bytes(&s, 1), one);

    let mut big = vec![0xd7u8];
    big.extend_from_slice(&head);
    big.extend_from_slice(&[0x81, 0x80]);
    assert_eq!(create_preimage_bytes(&s, 128), big);

    let mut max = vec![0xdeu8];
    max.extend_from_slice(&head);
    max.push(0x88);
    max.extend_from_slice(&[0xff; 8]);
    assert_eq!(create_preimage_bytes(&s, u64::MAX), max);
}

#[test]
fn digest_low_bytes() {
    let mut d = [0u8; 32];
    for (i, b) in d.iter_mut().enumerate() {
        *b = i as u8;
    }
    let a = address_from_digest(&d);
    let expected: Vec<u8> = (12u8..32).collect();
    assert_eq!(a.bytes.to_vec(), expected);
}

#[test]
fn address_equality_and_zero() {
    let z = Address::zero();
    assert_eq!(z.bytes, [0u8; 20]);
    assert!(z.same(&Address { bytes: [0u8; 20] }));
    assert!(!z.same(&addr(SENDER)));
}

#[test]
fn checksum_text_known_vectors() {
    for s in [
        "0x5aAeb6053F3E94C9b9A09f33669435E7Ef1BeAed",
        "0xfB6916095ca1df60bB79Ce92cE3Ea74c37c5d359",
        "0xdbF03B407c01E7cD3CBea99509d93f8DDDC8C6FB",
        "0xD1220A0cf47c7B9Be7A2E6BA89F429762e7b9aDb",
    ] {
        assert_eq!(addr(&s.to_lowercase()).to_checksum_text(), s);
    }
}

#[test]
fn checksum_text_of_digits_only() {
    assert_eq!(Address::zero().to_checksum_text(), "0x0000000000000000000000000000000000000000");
}
