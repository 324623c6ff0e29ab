use zkbuild::bytes32::Bytes32;
use zkbuild::dual::{matched_only, DualCompiledContract};
use zkbuild::hexstr::{decode_hex, HexDecodeError};

#[test]
fn decodes_valid_hex() {
    assert_eq!(decode_hex("").unwrap(), Vec::<u8>::new());
    assert_eq!(decode_hex("00").unwrap(), vec![0u8]);
    assert_eq!(decode_hex("deadBEEF").unwrap(), vec![0xde, 0xad, 0xbe, 0xef]);
    assert_eq!(decode_hex("0a1B2c").unwrap(), vec![0x0a, 0x1b, 0x2c]);
}

#[test]
fn reports_odd_length() {
    assert_eq!(decode_hex("abc").unwrap_err(), HexDecodeError::OddLength);
    assert_eq!(decode_hex("f").unwrap_err(), HexDecodeError::OddLength);
}

#[test]
fn reports_first_invalid_character() {
    assert_eq!(
        decode_hex("0g").unwrap_err(),
        HexDecodeError::InvalidHexCharacter { c: 'g', index: 1 }
    );
    assert_eq!(
        decode_hex("xy").unwrap_err(),
        HexDecodeError::InvalidHexCharacter { c: 'x', index: 0 }
    );
}

#[test]
fn agrees_with_the_hex_crate() {
    for input in ["", "00", "ff", "deadbeef", "0123456789abcdefABCDEF00"] {
        assert_eq!(decode_hex(input).unwrap(), hex::decode(input).unwrap());
    }
    for input in ["abc", "0g", "not-hex", "zz"] {
        assert!(decode_hex(input).is_err());
        assert!(hex::decode(input).is_err());
    }
}

fn matched_record(name: &str) -> DualCompiledContract {
    DualCompiledContract::new(
        name.to_string(),
        Bytes32::zero(),
        vec![1, 2, 3],
        Bytes32::zero(),
        vec![4, 5],
        vec![6],
    )
}

#[test]
fn default_record_is_unmatched() {
    let d = DualCompiledContract::default();
    assert!(!d.is_matched());
    assert_eq!(d.name, "");
    assert_eq!(d.zk_bytecode_hash.bytes, vec![0u8; 32]);
    assert_eq!(d.evm_bytecode_hash.bytes, vec![0u8; 32]);
}

#[test]
fn one_sided_records_are_unmatched() {
    let mut c = matched_record("A");
    assert!(c.is_matched());
    c.zk_deployed_bytecode = Vec::new();
    assert!(!c.is_matched());
    let mut c = matched_record("B");
    c.evm_deployed_bytecode = Vec::new();
    assert!(!c.is_matched());
}

#[test]
fn matched_only_drops_one_sided_records() {
    let a = matched_record("A");
    let mut b = matched_record("B");
    b.evm_deployed_bytecode = Vec::new();
    let c = matched_record("C");
    let kept = matched_only(vec![a, b, c]);
    let names: Vec<String> = kept.iter().map(|r| r.name.clone()).collect();
    assert_eq!(names, vec!["A".to_string(), "C".to_string()]);
    assert!(kept.iter().all(|r| r.is_matched()));
}
