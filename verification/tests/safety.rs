use pair_vetter::abi::{encode_address, encode_address_and_amount};
use pair_vetter::address::Address;
use pair_vetter::safety::{probe_data, signals_restriction};
use pair_vetter::uint256::Uint256;

#[test]
fn probe_data_is_the_padded_counterparty() {
    let mut expected = vec![0u8; 12];
    expected.extend_from_slice(&Address::probe_counterparty().bytes);
    assert_eq!(probe_data(), expected);
    assert_eq!(probe_data().len(), 32);
    assert_eq!(probe_data()[12], 0xdd);
    assert_eq!(probe_data()[31], 0x95);
}

#[test]
fn failed_call_signals_restriction() {
    assert!(signals_restriction(&None));
}

#[test]
fn returned_call_signals_no_restriction() {
    assert!(!signals_restriction(&Some(vec![])));
    assert!(!signals_restriction(&Some(vec![0u8; 32])));
    assert!(!signals_restriction(&Some(vec![0xff])));
}

#[test]
fn address_is_encoded_as_one_word() {
    let mut expected = vec![0u8; 12];
    expected.extend_from_slice(&[0x11u8; 20]);
    assert_eq!(encode_address(&Address { bytes: [0x11u8; 20] }), expected);
}

#[test]
fn amount_is_encoded_big_endian() {
    let amount = Uint256 { limbs: [0x0807060504030201, 0x100f0e0d0c0b0a09, 0, 0xa1a2a3a4a5a6a7a8] };
    let data = encode_address_and_amount(&Address { bytes: [0u8; 20] }, &amount);
    assert_eq!(data.len(), 64);
    assert_eq!(data[..32].to_vec(), vec![0u8; 32]);
    assert_eq!(data[32..40].to_vec(), vec![0xa1, 0xa2, 0xa3, 0xa4, 0xa5, 0xa6, 0xa7, 0xa8]);
    assert_eq!(data[40..48].to_vec(), vec![0u8; 8]);
    assert_eq!(data[48..56].to_vec(), vec![0x10, 0x0f, 0x0e, 0x0d, 0x0c, 0x0b, 0x0a, 0x09]);
    assert_eq!(data[56..64].to_vec(), vec![0x08, 0x07, 0x06, 0x05, 0x04, 0x03, 0x02, 0x01]);
}
