use mopro_ffi::encoder::{
    bytes_to_bits, bytes_to_circuit_inputs, bytes_to_signal_values, encode, encode_bytes,
    encode_inputs,
};
use mopro_ffi::inputs::CircuitInputs;
use num_bigint::BigInt;

#[test]
fn bits_come_least_significant_first() {
    // 116 is 0b0111_0100.
    assert_eq!(
        bytes_to_bits(&[116]),
        vec![false, false, true, false, true, true, true, false]
    );
    assert_eq!(
        bytes_to_bits(&[1]),
        vec![true, false, false, false, false, false, false, false]
    );
    assert_eq!(
        bytes_to_bits(&[0x80]),
        vec![false, false, false, false, false, false, false, true]
    );
}

#[test]
fn bytes_keep_their_order() {
    let bits = bytes_to_bits(&[0x01, 0x02, 0xff, 0x00]);
    assert_eq!(bits.len(), 32);
    let set: Vec<usize> = (0..bits.len()).filter(|k| bits[*k]).collect();
    assert_eq!(set, vec![0, 9, 16, 17, 18, 19, 20, 21, 22, 23]);
}

#[test]
fn empty_buffer_has_no_bits() {
    assert_eq!(bytes_to_bits(&[]), Vec::<bool>::new());
    assert_eq!(bytes_to_signal_values(&[]), Vec::<i32>::new());
}

#[test]
fn every_byte_gives_eight_values_of_zero_or_one() {
    let buffer: Vec<u8> = (0..=255u8).collect();
    let values = bytes_to_signal_values(&buffer);
    assert_eq!(values.len(), 8 * buffer.len());
    for (k, value) in values.iter().enumerate() {
        let expected: i32 = ((buffer[k / 8] >> (k % 8)) & 1) as i32;
        assert_eq!(*value, expected);
        assert!(*value == 0 || *value == 1);
    }
}

#[test]
fn bit_encoding_is_repeatable() {
    let buffer: Vec<u8> = vec![116, 101, 115, 116];
    assert_eq!(bytes_to_signal_values(&buffer), bytes_to_signal_values(&buffer));
    assert_eq!(bytes_to_bits(&buffer), bytes_to_bits(&buffer));
}

#[test]
fn bits_give_the_bytes_back() {
    let buffer: Vec<u8> = vec![0, 1, 2, 116, 200, 255];
    let values = bytes_to_signal_values(&buffer);
    let rebuilt: Vec<u8> = values
        .chunks(8)
        .map(|bits| bits.iter().enumerate().map(|(j, bit)| (*bit as u8) << j).sum())
        .collect();
    assert_eq!(rebuilt, buffer);
}

#[test]
fn byte_buffer_becomes_the_signal_in() {
    let inputs = bytes_to_circuit_inputs(&vec![116, 101]);
    assert_eq!(inputs.len(), 1);
    let values = inputs.get(&"in".to_string()).unwrap();
    assert_eq!(
        *values,
        vec![0, 0, 1, 0, 1, 1, 1, 0, 1, 0, 1, 0, 0, 1, 1, 0]
    );
}

#[test]
fn encode_keeps_values_and_signs() {
    let entry = encode("a".to_string(), &[3, -5, 0, i32::MAX, i32::MIN]);
    assert_eq!(entry.name, "a");
    let printed: Vec<String> = entry.values.iter().map(|value| value.to_string()).collect();
    assert_eq!(printed, vec!["3", "-5", "0", "2147483647", "-2147483648"]);
    assert_eq!(entry.values[1], BigInt::from(-5));
    assert_eq!(entry.values[4], BigInt::from(i32::MIN));
    assert!(entry.values[1] < BigInt::from(0));
}

#[test]
fn encode_bytes_gives_one_number_per_bit() {
    let entry = encode_bytes("in".to_string(), &[116, 1]);
    assert_eq!(entry.name, "in");
    let expected: Vec<BigInt> = [0, 0, 1, 0, 1, 1, 1, 0, 1, 0, 0, 0, 0, 0, 0, 0]
        .iter()
        .map(|bit: &i32| BigInt::from(*bit))
        .collect();
    assert_eq!(entry.values, expected);
}

#[test]
fn encode_of_nothing_is_empty() {
    let entry = encode("empty".to_string(), &[]);
    assert_eq!(entry.name, "empty");
    assert!(entry.values.is_empty());
}

#[test]
fn encode_inputs_keeps_names_and_order() {
    let mut inputs = CircuitInputs::new();
    inputs.insert("b".to_string(), vec![5]);
    inputs.insert("a".to_string(), vec![3, -1]);
    inputs.insert("b".to_string(), vec![7, 8]);
    let entries = encode_inputs(inputs);
    assert_eq!(entries.len(), 2);
    assert_eq!(entries[0].name, "b");
    assert_eq!(entries[0].values, vec![BigInt::from(7), BigInt::from(8)]);
    assert_eq!(entries[1].name, "a");
    assert_eq!(entries[1].values, vec![BigInt::from(3), BigInt::from(-1)]);
}

#[test]
fn circuit_inputs_behave_as_a_map() {
    let mut inputs = CircuitInputs::new();
    assert_eq!(inputs.len(), 0);
    assert!(inputs.get(&"a".to_string()).is_none());

    assert_eq!(inputs.insert("a".to_string(), vec![3]), None);
    assert_eq!(inputs.insert("b".to_string(), vec![5]), None);
    assert_eq!(inputs.len(), 2);
    assert_eq!(inputs.get(&"a".to_string()), Some(&vec![3]));
    assert_eq!(inputs.get(&"b".to_string()), Some(&vec![5]));
    assert!(inputs.get(&"c".to_string()).is_none());

    assert_eq!(inputs.insert("a".to_string(), vec![4, 4]), Some(vec![3]));
    assert_eq!(inputs.len(), 2);
    assert_eq!(inputs.get(&"a".to_string()), Some(&vec![4, 4]));
    assert_eq!(inputs.get(&"b".to_string()), Some(&vec![5]));

    let signals = inputs.into_signals();
    assert_eq!(
        signals,
        vec![("a".to_string(), vec![4, 4]), ("b".to_string(), vec![5])]
    );
}
