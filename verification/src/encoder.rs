//! The numeric input encoder: from what a caller supplies to what a circuit
//! consumes.
//!
//! A circuit takes each signal as a sequence of arbitrary-precision integers.
//! Callers supply fixed-width integers, which are converted without loss
//! (a negative value stays negative), or a raw byte buffer, which is spread
//! into one integer per bit.
//!
//! # Bit order
//!
//! A buffer of `n` bytes gives `8 * n` bits. The bytes keep their order, and
//! within a byte the least significant bit comes first: bit `8 * i + j` of the
//! result is bit `j` of byte `i`, where bit 0 is the one of value 1.

use crate::inputs::{distinct_names, signals_view, CircuitInputs};
use num_bigint::BigInt;
use vstd::prelude::*;

verus! {

/// `num_bigint::BigInt`, the arbitrary-precision integer of the circuit's
/// signals. Its inside is not looked at here: a value is made by
/// `bigint_from_i32` and carried to the proving engine.
#[verifier::external_type_specification]
#[verifier::external_body]
pub struct ExBigInt(num_bigint::BigInt);

/// The integer that an arbitrary-precision number stands for. Nothing is
/// assumed of it but what `bigint_from_i32` says.
pub uninterp spec fn bigint_value(number: BigInt) -> int;

/// `BigInt::from` on an `i32`, the `From<i32>` conversion of `num_bigint`.
/// Not proved but trusted: the number it gives has the value of the argument,
/// and so keeps its sign.
#[verifier::external_body]
fn bigint_from_i32(value: i32) -> (number: BigInt)
    ensures
        bigint_value(number) == value,
{
    BigInt::from(value)
}

/// Bit `position` of `byte`, counted from the least significant bit.
pub open spec fn bit_of(byte: u8, position: u8) -> bool {
    (byte >> position) & 1u8 == 1u8
}

/// The bits of a byte buffer, least significant bit of each byte first.
pub open spec fn bits_of(bytes: Seq<u8>) -> Seq<bool> {
    Seq::new(8 * bytes.len(), |k: int| bit_of(bytes[k / 8], (k % 8) as u8))
}

/// The signal value that stands for a bit.
pub open spec fn bit_value(bit: bool) -> i32 {
    if bit {
        1
    } else {
        0
    }
}

/// The signal values of a byte buffer: one value, 0 or 1, for each bit.
pub open spec fn bit_values(bytes: Seq<u8>) -> Seq<i32> {
    Seq::new(8 * bytes.len(), |k: int| bit_value(bits_of(bytes)[k]))
}

/// A byte is the sum of its bits, each weighted by its place.
pub proof fn lemma_byte_from_bits(byte: u8)
    ensures
        byte == bit_value(bit_of(byte, 0)) + 2 * bit_value(bit_of(byte, 1)) + 4 * bit_value(
            bit_of(byte, 2),
        ) + 8 * bit_value(bit_of(byte, 3)) + 16 * bit_value(bit_of(byte, 4)) + 32 * bit_value(
            bit_of(byte, 5),
        ) + 64 * bit_value(bit_of(byte, 6)) + 128 * bit_value(bit_of(byte, 7)),
{
    assert(byte == (if (byte >> 0u8) & 1u8 == 1u8 {
        1u8
    } else {
        0u8
    }) + 2 * (if (byte >> 1u8) & 1u8 == 1u8 {
        1u8
    } else {
        0u8
    }) + 4 * (if (byte >> 2u8) & 1u8 == 1u8 {
        1u8
    } else {
        0u8
    }) + 8 * (if (byte >> 3u8) & 1u8 == 1u8 {
        1u8
    } else {
        0u8
    }) + 16 * (if (byte >> 4u8) & 1u8 == 1u8 {
        1u8
    } else {
        0u8
    }) + 32 * (if (byte >> 5u8) & 1u8 == 1u8 {
        1u8
    } else {
        0u8
    }) + 64 * (if (byte >> 6u8) & 1u8 == 1u8 {
        1u8
    } else {
        0u8
    }) + 128 * (if (byte >> 7u8) & 1u8 == 1u8 {
        1u8
    } else {
        0u8
    })) by (bit_vector);
}

/// A buffer of `n` bytes encodes to exactly `8 * n` signal values, each 0 or
/// 1, and value `8 * i + j` is 1 exactly when bit `j` of byte `i` is set.
pub proof fn lemma_bit_values_shape(bytes: Seq<u8>)
    ensures
        bit_values(bytes).len() == 8 * bytes.len(),
        forall|k: int|
            0 <= k < 8 * bytes.len() ==> {
                let value = #[trigger] bit_values(bytes)[k];
                value == 0 || value == 1
            },
        forall|i: int, j: u8|
            0 <= i < bytes.len() && j < 8 ==> {
                let value = #[trigger] bit_values(bytes)[8 * i + j];
                (value == 1) == bit_of(bytes[i], j)
            },
{
    assert forall|i: int, j: u8| 0 <= i < bytes.len() && j < 8 implies {
        let value = #[trigger] bit_values(bytes)[8 * i + j];
        (value == 1) == bit_of(bytes[i], j)
    } by {
        assert((8 * i + j) / 8 == i && (8 * i + j) % 8 == j);
    }
}

/// The encoding loses nothing: buffers with the same signal values are equal.
pub proof fn lemma_bit_values_determine_bytes(first: Seq<u8>, second: Seq<u8>)
    requires
        bit_values(first) == bit_values(second),
    ensures
        first == second,
{
    assert(8 * first.len() == bit_values(first).len() == bit_values(second).len() == 8
        * second.len());
    assert forall|i: int| 0 <= i < first.len() implies first[i] == second[i] by {
        assert forall|j: u8| j < 8 implies bit_of(first[i], j) == bit_of(second[i], j) by {
            let k = 8 * i + j;
            assert(k / 8 == i && k % 8 == j);
            assert(bit_values(first)[k] == bit_value(bit_of(first[i], j)));
            assert(bit_values(second)[k] == bit_value(bit_of(second[i], j)));
        }
        lemma_byte_from_bits(first[i]);
        lemma_byte_from_bits(second[i]);
    }
    assert(first =~= second);
}

/// Spreads a byte buffer into its bits, least significant bit of each byte
/// first.
pub fn bytes_to_bits(bytes: &[u8]) -> (bits: Vec<bool>)
    ensures
        bits@ == bits_of(bytes@),
{
    let mut bits: Vec<bool> = Vec::new();
    let mut i: usize = 0;
    while i < bytes.len()
        invariant
            i <= bytes@.len(),
            bits@.len() == 8 * i,
            forall|k: int| 0 <= k < bits@.len() ==> bits@[k] == bits_of(bytes@)[k],
        decreases bytes@.len() - i,
    {
        let byte = bytes[i];
        let mut j: u8 = 0;
        while j < 8
            invariant
                i < bytes@.len(),
                byte == bytes@[i as int],
                j <= 8,
                bits@.len() == 8 * i + j,
                forall|k: int| 0 <= k < bits@.len() ==> bits@[k] == bits_of(bytes@)[k],
            decreases 8 - j,
        {
            let bit = (byte >> j) & 1 == 1;
            assert((8 * i + j) / 8 == i && (8 * i + j) % 8 == j);
            bits.push(bit);
            j += 1;
        }
        i += 1;
    }
    bits
}

/// The signal values of a byte buffer: one value, 0 or 1, for each bit, in the
/// bit order of [`bytes_to_bits`].
pub fn bytes_to_signal_values(bytes: &[u8]) -> (values: Vec<i32>)
    ensures
        values@ == bit_values(bytes@),
{
    let bits = bytes_to_bits(bytes);
    let mut values: Vec<i32> = Vec::new();
    let mut k: usize = 0;
    while k < bits.len()
        invariant
            k <= bits@.len(),
            bits@ == bits_of(bytes@),
            values@.len() == k,
            forall|n: int| 0 <= n < k ==> values@[n] == bit_value(bits@[n]),
        decreases bits@.len() - k,
    {
        let value: i32 = if bits[k] {
            1
        } else {
            0
        };
        values.push(value);
        k += 1;
    }
    values
}

/// The inputs of a circuit that consumes a message bit by bit: the single
/// signal `in`, which holds the bits of the buffer as signal values.
pub fn bytes_to_circuit_inputs(input_vec: &Vec<u8>) -> (inputs: CircuitInputs)
    ensures
        inputs@ == seq![("in"@, bit_values(input_vec@))],
{
    let values = bytes_to_signal_values(input_vec.as_slice());
    let mut inputs = CircuitInputs::new();
    inputs.insert("in".to_string(), values);
    inputs
}

/// One named signal, ready for the circuit.
#[derive(Debug)]
pub struct SignalEntry {
    pub name: String,
    pub values: Vec<BigInt>,
}

/// What a signal entry holds: its name and the integers of its values.
pub struct SignalEntryView {
    pub name: Seq<char>,
    pub values: Seq<int>,
}

/// The integers that a sequence of arbitrary-precision numbers stands for.
pub open spec fn bigint_values(numbers: Seq<BigInt>) -> Seq<int> {
    Seq::new(numbers.len(), |i: int| bigint_value(numbers[i]))
}

impl View for SignalEntry {
    type V = SignalEntryView;

    open spec fn view(&self) -> SignalEntryView {
        SignalEntryView { name: self.name@, values: bigint_values(self.values@) }
    }
}

/// The entry that a named sequence of integers encodes to.
pub open spec fn encoded_signal(name: Seq<char>, values: Seq<i32>) -> SignalEntryView {
    SignalEntryView { name, values: Seq::new(values.len(), |i: int| values[i] as int) }
}

/// The entries that a list of signals encodes to, in the same order.
pub open spec fn encoded_signals(signals: Seq<(Seq<char>, Seq<i32>)>) -> Seq<SignalEntryView> {
    Seq::new(signals.len(), |i: int| encoded_signal(signals[i].0, signals[i].1))
}

/// What a list of signal entries holds.
pub open spec fn entries_view(entries: Seq<SignalEntry>) -> Seq<SignalEntryView> {
    Seq::new(entries.len(), |i: int| entries[i]@)
}

/// Encodes one signal: every value becomes the arbitrary-precision integer
/// of the same value, in the same place.
pub fn encode(name: String, values: &[i32]) -> (entry: SignalEntry)
    ensures
        entry@ == encoded_signal(name@, values@),
{
    let mut numbers: Vec<BigInt> = Vec::new();
    let mut i: usize = 0;
    while i < values.len()
        invariant
            i <= values@.len(),
            numbers@.len() == i,
            forall|k: int| 0 <= k < i ==> bigint_value(numbers@[k]) == values@[k],
        decreases values@.len() - i,
    {
        numbers.push(bigint_from_i32(values[i]));
        i += 1;
    }
    let entry = SignalEntry { name, values: numbers };
    assert(entry@.values =~= encoded_signal(name@, values@).values);
    entry
}

/// Encodes a byte buffer as one signal: one arbitrary-precision integer, 0 or
/// 1, for each bit of the buffer, in the bit order of [`bytes_to_bits`].
pub fn encode_bytes(name: String, bytes: &[u8]) -> (entry: SignalEntry)
    ensures
        entry@ == encoded_signal(name@, bit_values(bytes@)),
{
    let values = bytes_to_signal_values(bytes);
    encode(name, values.as_slice())
}

/// Encodes every signal of the inputs, in the order of the inputs. No name
/// occurs twice among the entries.
pub fn encode_inputs(inputs: CircuitInputs) -> (entries: Vec<SignalEntry>)
    ensures
        entries_view(entries@) == encoded_signals(inputs@),
        distinct_names(inputs@),
{
    let signals = inputs.into_signals();
    let mut entries: Vec<SignalEntry> = Vec::new();
    for signal in iter: signals
        invariant
            entries@.len() == iter.index(),
            iter.seq() == signals@,
            signals_view(signals@) == inputs@,
            forall|k: int|
                0 <= k < entries@.len() ==> (#[trigger] entries@[k])@ == encoded_signal(
                    inputs@[k].0,
                    inputs@[k].1,
                ),
    {
        let (name, values) = signal;
        entries.push(encode(name, values.as_slice()));
    }
    entries
}

} // verus!
