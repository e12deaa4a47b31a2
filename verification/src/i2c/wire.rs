//! How a register access looks on the bus.
//!
//! A register holds a 16-bit word that travels low byte first. Reading one
//! is a single transaction that sends the register's command code and reads
//! two bytes back; writing one is a single transaction that sends the
//! command code followed by the two bytes.

use crate::transport::Event;
use byteorder::ByteOrder;
use byteorder::LittleEndian;
use vstd::prelude::*;

verus! {

/// The low byte of `word`.
pub open spec fn low_byte(word: u16) -> u8 {
    (word % 256) as u8
}

/// The high byte of `word`.
pub open spec fn high_byte(word: u16) -> u8 {
    (word / 256) as u8
}

/// The word whose low byte is `low` and whose high byte is `high`.
pub open spec fn word_of_bytes(low: u8, high: u8) -> u16 {
    (low + 256 * high) as u16
}

/// The two bytes of `word` in the order in which they travel.
pub open spec fn wire_bytes(word: u16) -> Seq<u8> {
    seq![low_byte(word), high_byte(word)]
}

/// The transaction that reads register `register` of the device at
/// `address`: `outcome` is the word that came back, or `None` when the
/// transaction failed.
pub open spec fn register_read(address: u8, register: u8, outcome: Option<u16>) -> Event {
    Event::WriteRead {
        address,
        written: seq![register],
        requested: 2,
        response: match outcome {
            Some(word) => Some(wire_bytes(word)),
            None => None,
        },
    }
}

/// The transaction that writes `word` to register `register` of the device
/// at `address`; `ok` tells whether it completed.
pub open spec fn register_write(address: u8, register: u8, word: u16, ok: bool) -> Event {
    Event::Write { address, written: seq![register] + wire_bytes(word), ok }
}

/// The word that a call read, if it is a bus read that completed.
pub open spec fn read_outcome(event: Event) -> Option<u16> {
    match event {
        Event::WriteRead { response: Some(bytes), .. } => Some(
            word_of_bytes(bytes[0], bytes[1]),
        ),
        _ => None,
    }
}

/// Splitting a word into its bytes and joining them again gives the word
/// back, and the other way round; so a read that completed is told apart by
/// the word it returned.
pub proof fn lemma_wire_bytes_round_trip(word: u16, low: u8, high: u8)
    ensures
        word_of_bytes(low_byte(word), high_byte(word)) == word,
        low_byte(word_of_bytes(low, high)) == low,
        high_byte(word_of_bytes(low, high)) == high,
        forall|address: u8, register: u8, outcome: Option<u16>|
            read_outcome(#[trigger] register_read(address, register, outcome)) == outcome,
{
    assert forall|address: u8, register: u8, outcome: Option<u16>|
        read_outcome(#[trigger] register_read(address, register, outcome)) == outcome by {
        if let Some(state) = outcome {
            assert(word_of_bytes(low_byte(state), high_byte(state)) == state);
        }
    }
}

/// Builds what a write to register `register` sends: the register's command
/// code, then `bytes`.
pub fn write_frame(register: u8, bytes: &[u8]) -> (frame: Vec<u8>)
    ensures
        frame@ == seq![register] + bytes@,
{
    let mut frame = Vec::<u8>::new();
    frame.push(register);
    for i in 0..bytes.len()
        invariant
            frame@ == seq![register] + bytes@.take(i as int),
    {
        frame.push(bytes[i]);
        assert(bytes@.take(i + 1) =~= bytes@.take(i as int).push(bytes@[i as int]));
    }
    assert(bytes@.take(bytes@.len() as int) =~= bytes@);
    frame
}

/// Decodes the first two bytes of `buffer` as a word, low byte first.
///
/// Calls byteorder's `LittleEndian::read_u16`, which reads the word from
/// `buffer[..2]` and panics on a shorter slice.
#[verifier::external_body]
pub(crate) fn convert_buffer_to_u16(buffer: &[u8]) -> (word: u16)
    requires
        buffer@.len() >= 2,
    ensures
        word == word_of_bytes(buffer@[0], buffer@[1]),
{
    LittleEndian::read_u16(buffer)
}

/// Encodes `num` into the first two bytes of `buffer`, low byte first.
///
/// Calls byteorder's `LittleEndian::write_u16`, which overwrites
/// `buffer[..2]`, touches no other byte and panics on a shorter slice.
#[verifier::external_body]
pub(crate) fn convert_u16_to_buffer(buffer: &mut [u8], num: u16)
    requires
        old(buffer)@.len() >= 2,
    ensures
        final(buffer)@ == old(buffer)@.update(0, low_byte(num)).update(1, high_byte(num)),
{
    LittleEndian::write_u16(buffer, num)
}

} // verus!
