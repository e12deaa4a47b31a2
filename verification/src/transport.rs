//! What the driver is given to reach the chip: a two-wire bus and a delay.
//!
//! Both are traits for the embedding system to implement, and nothing is
//! assumed of an implementation. The driver holds the two inside a
//! recorder, which keeps a ghost record of the calls it has passed on, so
//! that the driver's contracts can say which transactions and pauses a call
//! makes and in which order.

use vstd::prelude::*;

verus! {

/// A bus transaction that did not complete.
#[derive(Debug, Clone, Copy, PartialEq, Eq, Structural)]
pub struct TransportError;

/// A two-wire bus master.
pub trait I2cBus {
    /// Sends `write` to the device at `address` and then fills `read` from
    /// it, in a single transaction.
    fn write_read(&mut self, address: u8, write: &[u8], read: &mut [u8]) -> Result<
        (),
        TransportError,
    >;

    /// Sends `bytes` to the device at `address`.
    fn write(&mut self, address: u8, bytes: &[u8]) -> Result<(), TransportError>;
}

/// A blocking delay.
pub trait DelayMs {
    /// Blocks for at least `ms` milliseconds.
    fn delay_ms(&mut self, ms: u32);
}

/// One call on the bus or on the delay, with what it was given and how it
/// ended.
pub enum Event {
    /// `written` was sent to the device at `address` and `requested` bytes
    /// were then read back in the same transaction: `response` holds them,
    /// or is `None` when the transaction failed.
    WriteRead { address: u8, written: Seq<u8>, requested: nat, response: Option<Seq<u8>> },
    /// `written` was sent to the device at `address`; `ok` tells whether the
    /// transaction completed.
    Write { address: u8, written: Seq<u8>, ok: bool },
    /// The delay was asked to block for `ms` milliseconds.
    Pause { ms: u32 },
}

impl Event {
    /// Whether the call completed. A pause always does.
    pub open spec fn completed(self) -> bool {
        match self {
            Event::WriteRead { response, .. } => response is Some,
            Event::Write { ok, .. } => ok,
            Event::Pause { .. } => true,
        }
    }
}

/// A bus and a delay together with the record of the calls made through
/// them.
///
/// The two can be reached in no other way than by the three methods below,
/// each of which makes one call and records it.
pub struct Recorder<B, D> {
    bus: B,
    delay: D,
    log: Ghost<Seq<Event>>,
}

impl<B: I2cBus, D: DelayMs> Recorder<B, D> {
    /// The calls made so far, oldest first.
    pub closed spec fn history(&self) -> Seq<Event> {
        self.log@
    }

    /// Takes a bus and a delay, with an empty record.
    pub fn new(bus: B, delay: D) -> (recorder: Self)
        ensures
            recorder.history() == Seq::<Event>::empty(),
    {
        Recorder { bus, delay, log: Ghost(Seq::empty()) }
    }

    /// Sends `write` to the device at `address` and then fills `read` from
    /// it, in a single transaction.
    pub fn write_read(&mut self, address: u8, write: &[u8], read: &mut [u8]) -> (r: Result<
        (),
        TransportError,
    >)
        ensures
            final(self).history() == old(self).history().push(
                Event::WriteRead {
                    address,
                    written: write@,
                    requested: old(read)@.len(),
                    response: if r is Ok {
                        Some(final(read)@)
                    } else {
                        None
                    },
                },
            ),
    {
        let r = self.bus.write_read(address, write, read);
        proof {
            self.log@ = self.log@.push(
                Event::WriteRead {
                    address,
                    written: write@,
                    requested: old(read)@.len(),
                    response: if r is Ok {
                        Some(read@)
                    } else {
                        None
                    },
                },
            );
        }
        r
    }

    /// Sends `bytes` to the device at `address`.
    pub fn write(&mut self, address: u8, bytes: &[u8]) -> (r: Result<(), TransportError>)
        ensures
            final(self).history() == old(self).history().push(
                Event::Write { address, written: bytes@, ok: r is Ok },
            ),
    {
        let r = self.bus.write(address, bytes);
        proof {
            self.log@ = self.log@.push(Event::Write { address, written: bytes@, ok: r is Ok });
        }
        r
    }

    /// Blocks for at least `ms` milliseconds.
    pub fn delay_ms(&mut self, ms: u32)
        ensures
            final(self).history() == old(self).history().push(Event::Pause { ms }),
    {
        self.delay.delay_ms(ms);
        proof {
            self.log@ = self.log@.push(Event::Pause { ms });
        }
    }
}

} // verus!
