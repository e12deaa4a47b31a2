//! What a call on a device handle does on the bus and the delay, as a
//! relation between the handle before the call and after it.

use crate::i2c::bitfield::splice_field;
use crate::i2c::constants::fields;
use crate::i2c::constants::registers;
use crate::i2c::constants::POWER_ON_SETTLE_MS;
use crate::i2c::settings::Shutdown;
use crate::i2c::wire::read_outcome;
use crate::i2c::wire::register_read;
use crate::i2c::wire::register_write;
use crate::transport::Event;
use vstd::prelude::*;

verus! {

/// What a device handle stands for: the bus address it talks to and the
/// calls it has made on its bus and its delay, oldest first.
pub struct DeviceView {
    pub address: u8,
    pub events: Seq<Event>,
}

impl DeviceView {
    /// The handle after one more call.
    pub open spec fn after(self, event: Event) -> DeviceView {
        DeviceView { events: self.events.push(event), ..self }
    }

    /// The word read by the latest call, if that was a bus read that
    /// completed.
    pub open spec fn last_read(self) -> Option<u16> {
        read_outcome(self.events.last())
    }
}

/// Whether a call that took a handle from `pre` to `post` read register
/// `register` once and did nothing else.
pub open spec fn reads_register(pre: DeviceView, post: DeviceView, register: u8) -> bool {
    post == pre.after(register_read(pre.address, register, post.last_read()))
}

/// Whether `after` is `before` followed by the transactions of one update
/// of the field of `width` bits at `offset` in register `register`: a read
/// of the register and, if that completed, a write of the word read with
/// `value` spliced into the field. `ok` tells whether both completed.
pub open spec fn field_update(
    before: Seq<Event>,
    after: Seq<Event>,
    address: u8,
    register: u8,
    offset: u16,
    width: u16,
    value: u16,
    ok: bool,
) -> bool {
    &&& after.len() > before.len()
    &&& match read_outcome(after[before.len() as int]) {
        Some(state) => after == before.push(register_read(address, register, Some(state))).push(
            register_write(address, register, splice_field(state, offset, width, value), ok),
        ),
        None => after == before.push(register_read(address, register, None)) && !ok,
    }
}

/// Whether a call that took a handle from `pre` to `post` updated one field
/// as `field_update` says and did nothing else.
pub open spec fn updates_field(
    pre: DeviceView,
    post: DeviceView,
    register: u8,
    offset: u16,
    width: u16,
    value: u16,
    ok: bool,
) -> bool {
    &&& post.address == pre.address
    &&& field_update(pre.events, post.events, pre.address, register, offset, width, value, ok)
}

/// Whether `after` is `before` followed by what one change of the power
/// state does: the update of the shutdown field to `shutdown` and, when
/// that powers the chip on and completes, one pause for the chip to settle.
/// `ok` tells whether the update completed.
pub open spec fn power_update(
    before: Seq<Event>,
    after: Seq<Event>,
    address: u8,
    shutdown: Shutdown,
    ok: bool,
) -> bool {
    &&& after.len() > before.len()
    &&& match read_outcome(after[before.len() as int]) {
        Some(state) => {
            let updated = before.push(
                register_read(address, registers::SETTING_REG, Some(state)),
            ).push(
                register_write(
                    address,
                    registers::SETTING_REG,
                    splice_field(
                        state,
                        fields::SHUTDOWN_OFFSET,
                        fields::SHUTDOWN_WIDTH,
                        shutdown.bits(),
                    ),
                    ok,
                ),
            );
            after == if ok && shutdown == Shutdown::PowerOn {
                updated.push(Event::Pause { ms: POWER_ON_SETTLE_MS })
            } else {
                updated
            }
        },
        None => after == before.push(register_read(address, registers::SETTING_REG, None))
            && !ok,
    }
}

/// Whether, of the calls that `after` adds to `before`, none but the last
/// one failed: a call on the handle that meets this made no transaction
/// and no pause after a transaction that failed.
pub open spec fn stops_at_failure(before: Seq<Event>, after: Seq<Event>) -> bool {
    &&& before.len() <= after.len()
    &&& after.take(before.len() as int) == before
    &&& forall|i: int| before.len() <= i < after.len() - 1 ==> (#[trigger] after[i]).completed()
}

/// A register read is one transaction, and it gives a word exactly when the
/// transaction completed.
pub proof fn lemma_read_stops_at_failure(pre: DeviceView, post: DeviceView, register: u8)
    requires
        reads_register(pre, post, register),
    ensures
        post.events.len() == pre.events.len() + 1,
        stops_at_failure(pre.events, post.events),
        post.last_read() is Some <==> post.events.last().completed(),
{
    assert(post.events.take(pre.events.len() as int) =~= pre.events);
}

/// A field update makes no transaction after one that failed: it is a read
/// alone when the read failed, and a read and a write otherwise, and it
/// succeeds exactly when its last transaction completed.
pub proof fn lemma_field_update_stops_at_failure(
    before: Seq<Event>,
    after: Seq<Event>,
    address: u8,
    register: u8,
    offset: u16,
    width: u16,
    value: u16,
    ok: bool,
)
    requires
        field_update(before, after, address, register, offset, width, value, ok),
    ensures
        stops_at_failure(before, after),
        after.len() == before.len() + 1 || after.len() == before.len() + 2,
        after.len() == before.len() + 2 <==> after[before.len() as int].completed(),
        ok <==> after.last().completed(),
        ok ==> after.len() == before.len() + 2,
        forall|i: int| before.len() <= i < after.len() ==> !(#[trigger] after[i] is Pause),
{
    assert(after.take(before.len() as int) =~= before);
}

/// A change of the power state pauses exactly once, for the settle time and
/// as its last call, when it powers the chip on and the write completes; it
/// never pauses otherwise, where it is the update of the shutdown field and
/// nothing else. It makes no call after a transaction that failed.
pub proof fn lemma_power_update_pauses_once(
    before: Seq<Event>,
    after: Seq<Event>,
    address: u8,
    shutdown: Shutdown,
    ok: bool,
)
    requires
        power_update(before, after, address, shutdown, ok),
    ensures
        stops_at_failure(before, after),
        ok && shutdown == Shutdown::PowerOn ==> {
            let n = before.len() as int;
            &&& after.len() == n + 3
            &&& !(after[n] is Pause)
            &&& !(after[n + 1] is Pause)
            &&& after[n + 1].completed()
            &&& after[n + 2] == (Event::Pause { ms: POWER_ON_SETTLE_MS })
        },
        !(ok && shutdown == Shutdown::PowerOn) ==> {
            &&& forall|i: int| before.len() <= i < after.len() ==> !(#[trigger] after[i] is Pause)
            &&& field_update(
                before,
                after,
                address,
                registers::SETTING_REG,
                fields::SHUTDOWN_OFFSET,
                fields::SHUTDOWN_WIDTH,
                shutdown.bits(),
                ok,
            )
        },
        ok <==> after.len() >= before.len() + 2 && after[before.len() as int + 1].completed(),
{
    assert(after.take(before.len() as int) =~= before);
}

} // verus!
