//! The sequences of calls that the operations of the sensor make: the
//! startup sequence, the fetch of the settings for a conversion and the
//! measurement of ambient light.

use crate::i2c::bitfield::extract_field;
use crate::i2c::bitfield::splice_field;
use crate::i2c::constants::fields;
use crate::i2c::constants::registers;
use crate::i2c::constants::POWER_ON_SETTLE_MS;
use crate::i2c::settings::Gain;
use crate::i2c::settings::IntegrationTime;
use crate::i2c::settings::Shutdown;
use crate::i2c::trace::field_update;
use crate::i2c::trace::lemma_field_update_stops_at_failure;
use crate::i2c::trace::lemma_power_update_pauses_once;
use crate::i2c::trace::power_update;
use crate::i2c::trace::stops_at_failure;
use crate::i2c::trace::DeviceView;
use crate::i2c::wire::read_outcome;
use crate::i2c::wire::register_read;
use crate::i2c::wire::register_write;
use crate::transport::Event;
use crate::LightSensorError;
use vstd::prelude::*;

verus! {

/// Whether a call that took a sensor from `pre` to `post` went through the
/// startup sequence: power on, with the pause for the chip to settle, then
/// gain 1/4, then integration time 50 ms, each an update of one field of
/// the settings register. The sequence stops at the first transaction that
/// fails; `ok` tells whether all six completed.
pub open spec fn starts(pre: DeviceView, post: DeviceView, ok: bool) -> bool {
    let n = pre.events.len() as int;
    let powered = post.events.take(n + 3);
    let gained = post.events.take(n + 5);
    &&& post.address == pre.address
    &&& {
        ||| {
            &&& !ok
            &&& power_update(pre.events, post.events, pre.address, Shutdown::PowerOn, false)
        }
        ||| {
            &&& !ok
            &&& post.events.len() >= n + 3
            &&& power_update(pre.events, powered, pre.address, Shutdown::PowerOn, true)
            &&& gain_update(powered, post.events, pre.address, false)
        }
        ||| {
            &&& post.events.len() >= n + 5
            &&& power_update(pre.events, powered, pre.address, Shutdown::PowerOn, true)
            &&& gain_update(powered, gained, pre.address, true)
            &&& time_update(gained, post.events, pre.address, ok)
        }
    }
}

/// The second step of the startup sequence: the gain is set to 1/4.
pub open spec fn gain_update(
    before: Seq<Event>,
    after: Seq<Event>,
    address: u8,
    ok: bool,
) -> bool {
    field_update(
        before,
        after,
        address,
        registers::SETTING_REG,
        fields::GAIN_OFFSET,
        fields::GAIN_WIDTH,
        Gain::X1_4.bits(),
        ok,
    )
}

/// The third step of the startup sequence: the integration time is set to
/// 50 ms.
pub open spec fn time_update(
    before: Seq<Event>,
    after: Seq<Event>,
    address: u8,
    ok: bool,
) -> bool {
    field_update(
        before,
        after,
        address,
        registers::SETTING_REG,
        fields::INTEGRATION_TIME_OFFSET,
        fields::INTEGRATION_TIME_WIDTH,
        IntegrationTime::Ms50.bits(),
        ok,
    )
}

/// Whether `after` is `before` followed by the reads that fetch the settings
/// a conversion goes by: a read of the settings register for the gain and,
/// if that completed, a second one for the integration time.
pub open spec fn settings_trace(
    before: Seq<Event>,
    after: Seq<Event>,
    address: u8,
) -> bool {
    &&& after.len() > before.len()
    &&& match read_outcome(after[before.len() as int]) {
        Some(gain_state) => after == before.push(
            register_read(address, registers::SETTING_REG, Some(gain_state)),
        ).push(register_read(address, registers::SETTING_REG, read_outcome(after.last()))),
        None => after == before.push(register_read(address, registers::SETTING_REG, None)),
    }
}

/// The settings that the two transactions of `events` from index `start` on
/// returned: the gain from the first and the integration time from the
/// second. A read that failed gives an I/O error, an integration time field
/// that stands for no value a conversion error.
pub open spec fn settings_read(events: Seq<Event>, start: int) -> Result<
    (Gain, IntegrationTime),
    LightSensorError,
> {
    match read_outcome(events[start]) {
        Some(gain_state) => match read_outcome(events[start + 1]) {
            Some(time_state) => match (
                Gain::from_bits(extract_field(gain_state, fields::GAIN_OFFSET, fields::GAIN_WIDTH)),
                IntegrationTime::from_bits(
                    extract_field(
                        time_state,
                        fields::INTEGRATION_TIME_OFFSET,
                        fields::INTEGRATION_TIME_WIDTH,
                    ),
                ),
            ) {
                (Some(gain), Some(time)) => Ok((gain, time)),
                _ => Err(LightSensorError::ConversionError),
            },
            None => Err(LightSensorError::IOError),
        },
        None => Err(LightSensorError::IOError),
    }
}

/// Whether `after` is `before` followed by the transactions of one
/// measurement of ambient light: the reads of the settings and, if both
/// gave a value, a read of the ambient light output.
pub open spec fn measurement_trace(
    before: Seq<Event>,
    after: Seq<Event>,
    address: u8,
) -> bool {
    let n = before.len() as int;
    match settings_read(after, n) {
        Ok(_) => {
            &&& after.len() == n + 3
            &&& settings_trace(before, after.take(n + 2), address)
            &&& after == after.take(n + 2).push(
                register_read(
                    address,
                    registers::AMBIENT_LIGHT_DATA_REG,
                    read_outcome(after.last()),
                ),
            )
        },
        Err(_) => settings_trace(before, after, address),
    }
}

/// The seven calls of a startup that succeeds, for the three words that its
/// reads of the settings register return: each word is written back with
/// one field changed, and the pause follows the write that powers the chip
/// on.
pub open spec fn startup_events(address: u8, first: u16, second: u16, third: u16) -> Seq<Event> {
    seq![
        register_read(address, registers::SETTING_REG, Some(first)),
        register_write(
            address,
            registers::SETTING_REG,
            splice_field(
                first,
                fields::SHUTDOWN_OFFSET,
                fields::SHUTDOWN_WIDTH,
                Shutdown::PowerOn.bits(),
            ),
            true,
        ),
        Event::Pause { ms: POWER_ON_SETTLE_MS },
        register_read(address, registers::SETTING_REG, Some(second)),
        register_write(
            address,
            registers::SETTING_REG,
            splice_field(second, fields::GAIN_OFFSET, fields::GAIN_WIDTH, Gain::X1_4.bits()),
            true,
        ),
        register_read(address, registers::SETTING_REG, Some(third)),
        register_write(
            address,
            registers::SETTING_REG,
            splice_field(
                third,
                fields::INTEGRATION_TIME_OFFSET,
                fields::INTEGRATION_TIME_WIDTH,
                IntegrationTime::Ms50.bits(),
            ),
            true,
        ),
    ]
}

/// Whether a call that took a sensor from `pre` to `post` made exactly the
/// seven calls of a startup that succeeds, in their order, for the words
/// that its three reads returned.
pub open spec fn started(pre: DeviceView, post: DeviceView) -> bool {
    let n = pre.events.len() as int;
    &&& post.address == pre.address
    &&& post.events.len() == n + 7
    &&& read_outcome(post.events[n]) is Some
    &&& read_outcome(post.events[n + 3]) is Some
    &&& read_outcome(post.events[n + 5]) is Some
    &&& post.events == pre.events + startup_events(
        pre.address,
        read_outcome(post.events[n]).unwrap(),
        read_outcome(post.events[n + 3]).unwrap(),
        read_outcome(post.events[n + 5]).unwrap(),
    )
}

/// A startup that succeeds has made the seven calls of `startup_events`.
pub proof fn lemma_start_succeeded(pre: DeviceView, post: DeviceView)
    requires
        starts(pre, post, true),
    ensures
        started(pre, post),
{
    let n = pre.events.len() as int;
    let powered = post.events.take(n + 3);
    let gained = post.events.take(n + 5);
    assert(powered[n] == post.events[n]);
    assert(powered[n + 1] == post.events[n + 1]);
    assert(powered[n + 2] == post.events[n + 2]);
    assert(gained[n + 3] == post.events[n + 3]);
    assert(gained[n + 4] == post.events[n + 4]);
    let first = read_outcome(post.events[n]).unwrap();
    let second = read_outcome(post.events[n + 3]).unwrap();
    let third = read_outcome(post.events[n + 5]).unwrap();
    let expected = pre.events + startup_events(pre.address, first, second, third);
    assert(post.events.len() == n + 7);
    assert forall|i: int| 0 <= i < n + 7 implies post.events[i] == expected[i] by {
        if i < n {
            assert(powered[i] == pre.events[i]);
            assert(post.events[i] == powered[i]);
        }
    }
    assert(post.events =~= expected);
}

/// The startup sequence makes no call after a transaction that failed. It
/// succeeds exactly when it has made all seven calls, six transactions and
/// the pause after the second, and the last transaction completed.
pub proof fn lemma_start_stops_at_failure(pre: DeviceView, post: DeviceView, ok: bool)
    requires
        starts(pre, post, ok),
    ensures
        stops_at_failure(pre.events, post.events),
        post.events.len() <= pre.events.len() + 7,
        ok <==> post.events.len() == pre.events.len() + 7 && post.events.last().completed(),
        post.events.len() >= pre.events.len() + 3 ==> post.events[pre.events.len() as int + 2]
            == (Event::Pause { ms: POWER_ON_SETTLE_MS }),
        forall|i: int|
            pre.events.len() <= i < post.events.len() && i != pre.events.len() + 2 ==> !(
            #[trigger] post.events[i] is Pause),
{
    let n = pre.events.len() as int;
    let powered = post.events.take(n + 3);
    let gained = post.events.take(n + 5);
    let a = pre.address;
    if power_update(pre.events, post.events, a, Shutdown::PowerOn, false) {
        lemma_power_update_pauses_once(pre.events, post.events, a, Shutdown::PowerOn, false);
    } else {
        lemma_power_update_pauses_once(pre.events, powered, a, Shutdown::PowerOn, true);
        assert(post.events.take(n) =~= powered.take(n));
        if gain_update(powered, post.events, a, false) {
            lemma_field_update_stops_at_failure(
                powered,
                post.events,
                a,
                registers::SETTING_REG,
                fields::GAIN_OFFSET,
                fields::GAIN_WIDTH,
                Gain::X1_4.bits(),
                false,
            );
        } else {
            lemma_field_update_stops_at_failure(
                powered,
                gained,
                a,
                registers::SETTING_REG,
                fields::GAIN_OFFSET,
                fields::GAIN_WIDTH,
                Gain::X1_4.bits(),
                true,
            );
            lemma_field_update_stops_at_failure(
                gained,
                post.events,
                a,
                registers::SETTING_REG,
                fields::INTEGRATION_TIME_OFFSET,
                fields::INTEGRATION_TIME_WIDTH,
                IntegrationTime::Ms50.bits(),
                ok,
            );
        }
    }
    assert forall|i: int| n <= i < post.events.len() implies {
        &&& i < post.events.len() - 1 ==> (#[trigger] post.events[i]).completed()
        &&& i != n + 2 ==> !(post.events[i] is Pause)
        &&& i == n + 2 ==> post.events[i] == (Event::Pause { ms: POWER_ON_SETTLE_MS })
    } by {
        if i < n + 3 && post.events.len() >= n + 3 {
            assert(post.events[i] == powered[i]);
        } else if i < n + 5 && post.events.len() >= n + 5 {
            assert(post.events[i] == gained[i]);
        }
    }
}

/// The fetch of the settings makes no transaction after one that failed: it
/// is one read when the first failed and two reads otherwise, and it gives
/// an I/O error exactly when its last read failed.
pub proof fn lemma_settings_stop_at_failure(
    before: Seq<Event>,
    after: Seq<Event>,
    address: u8,
)
    requires
        settings_trace(before, after, address),
    ensures
        stops_at_failure(before, after),
        after.len() == before.len() + 1 || after.len() == before.len() + 2,
        after.len() == before.len() + 2 <==> after[before.len() as int].completed(),
        settings_read(after, before.len() as int) == Err::<
            (Gain, IntegrationTime),
            LightSensorError,
        >(LightSensorError::IOError) <==> !after.last().completed(),
{
    assert(after.take(before.len() as int) =~= before);
}

/// A measurement makes no transaction after one that failed, nor after a
/// read of the settings that gave no valid integration time.
pub proof fn lemma_measurement_stops_at_failure(
    before: Seq<Event>,
    after: Seq<Event>,
    address: u8,
)
    requires
        measurement_trace(before, after, address),
    ensures
        stops_at_failure(before, after),
        after.len() <= before.len() + 3,
        after.len() == before.len() + 3 <==> settings_read(after, before.len() as int) is Ok,
        settings_read(after, before.len() as int) == Err::<
            (Gain, IntegrationTime),
            LightSensorError,
        >(LightSensorError::IOError) ==> !after.last().completed(),
{
    let n = before.len() as int;
    assert(after.take(n) =~= before);
    if settings_read(after, n) is Ok {
        assert(after.take(n + 2)[n] == after[n]);
        assert(after.take(n + 2)[n + 1] == after[n + 1]);
    }
}

} // verus!
