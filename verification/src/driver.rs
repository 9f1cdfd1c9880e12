//! The protocol sequence: wake, command write, timed delays, fixed-size
//! read, validation, decoding.
//!
//! The driver owns one bus handle and one delay provider, both supplied by
//! the embedding application through the [`I2cBus`] and [`DelayProvider`]
//! traits. Each call to [`Am2320::read`] replays the whole transaction
//! sequence from the start; no state persists between calls.
//!
//! Both traits carry a ghost log of the calls made on the handle, so that
//! the driver's contract can pin the exact transaction sequence and tie
//! each error to the step that failed.

use vstd::prelude::*;

use crate::frame::Error;
use crate::frame::Measurement;
use crate::frame::decode_response;
use crate::frame::decode_spec;

verus! {

/// The device's fixed bus address.
pub const DEVICE_I2C_ADDR: u8 = 0x5C;

/// Microseconds to wait after the wake probe (at least 0.8 ms, at most
/// about 3 ms).
pub const WAKE_DELAY_US: u32 = 900;

/// Microseconds to wait after the read command (at least 1.5 ms).
pub const RESPONSE_DELAY_US: u32 = 1600;

/// One bus transaction, as the ghost log of an [`I2cBus`] records it.
pub enum Transaction {
    /// A write of `bytes` to the device at `address`; `ok` records whether
    /// the transport completed it.
    Write { address: u8, bytes: Seq<u8>, ok: bool },
    /// A read from the device at `address`; `data` is what the buffer held
    /// afterwards and `ok` records whether the transport completed it.
    Read { address: u8, data: Seq<u8>, ok: bool },
}

/// An addressed write/read capability over the two-wire bus, supplied by
/// the embedding application. Transport error detail is already collapsed
/// to `Err(())`; the driver classifies it by the step that failed.
///
/// The ghost `log` records every transaction made on the handle, oldest
/// first. An implementation must append each call's entry and nothing
/// else, and its `read` must leave the buffer's length unchanged, as
/// filling a caller-provided buffer does.
pub trait I2cBus {
    /// Ghost log of the transactions performed on this handle.
    spec fn log(&self) -> Seq<Transaction>;

    /// Writes `bytes` to the device at `address`.
    fn write(&mut self, address: u8, bytes: &Vec<u8>) -> (r: Result<(), ()>)
        ensures
            final(self).log() == old(self).log().push(
                (Transaction::Write { address, bytes: bytes@, ok: r is Ok }),
            ),
    ;

    /// Reads `buffer.len()` bytes from the device at `address` into
    /// `buffer`.
    fn read(&mut self, address: u8, buffer: &mut Vec<u8>) -> (r: Result<(), ()>)
        ensures
            final(buffer)@.len() == old(buffer)@.len(),
            final(self).log() == old(self).log().push(
                (Transaction::Read { address, data: final(buffer)@, ok: r is Ok }),
            ),
    ;
}

/// A blocking delay capability, supplied by the embedding application.
///
/// The ghost `log` records every requested pause, oldest first; an
/// implementation must append each call's count and nothing else.
pub trait DelayProvider {
    /// Ghost log of the microsecond counts this handle was asked to wait.
    spec fn log(&self) -> Seq<u32>;

    /// Blocks for at least `us` microseconds.
    fn delay_us(&mut self, us: u32)
        ensures
            final(self).log() == old(self).log().push(us),
    ;
}

/// The single wake-probe byte.
pub open spec fn wake_frame() -> Seq<u8> {
    seq![0x00u8]
}

/// The read-holding-registers command: four registers starting at
/// register `0x00` — two for humidity, two for temperature.
pub open spec fn command_frame() -> Seq<u8> {
    seq![0x03u8, 0x00u8, 0x04u8]
}

/// A log grew from `pre`: the old entries stand untouched at the front.
pub open spec fn extends<T>(pre: Seq<T>, post: Seq<T>) -> bool {
    pre.len() <= post.len() && post.subrange(0, pre.len() as int) == pre
}

/// The transaction is the wake probe: the single byte `0x00` written to
/// the device. Its outcome is left free — the sleeping device is expected
/// not to acknowledge it, and the driver never inspects the result.
pub open spec fn is_wake_probe(t: Transaction) -> bool {
    t matches Transaction::Write { address, bytes, ok: _ } && address == DEVICE_I2C_ADDR
        && bytes == wake_frame()
}

/// The command write to the device, with the given outcome.
pub open spec fn command_write(ok: bool) -> Transaction {
    Transaction::Write { address: DEVICE_I2C_ADDR, bytes: command_frame(), ok }
}

/// The transaction is a failed read of the 8-byte response frame.
pub open spec fn is_failed_response_read(t: Transaction) -> bool {
    t matches Transaction::Read { address, data, ok } && address == DEVICE_I2C_ADDR
        && data.len() == 8 && !ok
}

/// The transaction is a completed read of an 8-byte response frame whose
/// decoding yields `outcome`.
pub open spec fn is_delivered_response(t: Transaction, outcome: Result<Measurement, Error>) -> bool {
    t matches Transaction::Read { address, data, ok } && address == DEVICE_I2C_ADDR
        && data.len() == 8 && ok && decode_spec(data) == outcome
}

/// What one call to [`Am2320::read`] appends to the bus log, and how the
/// result classifies it. The wake probe always comes first, its outcome
/// free. `WriteError` is returned exactly when the command write failed,
/// and then nothing further is issued. Otherwise the 8-byte response read
/// follows: `ReadError` exactly when it failed, and otherwise the result
/// is exactly the decoding of the delivered frame.
pub open spec fn read_trace(trace: Seq<Transaction>, r: Result<Measurement, Error>) -> bool {
    &&& trace.len() >= 2
    &&& is_wake_probe(trace[0])
    &&& match r {
        Err(Error::WriteError) => {
            &&& trace.len() == 2
            &&& trace[1] == command_write(false)
        },
        Err(Error::ReadError) => {
            &&& trace.len() == 3
            &&& trace[1] == command_write(true)
            &&& is_failed_response_read(trace[2])
        },
        Err(Error::SensorError) => {
            &&& trace.len() == 3
            &&& trace[1] == command_write(true)
            &&& is_delivered_response(trace[2], Err(Error::SensorError))
        },
        Ok(m) => {
            &&& trace.len() == 3
            &&& trace[1] == command_write(true)
            &&& is_delivered_response(trace[2], Ok(m))
        },
    }
}

/// What one call to [`Am2320::read`] appends to the delay log: the wake
/// delay, then — unless the command write already failed — the response
/// delay.
pub open spec fn read_delays(delays: Seq<u32>, r: Result<Measurement, Error>) -> bool {
    if r == Err::<Measurement, Error>(Error::WriteError) {
        delays == seq![WAKE_DELAY_US]
    } else {
        delays == seq![WAKE_DELAY_US, RESPONSE_DELAY_US]
    }
}

/// The result of a call is a function of the transactions its collaborators
/// performed: two calls whose appended bus entries are identical return
/// identical results. No state persists between calls.
pub proof fn lemma_read_deterministic(
    trace1: Seq<Transaction>,
    trace2: Seq<Transaction>,
    r1: Result<Measurement, Error>,
    r2: Result<Measurement, Error>,
)
    requires
        read_trace(trace1, r1),
        read_trace(trace2, r2),
        trace1 == trace2,
    ensures
        r1 == r2,
{
}

/// The wake probe's outcome never propagates: two calls whose appended
/// bus entries agree on everything after the wake probe return identical
/// results, whether or not the device acknowledged the probe.
pub proof fn lemma_wake_outcome_irrelevant(
    trace1: Seq<Transaction>,
    trace2: Seq<Transaction>,
    r1: Result<Measurement, Error>,
    r2: Result<Measurement, Error>,
)
    requires
        read_trace(trace1, r1),
        read_trace(trace2, r2),
        trace1.skip(1) == trace2.skip(1),
    ensures
        r1 == r2,
{
    assert(trace1[1] == trace1.skip(1)[0]);
    assert(trace2[1] == trace2.skip(1)[0]);
    if trace1.len() == 3 {
        assert(trace1[2] == trace1.skip(1)[1]);
        assert(trace2[2] == trace2.skip(1)[1]);
    }
}

/// Sensor configuration
pub struct Am2320<I2C, Delay> {
    /// Bus master device to use to communicate with the sensor
    device: I2C,
    /// Delay device to be able to sleep in-between commands
    delay: Delay,
}

impl<I2C: I2cBus, Delay: DelayProvider> Am2320<I2C, Delay> {
    /// The ghost transaction log of the owned bus handle.
    pub closed spec fn bus_log(&self) -> Seq<Transaction> {
        self.device.log()
    }

    /// The ghost log of the owned delay provider.
    pub closed spec fn delay_log(&self) -> Seq<u32> {
        self.delay.log()
    }

    /// Create a AM2320 temperature sensor driver from a bus handle and a
    /// delay provider, taking ownership of both.
    pub fn new(device: I2C, delay: Delay) -> (r: Am2320<I2C, Delay>)
        ensures
            r.bus_log() == device.log(),
            r.delay_log() == delay.log(),
    {
        Am2320 { device, delay }
    }

    /// Reads one `Measurement` from the sensor.
    ///
    /// The operation is blocking and takes about 3 ms: the sensor sleeps
    /// between readings and has to be woken first, then needs time to
    /// prepare its response.
    ///
    /// The contract pins the whole sequence through the ghost logs: the
    /// wake probe (whose failure is expected and never propagates), the
    /// wake delay, the command write — `WriteError` exactly when it fails,
    /// with no read attempted — the response delay, and the 8-byte read —
    /// `ReadError` exactly when it fails. A delivered frame decodes as
    /// [`decode_spec`] says: `SensorError` on a bad header or checksum,
    /// its measurement otherwise.
    pub fn read(&mut self) -> (r: Result<Measurement, Error>)
        ensures
            extends(old(self).bus_log(), final(self).bus_log()),
            read_trace(
                final(self).bus_log().skip(old(self).bus_log().len() as int),
                r,
            ),
            extends(old(self).delay_log(), final(self).delay_log()),
            read_delays(
                final(self).delay_log().skip(old(self).delay_log().len() as int),
                r,
            ),
    {
        let ghost bus0 = self.device.log();
        let ghost delay0 = self.delay.log();

        // Wake the device: it sleeps between readings so as not to warm up
        // and skew the humidity reading. The device does not acknowledge
        // this write, so its outcome is discarded.
        let wake: Vec<u8> = vec![0x00];
        let _ = self.device.write(DEVICE_I2C_ADDR, &wake);
        self.delay.delay_us(WAKE_DELAY_US);
        proof {
            assert(wake@ =~= wake_frame());
        }

        // Read four holding registers starting at register 0x00: two for
        // humidity, two for temperature.
        let command: Vec<u8> = vec![0x03, 0x00, 0x04];
        let write_result = self.device.write(DEVICE_I2C_ADDR, &command);
        proof {
            assert(command@ =~= command_frame());
            assert(self.device.log().subrange(0, bus0.len() as int) =~= bus0);
        }
        match write_result {
            Ok(_) => {}
            Err(_) => {
                proof {
                    assert(self.device.log().skip(bus0.len() as int) =~= seq![
                        self.device.log()[bus0.len() as int],
                        command_write(false),
                    ]);
                    assert(self.delay.log().skip(delay0.len() as int) =~= seq![WAKE_DELAY_US]);
                    assert(self.delay.log().subrange(0, delay0.len() as int) =~= delay0);
                }
                return Err(Error::WriteError);
            }
        }
        self.delay.delay_us(RESPONSE_DELAY_US);

        // Read the 8-byte response frame: echoed function code, echoed
        // register count, humidity high/low, temperature high/low,
        // checksum low/high.
        let mut data: Vec<u8> = vec![0, 0, 0, 0, 0, 0, 0, 0];
        let read_result = self.device.read(DEVICE_I2C_ADDR, &mut data);
        proof {
            assert(self.device.log().skip(bus0.len() as int) =~= seq![
                self.device.log()[bus0.len() as int],
                command_write(true),
                self.device.log()[bus0.len() as int + 2],
            ]);
            assert(self.device.log().subrange(0, bus0.len() as int) =~= bus0);
            assert(self.delay.log().skip(delay0.len() as int) =~= seq![
                WAKE_DELAY_US,
                RESPONSE_DELAY_US,
            ]);
            assert(self.delay.log().subrange(0, delay0.len() as int) =~= delay0);
        }
        match read_result {
            Ok(_) => {}
            Err(_) => {
                return Err(Error::ReadError);
            }
        }

        decode_response(data.as_slice())
    }
}

} // verus!
