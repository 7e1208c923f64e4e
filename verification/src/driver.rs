//! The TSL2591 driver: configuration state, the I2C transactions that each
//! operation performs, and the meaning of the replies.
use vstd::prelude::*;

use crate::bus::{spec_high_byte, spec_low_byte, spec_word, word_from_le_bytes, BusOp};
use crate::error::{check_bus, first_bus_error};
pub use crate::error::Tsl2591Error;
use crate::registers::{
    Gain, IntegrationTime, Persist, Register, TSL2591_CLEAR_INT, TSL2591_COMMAND_BIT,
    TSL2591_DEVICE_ID, TSL2591_ENABLE_AEN, TSL2591_ENABLE_AIEN, TSL2591_ENABLE_NPIEN,
    TSL2591_ENABLE_POWEROFF, TSL2591_ENABLE_POWERON,
};

verus! {

/// Channel number of the full spectrum (visible + IR) reading.
pub const TSL2591_FULLSPECTRUM: u8 = 0;

/// Channel number of the infrared reading.
pub const TSL2591_INFRARED: u8 = 1;

/// Channel number of the visible light reading (full spectrum - IR).
pub const TSL2591_VISIBLE: u8 = 2;

/// Time, in milliseconds, waited per integration step for the ADC to complete.
pub const TSL2591_ADC_STEP_MS: u32 = 120;

/// Channel selection for reading specific light components
#[derive(Debug, Clone, Copy, PartialEq, Eq)]
pub enum Channel {
    /// Channel 0 - Full spectrum (visible + IR)
    FullSpectrum,
    /// Channel 1 - Infrared only
    Infrared,
    /// Calculated visible light (Full spectrum - IR)
    Visible,
}

impl Channel {
    /// The channel number that [`AdafruitTSL2591::get_luminosity`] takes.
    pub open spec fn spec_code(self) -> u8 {
        match self {
            Channel::FullSpectrum => TSL2591_FULLSPECTRUM,
            Channel::Infrared => TSL2591_INFRARED,
            Channel::Visible => TSL2591_VISIBLE,
        }
    }

    /// The channel number that [`AdafruitTSL2591::get_luminosity`] takes.
    #[verifier::when_used_as_spec(spec_code)]
    pub fn code(self) -> (c: u8)
        ensures
            c == self.spec_code(),
    {
        match self {
            Channel::FullSpectrum => TSL2591_FULLSPECTRUM,
            Channel::Infrared => TSL2591_INFRARED,
            Channel::Visible => TSL2591_VISIBLE,
        }
    }
}

/// Type of physical sensor
#[derive(Debug, Clone, Copy, PartialEq, Eq)]
pub enum SensorType {
    /// Light sensor (measures illuminance in lux)
    Light,
}

/// The unsaturated channel counts of a measurement, with the integration time
/// and gain factor that turn them into an illuminance.
#[derive(Debug, Clone, Copy, PartialEq, Eq)]
pub struct RawReading {
    /// Raw full spectrum value (channel 0: visible + infrared)
    pub full_spectrum: u16,
    /// Raw infrared value (channel 1: infrared only)
    pub infrared: u16,
    /// Integration time in milliseconds
    pub atime_ms: u32,
    /// Gain factor
    pub again: u32,
}

/// The configuration that the driver keeps.
pub struct SensorConfig {
    /// Sensor identifier (user-assignable)
    pub sensor_id: i32,
    /// Integration time setting
    pub integration: IntegrationTime,
    /// Gain setting
    pub gain: Gain,
    /// I2C address of the sensor
    pub addr: u8,
    /// Whether the sensor has been successfully initialized
    pub initialized: bool,
}

/// Main driver structure for the TSL2591 light sensor
///
/// This struct holds the I2C bus, the delay provider and the sensor
/// configuration.
pub struct AdafruitTSL2591<I2C, D> {
    /// I2C bus instance
    i2c: I2C,
    /// Delay provider for timing
    delay: D,
    /// Sensor identifier (user-assignable)
    sensor_id: i32,
    /// Integration time setting
    integration: IntegrationTime,
    /// Gain setting
    gain: Gain,
    /// I2C address of the sensor (default 0x29)
    addr: u8,
    /// Whether the sensor has been successfully initialized
    initialized: bool,
}

impl<I2C, D> View for AdafruitTSL2591<I2C, D> {
    type V = SensorConfig;

    closed spec fn view(&self) -> SensorConfig {
        SensorConfig {
            sensor_id: self.sensor_id,
            integration: self.integration,
            gain: self.gain,
            addr: self.addr,
            initialized: self.initialized,
        }
    }
}

// ---------------------------------------------------------------------------
// The transactions of each operation
// ---------------------------------------------------------------------------

/// The command byte of a normal access to `reg`.
pub open spec fn command(reg: Register) -> u8 {
    TSL2591_COMMAND_BIT | reg.spec_addr()
}

/// Powers the chip up with the ALS and its interrupts enabled.
pub open spec fn enable_op(addr: u8) -> BusOp {
    BusOp::Write {
        addr,
        command: command(Register::Enable),
        value: Some(
            TSL2591_ENABLE_POWERON | TSL2591_ENABLE_AEN | TSL2591_ENABLE_AIEN | TSL2591_ENABLE_NPIEN,
        ),
    }
}

/// Powers the chip down.
pub open spec fn disable_op(addr: u8) -> BusOp {
    BusOp::Write { addr, command: command(Register::Enable), value: Some(TSL2591_ENABLE_POWEROFF) }
}

/// Writes integration time and gain to the Control register.
pub open spec fn control_op(addr: u8, integration: IntegrationTime, gain: Gain) -> BusOp {
    BusOp::Write {
        addr,
        command: command(Register::Control),
        value: Some(integration.spec_bits() | gain.spec_bits()),
    }
}

/// Reads one byte starting at the register that `cmd` addresses.
pub open spec fn read8_op(addr: u8, cmd: u8) -> BusOp {
    BusOp::WriteRead { addr, command: cmd, len: 1 }
}

/// Reads two bytes starting at the register that `cmd` addresses.
pub open spec fn read16_op(addr: u8, cmd: u8) -> BusOp {
    BusOp::WriteRead { addr, command: cmd, len: 2 }
}

/// Writes a new control value, bracketed by power-up and power-down.
pub open spec fn config_ops(addr: u8, integration: IntegrationTime, gain: Gain) -> Seq<BusOp> {
    seq![enable_op(addr), control_op(addr, integration, gain), disable_op(addr)]
}

/// One pause of [`TSL2591_ADC_STEP_MS`] per integration step.
pub open spec fn adc_wait(integration: IntegrationTime) -> Seq<BusOp> {
    Seq::new(
        (integration.spec_bits() + 1) as nat,
        |k: int| BusOp::DelayMs { ms: TSL2591_ADC_STEP_MS },
    )
}

/// Powers up, waits for the ADC, reads both channels and powers down.
pub open spec fn full_luminosity_ops(addr: u8, integration: IntegrationTime) -> Seq<BusOp> {
    seq![enable_op(addr)] + adc_wait(integration) + seq![
        read16_op(addr, command(Register::Chan0Low)),
        read16_op(addr, command(Register::Chan1Low)),
        disable_op(addr),
    ]
}

/// Samples both channels twice.
pub open spec fn event_ops(addr: u8, integration: IntegrationTime) -> Seq<BusOp> {
    full_luminosity_ops(addr, integration) + full_luminosity_ops(addr, integration)
}

/// Reads the status register while the chip is powered.
pub open spec fn status_ops(addr: u8) -> Seq<BusOp> {
    seq![enable_op(addr), read8_op(addr, command(Register::DeviceStatus)), disable_op(addr)]
}

/// Writes the persistence filter and both ALS thresholds, low byte first,
/// while the chip is powered.
pub open spec fn interrupt_ops(addr: u8, lower: u16, upper: u16, persist: Persist) -> Seq<BusOp> {
    seq![
        enable_op(addr),
        BusOp::Write { addr, command: command(Register::PersistFilter), value: Some(persist.spec_bits()) },
        BusOp::Write { addr, command: command(Register::ThresholdAiltl), value: Some(spec_low_byte(lower)) },
        BusOp::Write { addr, command: command(Register::ThresholdAilth), value: Some(spec_high_byte(lower)) },
        BusOp::Write { addr, command: command(Register::ThresholdAihtl), value: Some(spec_low_byte(upper)) },
        BusOp::Write { addr, command: command(Register::ThresholdAihth), value: Some(spec_high_byte(upper)) },
        disable_op(addr),
    ]
}

/// Sends the special function that clears the ALS and no-persist interrupts,
/// while the chip is powered.
pub open spec fn clear_interrupt_ops(addr: u8) -> Seq<BusOp> {
    seq![enable_op(addr), BusOp::Write { addr, command: TSL2591_CLEAR_INT, value: None }, disable_op(addr)]
}

/// The transactions that `begin` performs once the device ID matched: it
/// writes the configuration twice (timing, then gain) and powers down.
pub open spec fn begin_ops(addr: u8, integration: IntegrationTime, gain: Gain) -> Seq<BusOp> {
    config_ops(addr, integration, gain) + config_ops(addr, integration, gain) + seq![disable_op(addr)]
}

// ---------------------------------------------------------------------------
// The meaning of the replies
// ---------------------------------------------------------------------------

/// The 32-bit luminosity packed from the four bytes that the two channel reads
/// return: channel 0 (full spectrum) in the low word, channel 1 (infrared) in
/// the high word.
pub open spec fn spec_luminosity(reply: Seq<u8>) -> nat {
    spec_word(reply[0], reply[1]) + 65536 * spec_word(reply[2], reply[3])
}

/// The full spectrum count in a packed luminosity.
pub open spec fn spec_full_of(lum: u32) -> nat {
    lum as nat % 65536
}

/// The infrared count in a packed luminosity.
pub open spec fn spec_infrared_of(lum: u32) -> nat {
    lum as nat / 65536
}

/// The value of `channel` in a packed luminosity; 0 for an unknown channel.
/// The visible count is the difference of the two channels, wrapped to 16
/// bits.
pub open spec fn spec_channel_value(lum: u32, channel: u8) -> int {
    if channel == TSL2591_FULLSPECTRUM {
        spec_full_of(lum) as int
    } else if channel == TSL2591_INFRARED {
        spec_infrared_of(lum) as int
    } else if channel == TSL2591_VISIBLE {
        (spec_full_of(lum) - spec_infrared_of(lum)) % 65536
    } else {
        0
    }
}

/// Whether either channel count is saturated.
pub open spec fn is_saturated(ch0: u16, ch1: u16) -> bool {
    ch0 == 0xFFFF || ch1 == 0xFFFF
}

/// Packs a full spectrum and an infrared count into one 32-bit value.
fn pack_luminosity(full: u16, infrared: u16) -> (lum: u32)
    ensures
        lum == full as nat + 65536 * (infrared as nat),
        spec_full_of(lum) == full,
        spec_infrared_of(lum) == infrared,
{
    let f: u32 = full as u32;
    let i: u32 = infrared as u32;
    let lum: u32 = f | (i << 16);
    assert(f | (i << 16) == f + 65536 * i) by (bit_vector)
        requires
            f < 0x10000,
            i < 0x10000,
    ;
    lum
}

/// The full spectrum count of a packed luminosity (its low word).
fn full_of(lum: u32) -> (full: u16)
    ensures
        full == spec_full_of(lum),
{
    let r: u16 = (lum & 0xFFFF) as u16;
    assert((lum & 0xFFFF) as u16 == lum % 65536) by (bit_vector);
    r
}

/// The infrared count of a packed luminosity (its high word).
fn infrared_of(lum: u32) -> (ir: u16)
    ensures
        ir == spec_infrared_of(lum),
{
    let r: u16 = (lum >> 16) as u16;
    assert((lum >> 16) as u16 == lum / 65536) by (bit_vector);
    r
}

impl<I2C, D> AdafruitTSL2591<I2C, D> {
    /// The I2C bus that the driver was built with.
    pub closed spec fn spec_i2c(&self) -> I2C {
        self.i2c
    }

    /// The delay provider that the driver was built with.
    pub closed spec fn spec_delay(&self) -> D {
        self.delay
    }

    /// Constructor of [`AdafruitTSL2591`]
    pub fn new(i2c: I2C, delay: D, integration: IntegrationTime, gain: Gain, addr: u8) -> (s: Self)
        ensures
            s@ == (SensorConfig { sensor_id: -1i32, integration, gain, addr, initialized: false }),
            s.spec_i2c() == i2c,
            s.spec_delay() == delay,
    {
        AdafruitTSL2591 { i2c, delay, sensor_id: -1, integration, gain, addr, initialized: false }
    }

    /// The I2C bus and the delay provider, for the executor that performs the
    /// driver's transactions.
    pub fn bus(&mut self) -> (parts: (&mut I2C, &mut D))
        ensures
            *parts.0 == old(self).spec_i2c(),
            *parts.1 == old(self).spec_delay(),
            final(self)@ == old(self)@,
            final(self).spec_i2c() == *final(parts.0),
            final(self).spec_delay() == *final(parts.1),
    {
        (&mut self.i2c, &mut self.delay)
    }
    /// The current gain setting.
    pub fn get_gain(&self) -> (g: Gain)
        ensures
            g == self@.gain,
    {
        self.gain
    }

    /// The current integration time setting.
    pub fn get_timing(&self) -> (t: IntegrationTime)
        ensures
            t == self@.integration,
    {
        self.integration
    }

    /// The I2C address of the sensor.
    pub fn get_addr(&self) -> (a: u8)
        ensures
            a == self@.addr,
    {
        self.addr
    }

    /// Sets the I2C address of the sensor; nothing is sent.
    pub fn set_addr(&mut self, addr: u8)
        ensures
            final(self)@ == (SensorConfig { addr, ..old(self)@ }),
            final(self).spec_i2c() == old(self).spec_i2c(),
            final(self).spec_delay() == old(self).spec_delay(),
    {
        self.addr = addr;
    }

    /// The user-assignable sensor identifier.
    pub fn sensor_id(&self) -> (id: i32)
        ensures
            id == self@.sensor_id,
    {
        self.sensor_id
    }

    /// Whether [`begin`](AdafruitTSL2591::begin) found a TSL2591.
    pub fn is_initialized(&self) -> (b: bool)
        ensures
            b == self@.initialized,
    {
        self.initialized
    }

    /// The write of `register` (a command byte), followed by
    /// `value_optional` when it holds a byte, to the sensor.
    pub fn write8(&self, register: u8, value_optional: Option<u8>) -> (op: BusOp)
        ensures
            op == (BusOp::Write { addr: self@.addr, command: register, value: value_optional }),
    {
        BusOp::Write { addr: self.addr, command: register, value: value_optional }
    }

    /// The read of one byte from `register` (a command byte); the byte that
    /// comes back is the register's value.
    pub fn read8(&self, register: u8) -> (op: BusOp)
        ensures
            op == read8_op(self@.addr, register),
    {
        BusOp::WriteRead { addr: self.addr, command: register, len: 1 }
    }

    /// The read of two bytes from `register` (a command byte); the value is
    /// [`word_from_le_bytes`] of the two bytes that come back.
    pub fn read16(&self, register: u8) -> (op: BusOp)
        ensures
            op == read16_op(self@.addr, register),
    {
        BusOp::WriteRead { addr: self.addr, command: register, len: 2 }
    }

    /// Enables the chip, so it's ready to take readings
    pub fn enable(&self) -> (op: BusOp)
        ensures
            op == enable_op(self@.addr),
    {
        self.write8(
            TSL2591_COMMAND_BIT | Register::Enable.addr(),
            Some(
                TSL2591_ENABLE_POWERON | TSL2591_ENABLE_AEN | TSL2591_ENABLE_AIEN
                    | TSL2591_ENABLE_NPIEN,
            ),
        )
    }

    /// Disables the chip, so it's in power down mode
    pub fn disable(&self) -> (op: BusOp)
        ensures
            op == disable_op(self@.addr),
    {
        self.write8(TSL2591_COMMAND_BIT | Register::Enable.addr(), Some(TSL2591_ENABLE_POWEROFF))
    }

    /// The write of the current integration time and gain to the Control
    /// register, bracketed by power-up and power-down.
    fn write_control(&self) -> (ops: Vec<BusOp>)
        ensures
            ops@ == config_ops(self@.addr, self@.integration, self@.gain),
    {
        let integration: u8 = self.integration.bits();
        let gain: u8 = self.gain.bits();
        let mut ops: Vec<BusOp> = Vec::new();
        ops.push(self.enable());
        ops.push(self.write8(TSL2591_COMMAND_BIT | Register::Control.addr(), Some(integration | gain)));
        ops.push(self.disable());
        ops
    }

    /// Sets the gain and returns the transactions that write it to the
    /// sensor.
    pub fn set_gain(&mut self, new_gain: Gain) -> (ops: Vec<BusOp>)
        ensures
            final(self)@ == (SensorConfig { gain: new_gain, ..old(self)@ }),
            final(self).spec_i2c() == old(self).spec_i2c(),
            final(self).spec_delay() == old(self).spec_delay(),
            ops@ == config_ops(old(self)@.addr, old(self)@.integration, new_gain),
    {
        self.gain = new_gain;
        self.write_control()
    }

    /// Sets the integration time and returns the transactions that write it
    /// to the sensor.
    pub fn set_timing(&mut self, new_integration: IntegrationTime) -> (ops: Vec<BusOp>)
        ensures
            final(self)@ == (SensorConfig { integration: new_integration, ..old(self)@ }),
            final(self).spec_i2c() == old(self).spec_i2c(),
            final(self).spec_delay() == old(self).spec_delay(),
            ops@ == config_ops(old(self)@.addr, new_integration, old(self)@.gain),
    {
        self.integration = new_integration;
        self.write_control()
    }
    /// The read of the DeviceID register with which
    /// [`begin`](AdafruitTSL2591::begin) probes for the chip.
    pub fn begin_probe(&self) -> (op: BusOp)
        ensures
            op == read8_op(self@.addr, command(Register::DeviceID)),
    {
        self.read8(TSL2591_COMMAND_BIT | Register::DeviceID.addr())
    }

    /// Setups the hardware once `id`, the byte that the
    /// [`begin_probe`](AdafruitTSL2591::begin_probe) read returned, has
    /// identified the chip.
    ///
    /// Fails with `InvalidDevice(id)`, changing nothing, unless `id` is the
    /// TSL2591's device ID; otherwise marks the driver initialized and returns
    /// the transactions that write the configuration and power the chip down.
    pub fn begin<E>(&mut self, id: u8) -> (r: Result<Vec<BusOp>, Tsl2591Error<E>>)
        ensures
            final(self).spec_i2c() == old(self).spec_i2c(),
            final(self).spec_delay() == old(self).spec_delay(),
            id != 0x50 ==> (r matches Err(Tsl2591Error::InvalidDevice(x)) && x == id),
            id != 0x50 ==> final(self)@ == old(self)@,
            id == 0x50 ==> (r matches Ok(ops) && ops@ == begin_ops(
                old(self)@.addr,
                old(self)@.integration,
                old(self)@.gain,
            )),
            id == 0x50 ==> final(self)@ == (SensorConfig {
                initialized: true,
                ..old(self)@
            }),
    {
        if id != TSL2591_DEVICE_ID {
            return Err(Tsl2591Error::InvalidDevice(id));
        }
        self.initialized = true;

        let integration = self.integration;
        let mut ops = self.set_timing(integration);

        let gain: Gain = self.gain;
        let mut more = self.set_gain(gain);
        ops.append(&mut more);

        ops.push(self.disable());
        Ok(ops)
    }

    /// [`begin`](AdafruitTSL2591::begin) with the outcomes of the bus calls
    /// of the [`begin_probe`](AdafruitTSL2591::begin_probe) read: fails with
    /// `I2c(e)`, changing nothing, when the read failed with `e`; otherwise
    /// does what `begin(id)` does.
    pub fn begin_checked<E>(&mut self, probe_outcomes: Vec<Result<(), E>>, id: u8) -> (r: Result<
        Vec<BusOp>,
        Tsl2591Error<E>,
    >)
        ensures
            final(self).spec_i2c() == old(self).spec_i2c(),
            final(self).spec_delay() == old(self).spec_delay(),
            first_bus_error(probe_outcomes@) matches Some(e) ==> r == Err::<
                Vec<BusOp>,
                Tsl2591Error<E>,
            >(Tsl2591Error::I2c(e)),
            !(first_bus_error(probe_outcomes@) is None) ==> final(self)@ == old(self)@,
            first_bus_error(probe_outcomes@) is None && id != 0x50 ==> (r matches Err(
                Tsl2591Error::InvalidDevice(x),
            ) && x == id),
            first_bus_error(probe_outcomes@) is None && id != 0x50 ==> final(self)@
                == old(self)@,
            first_bus_error(probe_outcomes@) is None && id == 0x50 ==> (r matches Ok(
                ops,
            ) && ops@ == begin_ops(old(self)@.addr, old(self)@.integration, old(self)@.gain)),
            first_bus_error(probe_outcomes@) is None && id == 0x50 ==> final(self)@
                == (SensorConfig { initialized: true, ..old(self)@ }),
    {
        match check_bus(probe_outcomes) {
            Err(e) => Err(e),
            Ok(()) => self.begin(id),
        }
    }

    /// Completes [`begin_checked`](AdafruitTSL2591::begin_checked) with the
    /// outcomes of the bus calls of the transactions that it returned: fails
    /// with `I2c(e)`, where `e` is the error of the first failed call, and
    /// marks the driver not initialized, exactly when a call failed;
    /// otherwise succeeds and changes nothing.
    pub fn begin_finish<E>(&mut self, write_outcomes: Vec<Result<(), E>>) -> (r: Result<(), Tsl2591Error<E>>)
        ensures
            final(self).spec_i2c() == old(self).spec_i2c(),
            final(self).spec_delay() == old(self).spec_delay(),
            r is Ok <==> forall|i: int|
                0 <= i < write_outcomes@.len() ==> (#[trigger] write_outcomes@[i]) is Ok,
            first_bus_error(write_outcomes@) matches Some(e) ==> r == Err::<(), Tsl2591Error<E>>(
                Tsl2591Error::I2c(e),
            ),
            first_bus_error(write_outcomes@) matches Some(e) ==> final(self)@ == (SensorConfig {
                initialized: false,
                ..old(self)@
            }),
            first_bus_error(write_outcomes@) is None ==> final(self)@ == old(self)@,
    {
        let r = check_bus(write_outcomes);
        if r.is_err() {
            self.initialized = false;
        }
        r
    }

    /// The transactions that read the raw data from both light channels:
    /// power-up, one pause of [`TSL2591_ADC_STEP_MS`] per integration step,
    /// the reads of channel 0 and channel 1, power-down.
    pub fn get_full_luminosity_ops(&self) -> (ops: Vec<BusOp>)
        ensures
            ops@ == full_luminosity_ops(self@.addr, self@.integration),
    {
        let mut ops: Vec<BusOp> = Vec::new();
        ops.push(self.enable());

        // Wait x ms for ADC to complete
        let cycles: u8 = self.integration.bits() + 1;
        let mut k: u8 = 0;
        while k < cycles
            invariant
                k <= cycles,
                cycles == self@.integration.spec_bits() + 1,
                ops@ == seq![enable_op(self@.addr)] + Seq::new(
                    k as nat,
                    |j: int| BusOp::DelayMs { ms: TSL2591_ADC_STEP_MS },
                ),
            decreases cycles - k,
        {
            ops.push(BusOp::DelayMs { ms: TSL2591_ADC_STEP_MS });
            k = k + 1;
        }

        ops.push(self.read16(TSL2591_COMMAND_BIT | Register::Chan0Low.addr()));
        ops.push(self.read16(TSL2591_COMMAND_BIT | Register::Chan1Low.addr()));
        ops.push(self.disable());
        assert(ops@ =~= full_luminosity_ops(self@.addr, self@.integration));
        ops
    }

    /// The 32-bit luminosity from `reply`, the four bytes that the reads of
    /// [`get_full_luminosity_ops`](AdafruitTSL2591::get_full_luminosity_ops)
    /// returned: the high word is IR, the low word is IR+Visible.
    pub fn get_full_luminosity(&self, reply: &[u8]) -> (lum: u32)
        requires
            reply@.len() == 4,
        ensures
            lum == spec_luminosity(reply@),
            spec_full_of(lum) == spec_word(reply@[0], reply@[1]),
            spec_infrared_of(lum) == spec_word(reply@[2], reply@[3]),
    {
        let full_spectrum: u16 = word_from_le_bytes(reply[0], reply[1]);
        let infrared: u16 = word_from_le_bytes(reply[2], reply[3]);
        pack_luminosity(full_spectrum, infrared)
    }

    /// The raw count of `channel` from `reply`, the four bytes that the reads
    /// of [`get_full_luminosity_ops`](AdafruitTSL2591::get_full_luminosity_ops)
    /// returned: channel 0 is IR+Visible, 1 is IR, 2 is Visible only
    /// (channel 0 minus channel 1, wrapped to 16 bits when IR exceeds
    /// IR+Visible); 0 for any other channel.
    pub fn get_luminosity(&self, reply: &[u8], channel: u8) -> (v: u16)
        requires
            reply@.len() == 4,
        ensures
            v == spec_channel_value(spec_luminosity(reply@) as u32, channel),
            channel == TSL2591_FULLSPECTRUM ==> v == spec_word(reply@[0], reply@[1]),
            channel == TSL2591_INFRARED ==> v == spec_word(reply@[2], reply@[3]),
            channel == TSL2591_VISIBLE ==> v == (spec_word(reply@[0], reply@[1]) - spec_word(
                reply@[2],
                reply@[3],
            )) % 65536,
            channel > TSL2591_VISIBLE ==> v == 0,
    {
        let full_luminosity: u32 = self.get_full_luminosity(reply);
        if channel == TSL2591_FULLSPECTRUM {
            full_of(full_luminosity)
        } else if channel == TSL2591_INFRARED {
            infrared_of(full_luminosity)
        } else if channel == TSL2591_VISIBLE {
            let full: u16 = full_of(full_luminosity);
            let infrared: u16 = infrared_of(full_luminosity);
            if infrared <= full {
                full - infrared
            } else {
                (0x1_0000u32 + full as u32 - infrared as u32) as u16
            }
        } else {
            0
        }
    }

    /// The transactions that set up the interrupt to go off when the light
    /// level is outside `lower_threshold`..`upper_threshold`, after `persist`
    /// consecutive out-of-range readings.
    pub fn register_interrupt(&self, lower_threshold: u16, upper_threshold: u16, persist: Persist) -> (ops: Vec<BusOp>)
        ensures
            ops@ == interrupt_ops(self@.addr, lower_threshold, upper_threshold, persist),
    {
        let lower_low: u8 = lower_threshold as u8;
        let lower_high: u8 = (lower_threshold >> 8) as u8;
        let upper_low: u8 = upper_threshold as u8;
        let upper_high: u8 = (upper_threshold >> 8) as u8;
        assert(lower_threshold as u8 == (lower_threshold % 256) as u8) by (bit_vector);
        assert((lower_threshold >> 8) as u8 == (lower_threshold / 256) as u8) by (bit_vector);
        assert(upper_threshold as u8 == (upper_threshold % 256) as u8) by (bit_vector);
        assert((upper_threshold >> 8) as u8 == (upper_threshold / 256) as u8) by (bit_vector);

        let mut ops: Vec<BusOp> = Vec::new();
        ops.push(self.enable());
        ops.push(self.write8(TSL2591_COMMAND_BIT | Register::PersistFilter.addr(), Some(persist.bits())));
        ops.push(self.write8(TSL2591_COMMAND_BIT | Register::ThresholdAiltl.addr(), Some(lower_low)));
        ops.push(self.write8(TSL2591_COMMAND_BIT | Register::ThresholdAilth.addr(), Some(lower_high)));
        ops.push(self.write8(TSL2591_COMMAND_BIT | Register::ThresholdAihtl.addr(), Some(upper_low)));
        ops.push(self.write8(TSL2591_COMMAND_BIT | Register::ThresholdAihth.addr(), Some(upper_high)));
        ops.push(self.disable());
        ops
    }

    /// The transactions that clear the ALS and no-persist interrupts.
    pub fn clear_interrupt(&self) -> (ops: Vec<BusOp>)
        ensures
            ops@ == clear_interrupt_ops(self@.addr),
    {
        let mut ops: Vec<BusOp> = Vec::new();
        ops.push(self.enable());
        ops.push(self.write8(TSL2591_CLEAR_INT, None));
        ops.push(self.disable());
        ops
    }

    /// The transactions that read the status register.
    pub fn get_status_ops(&self) -> (ops: Vec<BusOp>)
        ensures
            ops@ == status_ops(self@.addr),
    {
        let mut ops: Vec<BusOp> = Vec::new();
        ops.push(self.enable());
        ops.push(self.read8(TSL2591_COMMAND_BIT | Register::DeviceStatus.addr()));
        ops.push(self.disable());
        ops
    }

    /// The sensor status from `reply`, the byte that the read of
    /// [`get_status_ops`](AdafruitTSL2591::get_status_ops) returned. Bit 0 is
    /// ALS Valid. Bit 4 is ALS Interrupt. Bit 5 is No-persist Interrupt.
    pub fn get_status(&self, reply: &[u8]) -> (x: u8)
        requires
            reply@.len() == 1,
        ensures
            x == reply@[0],
    {
        reply[0]
    }

    /// The inputs of the illuminance formula for the channel counts `ch0`
    /// (IR+Visible) and `ch1` (IR): fails with `Overflow` exactly when either
    /// count is saturated.
    pub fn lux_inputs<E>(&self, ch0: u16, ch1: u16) -> (r: Result<RawReading, Tsl2591Error<E>>)
        ensures
            is_saturated(ch0, ch1) ==> r matches Err(Tsl2591Error::Overflow),
            !is_saturated(ch0, ch1) ==> (r matches Ok(reading) && reading == (RawReading {
                full_spectrum: ch0,
                infrared: ch1,
                atime_ms: self@.integration.spec_millis() as u32,
                again: self@.gain.spec_factor() as u32,
            })),
    {
        if (ch0 == 0xFFFF) || (ch1 == 0xFFFF) {
            return Err(Tsl2591Error::Overflow);
        }
        Ok(RawReading {
            full_spectrum: ch0,
            infrared: ch1,
            atime_ms: self.integration.millis(),
            again: self.gain.factor(),
        })
    }

    /// The transactions of a measurement: the channels are sampled twice,
    /// because early silicon has issues when there is a sudden jump in light
    /// levels.
    pub fn get_event_ops(&self) -> (ops: Vec<BusOp>)
        ensures
            ops@ == event_ops(self@.addr, self@.integration),
    {
        let mut ops = self.get_full_luminosity_ops();
        let mut second = self.get_full_luminosity_ops();
        ops.append(&mut second);
        ops
    }

    /// [`get_event`](AdafruitTSL2591::get_event) with the outcomes of the bus
    /// calls of [`get_event_ops`](AdafruitTSL2591::get_event_ops): fails with
    /// `I2c(e)`, where `e` is the error of the first failed call, when a call
    /// failed; otherwise decodes `reply` as `get_event` does.
    pub fn get_event_checked<E>(&self, outcomes: Vec<Result<(), E>>, reply: &[u8]) -> (r: Result<
        RawReading,
        Tsl2591Error<E>,
    >)
        requires
            reply@.len() == 8,
        ensures
            first_bus_error(outcomes@) matches Some(e) ==> r == Err::<
                RawReading,
                Tsl2591Error<E>,
            >(Tsl2591Error::I2c(e)),
            first_bus_error(outcomes@) is None && is_saturated(
                spec_word(reply@[4], reply@[5]) as u16,
                spec_word(reply@[6], reply@[7]) as u16,
            ) ==> r matches Err(Tsl2591Error::Overflow),
            first_bus_error(outcomes@) is None && !is_saturated(
                spec_word(reply@[4], reply@[5]) as u16,
                spec_word(reply@[6], reply@[7]) as u16,
            ) ==> (r matches Ok(reading) && reading == (RawReading {
                full_spectrum: spec_word(reply@[4], reply@[5]) as u16,
                infrared: spec_word(reply@[6], reply@[7]) as u16,
                atime_ms: self@.integration.spec_millis() as u32,
                again: self@.gain.spec_factor() as u32,
            })),
    {
        match check_bus(outcomes) {
            Err(e) => Err(e),
            Ok(()) => self.get_event(reply),
        }
    }

    /// The measurement from `reply`, the eight bytes that the reads of
    /// [`get_event_ops`](AdafruitTSL2591::get_event_ops) returned: the
    /// second sample counts. Fails with `Overflow` exactly when a channel of
    /// the second sample is saturated.
    pub fn get_event<E>(&self, reply: &[u8]) -> (r: Result<RawReading, Tsl2591Error<E>>)
        requires
            reply@.len() == 8,
        ensures
            is_saturated(spec_word(reply@[4], reply@[5]) as u16, spec_word(reply@[6], reply@[7]) as u16)
                ==> r matches Err(Tsl2591Error::Overflow),
            !is_saturated(spec_word(reply@[4], reply@[5]) as u16, spec_word(reply@[6], reply@[7]) as u16)
                ==> (r matches Ok(reading) && reading == (RawReading {
                full_spectrum: spec_word(reply@[4], reply@[5]) as u16,
                infrared: spec_word(reply@[6], reply@[7]) as u16,
                atime_ms: self@.integration.spec_millis() as u32,
                again: self@.gain.spec_factor() as u32,
            })),
    {
        let second: [u8; 4] = [reply[4], reply[5], reply[6], reply[7]];
        let lum: u32 = self.get_full_luminosity(&second);

        let ir: u16 = infrared_of(lum);
        let full: u16 = full_of(lum);

        self.lux_inputs(full, ir)
    }
}

} // verus!
