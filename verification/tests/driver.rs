use std::collections::HashMap;

use tsl2591_rs::bus::{word_from_le_bytes, BusOp};
use tsl2591_rs::error::check_bus;
use tsl2591_rs::driver::{
    AdafruitTSL2591, Channel, RawReading, SensorType, Tsl2591Error, TSL2591_ADC_STEP_MS,
    TSL2591_FULLSPECTRUM, TSL2591_INFRARED, TSL2591_VISIBLE,
};
use tsl2591_rs::registers::{
    Gain, IntegrationTime, Persist, Register, TSL2591_ADDR, TSL2591_CLEAR_INT,
    TSL2591_COMMAND_BIT,
};

type Sensor = AdafruitTSL2591<(), ()>;

fn sensor(integration: IntegrationTime, gain: Gain) -> Sensor {
    AdafruitTSL2591::new((), (), integration, gain, TSL2591_ADDR)
}

fn write(command: u8, value: u8) -> BusOp {
    BusOp::Write { addr: TSL2591_ADDR, command, value: Some(value) }
}

const ENABLE: BusOp = BusOp::Write { addr: 0x29, command: 0xA0, value: Some(0x93) };
const DISABLE: BusOp = BusOp::Write { addr: 0x29, command: 0xA0, value: Some(0x00) };

/// A register file that answers the driver's transactions as a TSL2591 does.
struct FakeChip {
    addr: u8,
    regs: HashMap<u8, u8>,
}

impl FakeChip {
    fn new(addr: u8) -> Self {
        FakeChip { addr, regs: HashMap::new() }
    }

    fn reg(&self, r: u8) -> u8 {
        *self.regs.get(&r).unwrap_or(&0)
    }

    fn run(&mut self, ops: &[BusOp]) -> Vec<u8> {
        let mut reply = Vec::new();
        for op in ops {
            match *op {
                BusOp::Write { addr, command, value: Some(v) } => {
                    if addr == self.addr && command & 0xE0 == 0xA0 {
                        self.regs.insert(command & 0x1F, v);
                    }
                }
                BusOp::Write { .. } => {}
                BusOp::WriteRead { addr, command, len } => {
                    for i in 0..len {
                        if addr == self.addr && command & 0xE0 == 0xA0 {
                            reply.push(self.reg((command & 0x1F).wrapping_add(i as u8)));
                        } else {
                            reply.push(0);
                        }
                    }
                }
                BusOp::DelayMs { .. } => {}
            }
        }
        reply
    }

    fn total_delay(ops: &[BusOp]) -> u32 {
        ops.iter()
            .map(|op| match op {
                BusOp::DelayMs { ms } => *ms,
                _ => 0,
            })
            .sum()
    }
}

#[test]
fn new_keeps_the_configuration() {
    let s = sensor(IntegrationTime::ThreeHundredMS, Gain::High);
    assert_eq!(s.get_gain(), Gain::High);
    assert_eq!(s.get_timing(), IntegrationTime::ThreeHundredMS);
    assert_eq!(s.get_addr(), 0x29);
    assert_eq!(s.sensor_id(), -1);
    assert!(!s.is_initialized());
}

#[test]
fn set_addr_changes_only_the_address() {
    let mut s = sensor(IntegrationTime::OneHundredMS, Gain::Medium);
    s.set_addr(0x30);
    assert_eq!(s.get_addr(), 0x30);
    assert_eq!(s.get_gain(), Gain::Medium);
    assert_eq!(s.enable(), BusOp::Write { addr: 0x30, command: 0xA0, value: Some(0x93) });
}

#[test]
fn register_values() {
    assert_eq!(Register::Enable.addr(), 0x00);
    assert_eq!(Register::Control.addr(), 0x01);
    assert_eq!(Register::ThresholdAiltl.addr(), 0x04);
    assert_eq!(Register::ThresholdNpainth.addr(), 0x0B);
    assert_eq!(Register::PersistFilter.addr(), 0x0C);
    assert_eq!(Register::PackagePID.addr(), 0x11);
    assert_eq!(Register::DeviceID.addr(), 0x12);
    assert_eq!(Register::DeviceStatus.addr(), 0x13);
    assert_eq!(Register::Chan1High.addr(), 0x17);
    assert_eq!(IntegrationTime::SixHundredMS.bits(), 0x05);
    assert_eq!(IntegrationTime::SixHundredMS.millis(), 600);
    assert_eq!(Gain::Max.bits(), 0x30);
    assert_eq!(Gain::Max.factor(), 9876);
    assert_eq!(Gain::High.factor(), 428);
    assert_eq!(Persist::Sixty.bits(), 0x0F);
    assert_eq!(Persist::Five.bits(), 0x04);
    assert_eq!(Channel::Visible.code(), 2);
    assert_eq!(SensorType::Light, SensorType::Light);
}

#[test]
fn write8_read8_read16() {
    let s = sensor(IntegrationTime::OneHundredMS, Gain::Low);
    assert_eq!(s.write8(0xA1, Some(0x05)), write(0xA1, 0x05));
    assert_eq!(s.write8(0xE7, None), BusOp::Write { addr: 0x29, command: 0xE7, value: None });
    assert_eq!(s.read8(0xB2), BusOp::WriteRead { addr: 0x29, command: 0xB2, len: 1 });
    assert_eq!(s.read16(0xB4), BusOp::WriteRead { addr: 0x29, command: 0xB4, len: 2 });
    assert_eq!(word_from_le_bytes(0xCD, 0xAB), 0xABCD);
    assert_eq!(word_from_le_bytes(0xFF, 0x00), 0x00FF);
}

#[test]
fn enable_and_disable() {
    let s = sensor(IntegrationTime::OneHundredMS, Gain::Low);
    assert_eq!(s.enable(), ENABLE);
    assert_eq!(s.disable(), DISABLE);
}

#[test]
fn set_gain_writes_control_register() {
    let mut s = sensor(IntegrationTime::TwoHundredMS, Gain::Low);
    let ops = s.set_gain(Gain::High);
    assert_eq!(ops, vec![ENABLE, write(0xA1, 0x21), DISABLE]);
    assert_eq!(s.get_gain(), Gain::High);
    assert_eq!(s.get_timing(), IntegrationTime::TwoHundredMS);
}

#[test]
fn set_timing_writes_control_register() {
    let mut s = sensor(IntegrationTime::TwoHundredMS, Gain::Max);
    let ops = s.set_timing(IntegrationTime::FiveHundredMS);
    assert_eq!(ops, vec![ENABLE, write(0xA1, 0x34), DISABLE]);
    assert_eq!(s.get_timing(), IntegrationTime::FiveHundredMS);
    assert_eq!(s.get_gain(), Gain::Max);
}

#[test]
fn begin_rejects_other_devices() {
    let mut s = sensor(IntegrationTime::OneHundredMS, Gain::Medium);
    assert_eq!(s.begin_probe(), BusOp::WriteRead { addr: 0x29, command: 0xB2, len: 1 });
    let r: Result<Vec<BusOp>, Tsl2591Error<()>> = s.begin(0x42);
    assert!(matches!(r, Err(Tsl2591Error::InvalidDevice(0x42))));
    assert!(!s.is_initialized());
}

#[test]
fn begin_configures_a_tsl2591() {
    let mut s = sensor(IntegrationTime::OneHundredMS, Gain::Medium);
    let r: Result<Vec<BusOp>, Tsl2591Error<()>> = s.begin(0x50);
    let ops = r.unwrap();
    let control = write(0xA1, 0x10);
    assert_eq!(ops, vec![ENABLE, control, DISABLE, ENABLE, control, DISABLE, DISABLE]);
    assert!(s.is_initialized());
}

#[test]
fn full_luminosity_ops_wait_per_step() {
    let s = sensor(IntegrationTime::ThreeHundredMS, Gain::Medium);
    let ops = s.get_full_luminosity_ops();
    let mut expected = vec![ENABLE];
    for _ in 0..3 {
        expected.push(BusOp::DelayMs { ms: 120 });
    }
    expected.push(BusOp::WriteRead { addr: 0x29, command: 0xB4, len: 2 });
    expected.push(BusOp::WriteRead { addr: 0x29, command: 0xB6, len: 2 });
    expected.push(DISABLE);
    assert_eq!(ops, expected);
}

#[test]
fn full_luminosity_packs_both_channels() {
    let s = sensor(IntegrationTime::OneHundredMS, Gain::Medium);
    assert_eq!(s.get_full_luminosity(&[0x34, 0x12, 0x78, 0x56]), 0x5678_1234);
    assert_eq!(s.get_full_luminosity(&[0xFF, 0xFF, 0xFF, 0xFF]), 0xFFFF_FFFF);
    assert_eq!(s.get_full_luminosity(&[0, 0, 0, 0]), 0);
}

#[test]
fn get_luminosity_selects_channel() {
    let s = sensor(IntegrationTime::OneHundredMS, Gain::Medium);
    let reply = [0xE8, 0x03, 0x2C, 0x01]; // full 1000, ir 300
    assert_eq!(s.get_luminosity(&reply, TSL2591_FULLSPECTRUM), 1000);
    assert_eq!(s.get_luminosity(&reply, TSL2591_INFRARED), 300);
    assert_eq!(s.get_luminosity(&reply, TSL2591_VISIBLE), 700);
    assert_eq!(s.get_luminosity(&reply, 3), 0);
    assert_eq!(s.get_luminosity(&reply, 255), 0);
    let dim = [0x2C, 0x01, 0xE8, 0x03]; // full 300, ir 1000
    assert_eq!(s.get_luminosity(&dim, TSL2591_VISIBLE), 64836);
    let edge = [0x00, 0x00, 0xFF, 0xFF]; // full 0, ir 65535
    assert_eq!(s.get_luminosity(&edge, TSL2591_VISIBLE), 1);
}

#[test]
fn check_bus_reports_first_failure() {
    let ok: Vec<Result<(), u8>> = vec![Ok(()), Ok(())];
    assert!(check_bus(ok).is_ok());
    let none: Vec<Result<(), u8>> = Vec::new();
    assert!(check_bus(none).is_ok());
    let failed: Vec<Result<(), u8>> = vec![Ok(()), Err(3), Ok(()), Err(4)];
    assert!(matches!(check_bus(failed), Err(Tsl2591Error::I2c(3))));
}

#[test]
fn register_interrupt_splits_thresholds() {
    let s = sensor(IntegrationTime::OneHundredMS, Gain::Medium);
    let ops = s.register_interrupt(0x1234, 0xABCD, Persist::Five);
    assert_eq!(
        ops,
        vec![
            ENABLE,
            write(0xAC, 0x04),
            write(0xA4, 0x34),
            write(0xA5, 0x12),
            write(0xA6, 0xCD),
            write(0xA7, 0xAB),
            DISABLE,
        ]
    );
}

#[test]
fn clear_interrupt_sends_special_function() {
    let s = sensor(IntegrationTime::OneHundredMS, Gain::Medium);
    let ops = s.clear_interrupt();
    assert_eq!(
        ops,
        vec![ENABLE, BusOp::Write { addr: 0x29, command: TSL2591_CLEAR_INT, value: None }, DISABLE]
    );
}

#[test]
fn get_status_reads_status_register() {
    let s = sensor(IntegrationTime::OneHundredMS, Gain::Medium);
    let ops = s.get_status_ops();
    assert_eq!(
        ops,
        vec![ENABLE, BusOp::WriteRead { addr: 0x29, command: 0xB3, len: 1 }, DISABLE]
    );
    assert_eq!(s.get_status(&[0x31]), 0x31);
}

#[test]
fn lux_inputs_reports_saturation() {
    let s = sensor(IntegrationTime::FourHundredMS, Gain::High);
    let r: Result<RawReading, Tsl2591Error<()>> = s.lux_inputs(0xFFFF, 10);
    assert!(matches!(r, Err(Tsl2591Error::Overflow)));
    let r: Result<RawReading, Tsl2591Error<()>> = s.lux_inputs(10, 0xFFFF);
    assert!(matches!(r, Err(Tsl2591Error::Overflow)));
    let r: Result<RawReading, Tsl2591Error<()>> = s.lux_inputs(0xFFFE, 7);
    assert_eq!(
        r.unwrap(),
        RawReading { full_spectrum: 0xFFFE, infrared: 7, atime_ms: 400, again: 428 }
    );
}

#[test]
fn get_event_uses_second_sample() {
    let s = sensor(IntegrationTime::OneHundredMS, Gain::Medium);
    let ops = s.get_event_ops();
    let mut expected = s.get_full_luminosity_ops();
    expected.extend(s.get_full_luminosity_ops());
    assert_eq!(ops, expected);

    let reply = [0xFF, 0xFF, 0xFF, 0xFF, 0xE8, 0x03, 0x2C, 0x01];
    let r: Result<RawReading, Tsl2591Error<()>> = s.get_event(&reply);
    assert_eq!(
        r.unwrap(),
        RawReading { full_spectrum: 1000, infrared: 300, atime_ms: 100, again: 25 }
    );

    let saturated = [0xE8, 0x03, 0x2C, 0x01, 0xFF, 0xFF, 0x2C, 0x01];
    let r: Result<RawReading, Tsl2591Error<()>> = s.get_event(&saturated);
    assert!(matches!(r, Err(Tsl2591Error::Overflow)));
}

// ---------------------------------------------------------------------------
// The laws on concrete values, against a register-file model of the chip
// ---------------------------------------------------------------------------

#[test]
fn thresholds_read_back_after_register_interrupt() {
    let s = sensor(IntegrationTime::OneHundredMS, Gain::Medium);
    let mut chip = FakeChip::new(0x29);
    chip.run(&s.register_interrupt(500, 40000, Persist::Thirty));
    let low = chip.run(&[s.read16(TSL2591_COMMAND_BIT | Register::ThresholdAiltl.addr())]);
    let high = chip.run(&[s.read16(TSL2591_COMMAND_BIT | Register::ThresholdAihtl.addr())]);
    assert_eq!(word_from_le_bytes(low[0], low[1]), 500);
    assert_eq!(word_from_le_bytes(high[0], high[1]), 40000);
    assert_eq!(chip.reg(0x0C), 0x09);
    assert_eq!(chip.reg(0x00), 0x00);
}

#[test]
fn control_register_holds_configuration() {
    let mut s = sensor(IntegrationTime::SixHundredMS, Gain::Low);
    let mut chip = FakeChip::new(0x29);
    chip.run(&s.set_gain(Gain::Max));
    assert_eq!(chip.reg(0x01), 0x35);
    assert_eq!(chip.reg(0x01) & 0x07, IntegrationTime::SixHundredMS.bits());
    assert_eq!(chip.reg(0x01) & 0x30, Gain::Max.bits());
    let r: Result<Vec<BusOp>, Tsl2591Error<()>> = s.begin(0x50);
    let mut other = FakeChip::new(0x29);
    other.run(&r.unwrap());
    assert_eq!(other.reg(0x01), 0x35);
}

#[test]
fn every_operation_ends_powered_down() {
    let mut s = sensor(IntegrationTime::TwoHundredMS, Gain::Medium);
    let plans = vec![
        s.get_full_luminosity_ops(),
        s.get_event_ops(),
        s.get_status_ops(),
        s.register_interrupt(1, 2, Persist::Any),
        s.clear_interrupt(),
        s.set_gain(Gain::High),
        s.set_timing(IntegrationTime::OneHundredMS),
    ];
    for plan in plans {
        let mut chip = FakeChip::new(0x29);
        chip.regs.insert(0x00, 0x93);
        chip.run(&plan);
        assert_eq!(chip.reg(0x00), 0x00);
        assert_eq!(plan.last(), Some(&DISABLE));
    }
}

#[test]
fn adc_wait_covers_integration() {
    for (t, ms) in [
        (IntegrationTime::OneHundredMS, 100),
        (IntegrationTime::ThreeHundredMS, 300),
        (IntegrationTime::SixHundredMS, 600),
    ] {
        let s = sensor(t, Gain::Low);
        let wait = FakeChip::total_delay(&s.get_full_luminosity_ops());
        assert_eq!(wait, TSL2591_ADC_STEP_MS * (t.bits() as u32 + 1));
        assert!(wait >= ms);
    }
}

#[test]
fn channel_reads_give_back_chip_registers() {
    let s = sensor(IntegrationTime::OneHundredMS, Gain::Medium);
    let mut chip = FakeChip::new(0x29);
    chip.regs.insert(0x14, 0x10);
    chip.regs.insert(0x15, 0x27);
    chip.regs.insert(0x16, 0xB8);
    chip.regs.insert(0x17, 0x0B);
    chip.regs.insert(0x13, 0x11);
    let reply = chip.run(&s.get_full_luminosity_ops());
    assert_eq!(reply, vec![0x10, 0x27, 0xB8, 0x0B]);
    assert_eq!(s.get_luminosity(&reply, TSL2591_FULLSPECTRUM), 10000);
    assert_eq!(s.get_luminosity(&reply, TSL2591_INFRARED), 3000);
    assert_eq!(s.get_luminosity(&reply, TSL2591_VISIBLE), 7000);
    let reply = chip.run(&s.get_event_ops());
    let r: Result<RawReading, Tsl2591Error<()>> = s.get_event(&reply);
    let reading = r.unwrap();
    assert_eq!(reading.full_spectrum, 10000);
    assert_eq!(reading.infrared, 3000);
    let status = chip.run(&s.get_status_ops());
    assert_eq!(s.get_status(&status), 0x11);
}

#[test]
fn begin_checked_reports_bus_failures() {
    let mut s = sensor(IntegrationTime::OneHundredMS, Gain::Medium);
    let r = s.begin_checked(vec![Err(7u8)], 0x50);
    assert!(matches!(r, Err(Tsl2591Error::I2c(7))));
    assert!(!s.is_initialized());
    let r = s.begin_checked(vec![Ok::<(), u8>(())], 0x51);
    assert!(matches!(r, Err(Tsl2591Error::InvalidDevice(0x51))));
    let ops = s.begin_checked(vec![Ok::<(), u8>(())], 0x50).unwrap();
    assert_eq!(ops.len(), 7);
    assert!(s.is_initialized());
    let mut writes: Vec<Result<(), u8>> = vec![Ok(()); 7];
    writes[3] = Err(9);
    writes[5] = Err(10);
    assert!(matches!(s.begin_finish(writes), Err(Tsl2591Error::I2c(9))));
    assert!(!s.is_initialized());
    let _ = s.begin_checked(vec![Ok::<(), u8>(())], 0x50).unwrap();
    let writes: Vec<Result<(), u8>> = vec![Ok(()); 7];
    assert!(s.begin_finish(writes).is_ok());
    assert!(s.is_initialized());
}

#[test]
fn get_event_checked_reports_bus_failures() {
    let s = sensor(IntegrationTime::OneHundredMS, Gain::Medium);
    let reply = [0, 0, 0, 0, 0xE8, 0x03, 0x2C, 0x01];
    let mut outcomes: Vec<Result<(), u8>> = vec![Ok(()); 10];
    assert_eq!(
        s.get_event_checked(outcomes.clone(), &reply).unwrap(),
        RawReading { full_spectrum: 1000, infrared: 300, atime_ms: 100, again: 25 }
    );
    outcomes[8] = Err(5);
    assert!(matches!(s.get_event_checked(outcomes, &reply), Err(Tsl2591Error::I2c(5))));
}

#[test]
fn begin_probe_reads_device_id() {
    let mut s = sensor(IntegrationTime::OneHundredMS, Gain::Medium);
    let mut chip = FakeChip::new(0x29);
    chip.regs.insert(0x12, 0x50);
    let id = chip.run(&[s.begin_probe()]);
    let r: Result<Vec<BusOp>, Tsl2591Error<()>> = s.begin(id[0]);
    assert!(r.is_ok());
}

#[test]
fn operations_address_the_sensor() {
    let mut s = sensor(IntegrationTime::OneHundredMS, Gain::Medium);
    s.set_addr(0x39);
    let mut all = s.get_event_ops();
    all.extend(s.get_status_ops());
    all.extend(s.register_interrupt(3, 4, Persist::Two));
    all.extend(s.clear_interrupt());
    all.push(s.begin_probe());
    for op in all {
        match op {
            BusOp::Write { addr, .. } | BusOp::WriteRead { addr, .. } => assert_eq!(addr, 0x39),
            BusOp::DelayMs { .. } => {}
        }
    }
}
