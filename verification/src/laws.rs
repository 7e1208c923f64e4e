//! What holds of the driver's operations as a whole, stated over the model of
//! the sensor's register file in [`crate::bus`].
use vstd::prelude::*;

use crate::bus::{
    all_addressed_to, apply_ops, command_register, is_normal_command, lemma_apply_ops_append,
    lemma_pauses_are_inert, lemma_plan_reply_append, lemma_total_delay_append,
    law_word_of_bytes, op_reply, plan_reply, spec_word, total_delay, BusOp,
};
use crate::driver::{
    adc_wait, begin_ops, clear_interrupt_ops, command, config_ops, disable_op, enable_op,
    event_ops, full_luminosity_ops, interrupt_ops, read16_op, spec_full_of, spec_infrared_of,
    read8_op, spec_channel_value, spec_luminosity, status_ops, Channel, TSL2591_ADC_STEP_MS,
};
use crate::registers::{
    Gain, IntegrationTime, Persist, Register,
};

verus! {

/// A normal command to a register addresses that register.
pub proof fn lemma_command(reg: Register)
    ensures
        is_normal_command(command(reg)),
        command_register(command(reg)) == reg.spec_addr(),
{
    let a = reg.spec_addr();
    assert(a < 32);
    assert(((0xA0u8 | a) & 0xE0u8) == 0xA0u8 && ((0xA0u8 | a) & 0x1Fu8) == a) by (bit_vector)
        requires
            a < 32u8,
    ;
}

/// The interrupt thresholds that `register_interrupt` writes are what a
/// 16-bit read of the threshold registers gives back afterwards, the
/// persistence filter holds the chosen setting, and the chip is left powered
/// down.
pub proof fn law_thresholds_read_back(
    regs: Map<u8, u8>,
    addr: u8,
    lower: u16,
    upper: u16,
    persist: Persist,
)
    ensures
        ({
            let r = apply_ops(regs, addr, interrupt_ops(addr, lower, upper, persist));
            &&& spec_word(r[0x04], r[0x05]) == lower
            &&& spec_word(r[0x06], r[0x07]) == upper
            &&& r[0x0C] == persist.spec_bits()
            &&& r[0x00] == 0x00
            &&& ({
                let low = op_reply(r, addr, read16_op(addr, command(Register::ThresholdAiltl)));
                let high = op_reply(r, addr, read16_op(addr, command(Register::ThresholdAihtl)));
                &&& low.len() == 2 && spec_word(low[0], low[1]) == lower
                &&& high.len() == 2 && spec_word(high[0], high[1]) == upper
            })
        }),
{
    let ops = interrupt_ops(addr, lower, upper, persist);
    lemma_command(Register::Enable);
    lemma_command(Register::PersistFilter);
    lemma_command(Register::ThresholdAiltl);
    lemma_command(Register::ThresholdAilth);
    lemma_command(Register::ThresholdAihtl);
    lemma_command(Register::ThresholdAihth);
    law_word_of_bytes(lower);
    law_word_of_bytes(upper);
    reveal_with_fuel(apply_ops, 8);
    assert(ops.drop_last() =~= seq![ops[0], ops[1], ops[2], ops[3], ops[4], ops[5]]);
    assert(ops.drop_last().drop_last() =~= seq![ops[0], ops[1], ops[2], ops[3], ops[4]]);
    assert(ops.drop_last().drop_last().drop_last() =~= seq![ops[0], ops[1], ops[2], ops[3]]);
    assert(ops.drop_last().drop_last().drop_last().drop_last() =~= seq![ops[0], ops[1], ops[2]]);
    assert(ops.drop_last().drop_last().drop_last().drop_last().drop_last() =~= seq![ops[0], ops[1]]);
    assert(ops.drop_last().drop_last().drop_last().drop_last().drop_last().drop_last() =~= seq![ops[0]]);
    assert(seq![ops[0]].drop_last() =~= Seq::<BusOp>::empty());
}

/// A sequence that ends with the power-down write leaves the chip powered
/// down.
proof fn lemma_ends_powered_down(regs: Map<u8, u8>, addr: u8, ops: Seq<BusOp>)
    requires
        ops.len() > 0,
        ops.last() == disable_op(addr),
    ensures
        apply_ops(regs, addr, ops)[0x00] == 0x00,
{
    lemma_command(Register::Enable);
}

/// Every operation of the driver that talks to the sensor leaves it powered
/// down: configuration (`set_gain`, `set_timing`), `begin`, the channel reads
/// (`get_full_luminosity`, `get_luminosity`, `get_event`), `get_status`,
/// `register_interrupt` and `clear_interrupt`.
pub proof fn law_operations_end_powered_down(
    regs: Map<u8, u8>,
    addr: u8,
    integration: IntegrationTime,
    gain: Gain,
    lower: u16,
    upper: u16,
    persist: Persist,
)
    ensures
        apply_ops(regs, addr, config_ops(addr, integration, gain))[0x00] == 0x00,
        apply_ops(regs, addr, begin_ops(addr, integration, gain))[0x00] == 0x00,
        apply_ops(regs, addr, full_luminosity_ops(addr, integration))[0x00]
            == 0x00,
        apply_ops(regs, addr, event_ops(addr, integration))[0x00] == 0x00,
        apply_ops(regs, addr, status_ops(addr))[0x00] == 0x00,
        apply_ops(regs, addr, interrupt_ops(addr, lower, upper, persist))[0x00]
            == 0x00,
        apply_ops(regs, addr, clear_interrupt_ops(addr))[0x00] == 0x00,
{
    lemma_ends_powered_down(regs, addr, config_ops(addr, integration, gain));
    lemma_ends_powered_down(regs, addr, begin_ops(addr, integration, gain));
    lemma_ends_powered_down(regs, addr, full_luminosity_ops(addr, integration));
    lemma_ends_powered_down(regs, addr, event_ops(addr, integration));
    lemma_ends_powered_down(regs, addr, status_ops(addr));
    lemma_ends_powered_down(regs, addr, interrupt_ops(addr, lower, upper, persist));
    lemma_ends_powered_down(regs, addr, clear_interrupt_ops(addr));
}

/// Writing the configuration (as `set_gain`, `set_timing` and `begin` do)
/// leaves the Control register holding the integration time in its ATIME
/// field (bits 2-0) and the gain in its AGAIN field (bits 5-4), so that each
/// can be read back from it.
pub proof fn law_control_register_holds_config(
    regs: Map<u8, u8>,
    addr: u8,
    integration: IntegrationTime,
    gain: Gain,
)
    ensures
        ({
            let r = apply_ops(regs, addr, config_ops(addr, integration, gain));
            let b = apply_ops(regs, addr, begin_ops(addr, integration, gain));
            &&& r[0x01] == integration.spec_bits() | gain.spec_bits()
            &&& r[0x01] & 0x07 == integration.spec_bits()
            &&& r[0x01] & 0x30 == gain.spec_bits()
            &&& b[0x01] == r[0x01]
        }),
{
    let ops = config_ops(addr, integration, gain);
    lemma_command(Register::Enable);
    lemma_command(Register::Control);
    reveal_with_fuel(apply_ops, 4);
    assert(ops.drop_last() =~= seq![ops[0], ops[1]]);
    assert(ops.drop_last().drop_last() =~= seq![ops[0]]);
    assert(seq![ops[0]].drop_last() =~= Seq::<BusOp>::empty());
    let i = integration.spec_bits();
    let g = gain.spec_bits();
    assert(i <= 5 && (g == 0 || g == 0x10 || g == 0x20 || g == 0x30));
    assert((i | g) & 0x07u8 == i && (i | g) & 0x30u8 == g) by (bit_vector)
        requires
            i <= 5u8,
            g == 0u8 || g == 0x10u8 || g == 0x20u8 || g == 0x30u8,
    ;
    // begin writes the configuration twice and powers down
    let c = config_ops(addr, integration, gain);
    let tail = seq![disable_op(addr)];
    lemma_apply_ops_append(regs, addr, c + c, tail);
    lemma_apply_ops_append(regs, addr, c, c);
    let r1 = apply_ops(regs, addr, c);
    assert(apply_ops(r1, addr, c)[0x01] == i | g) by {
        assert(c.drop_last() =~= seq![c[0], c[1]]);
        assert(c.drop_last().drop_last() =~= seq![c[0]]);
        assert(seq![c[0]].drop_last() =~= Seq::<BusOp>::empty());
    }
    assert(tail.drop_last() =~= Seq::<BusOp>::empty());
}

/// `get_full_luminosity` waits at least the integration time before it reads
/// the channels: one pause of 120 ms per 100 ms integration step.
pub proof fn law_adc_wait_covers_integration(addr: u8, integration: IntegrationTime)
    ensures
        total_delay(full_luminosity_ops(addr, integration)) == 120 * (
        integration.spec_bits() + 1),
        total_delay(full_luminosity_ops(addr, integration)) >= integration.spec_millis(),
{
    let w = adc_wait(integration);
    let head = seq![enable_op(addr)];
    let tail = seq![
        read16_op(addr, command(Register::Chan0Low)),
        read16_op(addr, command(Register::Chan1Low)),
        disable_op(addr),
    ];
    lemma_total_delay_append(head + w, tail);
    lemma_total_delay_append(head, w);
    lemma_adc_wait_total(integration, w.len());
    assert(w.take(w.len() as int) =~= w);
    assert(full_luminosity_ops(addr, integration) == head + w + tail);
    reveal_with_fuel(total_delay, 4);
    assert(head.drop_last() =~= Seq::<BusOp>::empty());
    assert(tail.drop_last() =~= seq![tail[0], tail[1]]);
    assert(tail.drop_last().drop_last() =~= seq![tail[0]]);
    assert(seq![tail[0]].drop_last() =~= Seq::<BusOp>::empty());
}

/// The first `n` pauses of the ADC wait add up to `n` steps.
proof fn lemma_adc_wait_total(integration: IntegrationTime, n: nat)
    requires
        n <= adc_wait(integration).len(),
    ensures
        total_delay(adc_wait(integration).take(n as int)) == TSL2591_ADC_STEP_MS * n,
    decreases n,
{
    let w = adc_wait(integration);
    if n > 0 {
        assert(w.take(n as int).drop_last() =~= w.take(n - 1));
        lemma_adc_wait_total(integration, (n - 1) as nat);
    } else {
        assert(w.take(0) =~= Seq::<BusOp>::empty());
    }
}

/// What one channel sample does: it returns the four channel registers, low
/// byte first, and touches only the Enable register, which it leaves powered
/// down.
proof fn lemma_full_luminosity_effect(regs: Map<u8, u8>, addr: u8, integration: IntegrationTime)
    ensures
        plan_reply(regs, addr, full_luminosity_ops(addr, integration)) == seq![
            regs[0x14],
            regs[0x15],
            regs[0x16],
            regs[0x17],
        ],
        apply_ops(regs, addr, full_luminosity_ops(addr, integration)) == regs.insert(
            0x00,
            enable_op(addr)->value->0,
        ).insert(0x00, 0x00),
{
    let w = adc_wait(integration);
    let head = seq![enable_op(addr)];
    let tail = seq![
        read16_op(addr, command(Register::Chan0Low)),
        read16_op(addr, command(Register::Chan1Low)),
        disable_op(addr),
    ];
    assert(full_luminosity_ops(addr, integration) == head + w + tail);
    lemma_command(Register::Enable);
    lemma_command(Register::Chan0Low);
    lemma_command(Register::Chan1Low);
    lemma_plan_reply_append(regs, addr, head + w, tail);
    lemma_plan_reply_append(regs, addr, head, w);
    lemma_apply_ops_append(regs, addr, head + w, tail);
    lemma_apply_ops_append(regs, addr, head, w);
    reveal_with_fuel(apply_ops, 4);
    reveal_with_fuel(plan_reply, 4);
    assert(head.drop_last() =~= Seq::<BusOp>::empty());
    let r0 = apply_ops(regs, addr, head);
    assert(r0 == regs.insert(0x00, enable_op(addr)->value->0));
    assert(plan_reply(regs, addr, head) =~= Seq::<u8>::empty());
    assert forall|i: int| 0 <= i < w.len() implies (#[trigger] w[i]) is DelayMs by {}
    lemma_pauses_are_inert(r0, addr, w);
    assert(tail.drop_last() =~= seq![tail[0], tail[1]]);
    assert(tail.drop_last().drop_last() =~= seq![tail[0]]);
    assert(seq![tail[0]].drop_last() =~= Seq::<BusOp>::empty());
    assert(plan_reply(r0, addr, seq![tail[0]]) =~= seq![regs[0x14], regs[0x15]]);
    assert(plan_reply(r0, addr, seq![tail[0], tail[1]]) =~= seq![regs[0x14], regs[0x15], regs[0x16], regs[0x17]]);
    assert(plan_reply(r0, addr, tail) =~= seq![regs[0x14], regs[0x15], regs[0x16], regs[0x17]]);
    assert(plan_reply(regs, addr, head + w) =~= Seq::<u8>::empty());
    assert(Seq::<u8>::empty() + seq![regs[0x14], regs[0x15], regs[0x16], regs[0x17]] =~= seq![regs[0x14], regs[0x15], regs[0x16], regs[0x17]]);
}

/// A channel sample reads back what the sensor's channel registers hold:
/// `get_full_luminosity` of the reply has the channel 0 count in its low
/// word and the channel 1 count in its high word, so that `get_luminosity`
/// gives the channel 0 count for the full spectrum and the channel 1 count
/// for infrared.
pub proof fn law_full_luminosity_reads_channels(
    regs: Map<u8, u8>,
    addr: u8,
    integration: IntegrationTime,
)
    ensures
        ({
            let reply = plan_reply(regs, addr, full_luminosity_ops(addr, integration));
            let ch0 = spec_word(regs[0x14], regs[0x15]);
            let ch1 = spec_word(regs[0x16], regs[0x17]);
            &&& reply.len() == 4
            &&& spec_luminosity(reply) < 0x1_0000_0000
            &&& spec_full_of(spec_luminosity(reply) as u32) == ch0
            &&& spec_infrared_of(spec_luminosity(reply) as u32) == ch1
        }),
{
    lemma_full_luminosity_effect(regs, addr, integration);
}

/// A measurement's second sample reads back what the sensor's channel
/// registers hold: bytes 4 to 7 of the reply to `get_event_ops`, which
/// `get_event` decodes, are the channel 0 and channel 1 registers, low byte
/// first.
pub proof fn law_event_reads_channels(regs: Map<u8, u8>, addr: u8, integration: IntegrationTime)
    ensures
        ({
            let reply = plan_reply(regs, addr, event_ops(addr, integration));
            &&& reply.len() == 8
            &&& reply[4] == regs[0x14]
            &&& reply[5] == regs[0x15]
            &&& reply[6] == regs[0x16]
            &&& reply[7] == regs[0x17]
        }),
{
    let f = full_luminosity_ops(addr, integration);
    lemma_full_luminosity_effect(regs, addr, integration);
    let r1 = apply_ops(regs, addr, f);
    lemma_full_luminosity_effect(r1, addr, integration);
    lemma_plan_reply_append(regs, addr, f, f);
}

/// `get_status` reads back the sensor's status register.
pub proof fn law_status_reads_status_register(regs: Map<u8, u8>, addr: u8)
    ensures
        plan_reply(regs, addr, status_ops(addr)) == seq![regs[0x13]],
{
    let ops = status_ops(addr);
    lemma_command(Register::Enable);
    lemma_command(Register::DeviceStatus);
    reveal_with_fuel(apply_ops, 4);
    reveal_with_fuel(plan_reply, 4);
    assert(ops.drop_last() =~= seq![ops[0], ops[1]]);
    assert(ops.drop_last().drop_last() =~= seq![ops[0]]);
    assert(seq![ops[0]].drop_last() =~= Seq::<BusOp>::empty());
    assert(plan_reply(regs, addr, seq![ops[0]]) =~= Seq::<u8>::empty());
    assert(plan_reply(regs, addr, seq![ops[0], ops[1]]) =~= seq![regs[0x13]]);
    assert(plan_reply(regs, addr, ops) =~= seq![regs[0x13]]);
}

/// The probe of `begin` reads back the sensor's DeviceID register, so that
/// `begin` succeeds exactly on a sensor whose DeviceID register holds the
/// TSL2591's ID.
pub proof fn law_begin_probe_reads_device_id(regs: Map<u8, u8>, addr: u8)
    ensures
        op_reply(regs, addr, read8_op(addr, command(Register::DeviceID))) == seq![
            regs[0x12],
        ],
{
    lemma_command(Register::DeviceID);
    assert(op_reply(regs, addr, read8_op(addr, command(Register::DeviceID))) =~= seq![regs[0x12]]);
}

/// Every transaction of every operation goes to the sensor's configured
/// address.
pub proof fn law_operations_address_the_sensor(
    addr: u8,
    integration: IntegrationTime,
    gain: Gain,
    lower: u16,
    upper: u16,
    persist: Persist,
)
    ensures
        all_addressed_to(config_ops(addr, integration, gain), addr),
        all_addressed_to(begin_ops(addr, integration, gain), addr),
        all_addressed_to(full_luminosity_ops(addr, integration), addr),
        all_addressed_to(event_ops(addr, integration), addr),
        all_addressed_to(status_ops(addr), addr),
        all_addressed_to(interrupt_ops(addr, lower, upper, persist), addr),
        all_addressed_to(clear_interrupt_ops(addr), addr),
        all_addressed_to(seq![read8_op(addr, command(Register::DeviceID))], addr),
{
    let f = full_luminosity_ops(addr, integration);
    assert(all_addressed_to(f, addr)) by {
        assert forall|i: int| 0 <= i < f.len() implies match #[trigger] f[i] {
            BusOp::Write { addr: a, .. } => a == addr,
            BusOp::WriteRead { addr: a, .. } => a == addr,
            BusOp::DelayMs { .. } => true,
        } by {
            let w = adc_wait(integration);
            if 1 <= i < 1 + w.len() {
                assert(f[i] == w[i - 1]);
            }
        }
    }
    let e = event_ops(addr, integration);
    assert(all_addressed_to(e, addr)) by {
        assert forall|i: int| 0 <= i < e.len() implies match #[trigger] e[i] {
            BusOp::Write { addr: a, .. } => a == addr,
            BusOp::WriteRead { addr: a, .. } => a == addr,
            BusOp::DelayMs { .. } => true,
        } by {
            if i < f.len() {
                assert(e[i] == f[i]);
            } else {
                assert(e[i] == f[i - f.len()]);
            }
        }
    }
    let c = config_ops(addr, integration, gain);
    let b = begin_ops(addr, integration, gain);
    assert(all_addressed_to(b, addr)) by {
        assert forall|i: int| 0 <= i < b.len() implies match #[trigger] b[i] {
            BusOp::Write { addr: a, .. } => a == addr,
            BusOp::WriteRead { addr: a, .. } => a == addr,
            BusOp::DelayMs { .. } => true,
        } by {
            if i < 3 {
                assert(b[i] == c[i]);
            } else if i < 6 {
                assert(b[i] == c[i - 3]);
            }
        }
    }
}

// ---------------------------------------------------------------------------
// The meaning of the configuration values, as the datasheet and the
// documentation of each setting give it
// ---------------------------------------------------------------------------

/// How many consecutive out-of-range values each persistence setting waits
/// for before it raises the interrupt, as its documentation says (0 for an
/// interrupt on every ALS cycle).
pub open spec fn documented_persist_count(persist: Persist) -> nat {
    match persist {
        Persist::Every => 0,
        Persist::Any => 1,
        Persist::Two => 2,
        Persist::Three => 3,
        Persist::Five => 5,
        Persist::Ten => 10,
        Persist::Fifteen => 15,
        Persist::Twenty => 20,
        Persist::TwentyFive => 25,
        Persist::Thirty => 30,
        Persist::ThirtyFive => 35,
        Persist::Forty => 40,
        Persist::FortyFive => 45,
        Persist::Fifty => 50,
        Persist::FiftyFive => 55,
        Persist::Sixty => 60,
    }
}

/// How many consecutive out-of-range values the chip waits for, per the
/// datasheet, when the persistence filter register holds `value`: 0 (every
/// cycle), 1, 2 and 3 for the values 0 to 3, then 5 more for each step from
/// 4 (5 values) to 15 (60 values).
pub open spec fn apers_count(value: u8) -> nat {
    if value <= 3 {
        value as nat
    } else {
        (5 * (value - 3)) as nat
    }
}

/// The amplification that each gain setting documents (1x, 25x, 428x,
/// 9876x).
pub open spec fn documented_gain_factor(gain: Gain) -> nat {
    match gain {
        Gain::Low => 1,
        Gain::Medium => 25,
        Gain::High => 428,
        Gain::Max => 9876,
    }
}

/// The amplification that the chip applies, per the datasheet, for the
/// value of the AGAIN field (bits 5-4) of its Control register.
pub open spec fn again_factor(field: u8) -> nat {
    if field == 0x00 {
        1
    } else if field == 0x10 {
        25
    } else if field == 0x20 {
        428
    } else if field == 0x30 {
        9876
    } else {
        0
    }
}

/// The integration period, in milliseconds, that each integration setting
/// documents.
pub open spec fn documented_millis(integration: IntegrationTime) -> nat {
    match integration {
        IntegrationTime::OneHundredMS => 100,
        IntegrationTime::TwoHundredMS => 200,
        IntegrationTime::ThreeHundredMS => 300,
        IntegrationTime::FourHundredMS => 400,
        IntegrationTime::FiveHundredMS => 500,
        IntegrationTime::SixHundredMS => 600,
    }
}

/// `register_interrupt` programs the persistence filter so that the chip
/// waits for exactly the number of consecutive out-of-range values that the
/// chosen setting documents: its second transaction writes the persistence
/// filter register (command 0xAC) with a value whose reserved bits 7-4 are
/// 0 and whose datasheet meaning is that count.
pub proof fn law_persist_filter_matches_documentation(
    regs: Map<u8, u8>,
    addr: u8,
    lower: u16,
    upper: u16,
    persist: Persist,
)
    ensures
        ({
            let ops = interrupt_ops(addr, lower, upper, persist);
            let r = apply_ops(regs, addr, ops);
            &&& ops[1] == (BusOp::Write { addr, command: 0xAC, value: Some(r[0x0C]) })
            &&& r[0x0C] < 16
            &&& apers_count(r[0x0C]) == documented_persist_count(persist)
        }),
{
    law_thresholds_read_back(regs, addr, lower, upper, persist);
    assert(command(Register::PersistFilter) == 0xAC) by {
        assert((0xA0u8 | 0x0Cu8) == 0xACu8) by (bit_vector);
    }
}

/// Writing the configuration (as `set_gain`, `set_timing` and `begin` do)
/// puts in the Control register's AGAIN field (bits 5-4) the code that makes
/// the chip amplify by the factor that the gain setting documents
/// (Low 0x00, Medium 0x10, High 0x20, Max 0x30), so that distinct gains
/// write distinct Control values; and the gain factor that `lux_inputs` and
/// `get_event` report is that documented factor.
pub proof fn law_gain_code_matches_documentation(
    regs: Map<u8, u8>,
    addr: u8,
    integration: IntegrationTime,
    gain: Gain,
)
    ensures
        ({
            let r = apply_ops(regs, addr, config_ops(addr, integration, gain));
            &&& again_factor(r[0x01] & 0x30) == documented_gain_factor(gain)
            &&& gain == Gain::Low ==> r[0x01] & 0x30 == 0x00
            &&& gain == Gain::Medium ==> r[0x01] & 0x30 == 0x10
            &&& gain == Gain::High ==> r[0x01] & 0x30 == 0x20
            &&& gain == Gain::Max ==> r[0x01] & 0x30 == 0x30
            &&& gain.spec_factor() == documented_gain_factor(gain)
        }),
        forall|g1: Gain, g2: Gain|
            g1 != g2 ==> #[trigger] apply_ops(regs, addr, config_ops(addr, integration, g1))[0x01]
                != #[trigger] apply_ops(regs, addr, config_ops(addr, integration, g2))[0x01],
{
    law_control_register_holds_config(regs, addr, integration, gain);
    assert forall|g1: Gain, g2: Gain|
        g1 != g2 implies #[trigger] apply_ops(regs, addr, config_ops(addr, integration, g1))[0x01]
            != #[trigger] apply_ops(regs, addr, config_ops(addr, integration, g2))[0x01] by {
        law_control_register_holds_config(regs, addr, integration, g1);
        law_control_register_holds_config(regs, addr, integration, g2);
    }
}

/// Writing the configuration puts in the Control register's ATIME field
/// (bits 2-0) the code whose integration period, 100 ms times (ATIME + 1)
/// per the datasheet, is the period that the integration setting documents;
/// and the integration time that `lux_inputs` and `get_event` report is that
/// documented period.
pub proof fn law_integration_code_matches_documentation(
    regs: Map<u8, u8>,
    addr: u8,
    integration: IntegrationTime,
    gain: Gain,
)
    ensures
        ({
            let r = apply_ops(regs, addr, config_ops(addr, integration, gain));
            &&& 100 * ((r[0x01] & 0x07) + 1) == documented_millis(integration)
            &&& integration.spec_millis() == documented_millis(integration)
        }),
{
    law_control_register_holds_config(regs, addr, integration, gain);
}

/// The channel numbers of [`Channel`] select what each channel names: for a
/// reply to the channel reads, `get_luminosity` gives the channel 0 count for
/// `Channel::FullSpectrum` (number 0), the channel 1 count for
/// `Channel::Infrared` (number 1), and their difference, wrapped to 16 bits,
/// for `Channel::Visible` (number 2).
pub proof fn law_channel_codes_select_channels(reply: Seq<u8>)
    requires
        reply.len() == 4,
    ensures
        Channel::FullSpectrum.spec_code() == 0,
        Channel::Infrared.spec_code() == 1,
        Channel::Visible.spec_code() == 2,
        spec_channel_value(spec_luminosity(reply) as u32, Channel::FullSpectrum.spec_code())
            == spec_word(reply[0], reply[1]),
        spec_channel_value(spec_luminosity(reply) as u32, Channel::Infrared.spec_code())
            == spec_word(reply[2], reply[3]),
        spec_channel_value(spec_luminosity(reply) as u32, Channel::Visible.spec_code()) == (
        spec_word(reply[0], reply[1]) - spec_word(reply[2], reply[3])) % 65536,
{
}

/// Powering up sets the Enable register to 0x93: PON (bit 0) powers the
/// oscillator, AEN (bit 1) starts the ALS, AIEN (bit 4) and NPIEN (bit 7)
/// enable the ALS and no-persist interrupts; powering down clears it to 0.
/// `clear_interrupt` sends the special function 0xE7 (CMD bit, TRANSACTION
/// `11`, SF `00111`: clear the ALS and no-persist interrupts) with no data,
/// which changes no register.
pub proof fn law_power_and_clear_commands(regs: Map<u8, u8>, addr: u8)
    ensures
        apply_ops(regs, addr, seq![enable_op(addr)])[0x00] == 0x93,
        apply_ops(regs, addr, seq![enable_op(addr), disable_op(addr)])[0x00] == 0x00,
        clear_interrupt_ops(addr)[1] == (BusOp::Write { addr, command: 0xE7, value: None }),
        apply_ops(regs, addr, seq![clear_interrupt_ops(addr)[1]]) == regs,
{
    lemma_command(Register::Enable);
    reveal_with_fuel(apply_ops, 3);
    assert(seq![enable_op(addr)].drop_last() =~= Seq::<BusOp>::empty());
    assert(seq![enable_op(addr), disable_op(addr)].drop_last() =~= seq![enable_op(addr)]);
    assert(seq![clear_interrupt_ops(addr)[1]].drop_last() =~= Seq::<BusOp>::empty());
    assert((0x01u8 | 0x02u8 | 0x10u8 | 0x80u8) == 0x93u8) by (bit_vector);
}

} // verus!
