//! I2C transactions as values, and a model of the sensor's register file that
//! gives them a meaning.
//!
//! A [`BusOp`] is one call on the I2C bus or the delay provider. The driver
//! plans its work as sequences of them; an executor performs each in order and
//! hands back the bytes that the reads returned, in order.
use vstd::prelude::*;

verus! {

/// One transaction on the I2C bus, or a pause.
#[derive(Debug, Clone, Copy, PartialEq, Eq)]
pub enum BusOp {
    /// Write the command byte, followed by the data byte when there is one,
    /// to the device at `addr`.
    Write { addr: u8, command: u8, value: Option<u8> },
    /// Write the command byte to the device at `addr`, then read `len` bytes
    /// back from it in the same transaction.
    WriteRead { addr: u8, command: u8, len: usize },
    /// Wait for `ms` milliseconds.
    DelayMs { ms: u32 },
}

/// The 16-bit value whose little-endian bytes are `low` and `high`.
pub open spec fn spec_word(low: u8, high: u8) -> nat {
    low as nat + 256 * (high as nat)
}

/// Joins the two bytes of a little-endian 16-bit register pair.
pub fn word_from_le_bytes(low: u8, high: u8) -> (w: u16)
    ensures
        w == spec_word(low, high),
{
    let w: u16 = (high as u16) << 8 | (low as u16);
    assert(((high as u16) << 8 | (low as u16)) == low as u16 + 256 * (high as u16)) by (bit_vector);
    w
}

/// The low byte of a 16-bit value.
pub open spec fn spec_low_byte(w: u16) -> u8 {
    (w % 256) as u8
}

/// The high byte of a 16-bit value.
pub open spec fn spec_high_byte(w: u16) -> u8 {
    (w / 256) as u8
}

// ---------------------------------------------------------------------------
// The sensor's register file
// ---------------------------------------------------------------------------

/// The register that a command byte addresses (its ADDR/SF field, bits 4-0).
pub open spec fn command_register(command: u8) -> u8 {
    command & 0x1F
}

/// Whether a command byte selects a normal register access (CMD bit set,
/// TRANSACTION field `01`).
pub open spec fn is_normal_command(command: u8) -> bool {
    command & 0xE0 == 0xA0
}

/// The register file of the sensor at `addr` after `op`: a write of a data
/// byte with a normal command stores the byte in the addressed register;
/// nothing else changes a register.
pub open spec fn apply_op(regs: Map<u8, u8>, addr: u8, op: BusOp) -> Map<u8, u8> {
    match op {
        BusOp::Write { addr: a, command, value: Some(v) } => {
            if a == addr && is_normal_command(command) {
                regs.insert(command_register(command), v)
            } else {
                regs
            }
        },
        _ => regs,
    }
}

/// The register file of the sensor at `addr` after the operations `ops`,
/// performed in order.
pub open spec fn apply_ops(regs: Map<u8, u8>, addr: u8, ops: Seq<BusOp>) -> Map<u8, u8>
    decreases ops.len(),
{
    if ops.len() == 0 {
        regs
    } else {
        apply_op(apply_ops(regs, addr, ops.drop_last()), addr, ops.last())
    }
}

/// The bytes that the sensor returns for a read of `len` bytes starting at
/// register `reg`: the register address advances by one with each byte.
pub open spec fn read_reply(regs: Map<u8, u8>, reg: u8, len: nat) -> Seq<u8> {
    Seq::new(len, |i: int| regs[(reg + i) as u8])
}

/// The total time, in milliseconds, that the pauses among `ops` take.
pub open spec fn total_delay(ops: Seq<BusOp>) -> nat
    decreases ops.len(),
{
    if ops.len() == 0 {
        0
    } else {
        total_delay(ops.drop_last()) + match ops.last() {
            BusOp::DelayMs { ms } => ms as nat,
            _ => 0,
        }
    }
}

/// Whether every bus transaction among `ops` goes to the device at `addr`.
pub open spec fn all_addressed_to(ops: Seq<BusOp>, addr: u8) -> bool {
    forall|i: int|
        0 <= i < ops.len() ==> match #[trigger] ops[i] {
            BusOp::Write { addr: a, .. } => a == addr,
            BusOp::WriteRead { addr: a, .. } => a == addr,
            BusOp::DelayMs { .. } => true,
        }
}

/// Joining the two bytes of a 16-bit value (as `read16` does with the bytes
/// that `register_interrupt` splits a threshold into) gives the value back.
pub proof fn law_word_of_bytes(w: u16)
    ensures
        spec_word(spec_low_byte(w), spec_high_byte(w)) == w,
{
}

/// Splitting a joined pair of bytes gives the bytes back.
pub proof fn law_bytes_of_word(low: u8, high: u8)
    ensures
        spec_low_byte(spec_word(low, high) as u16) == low,
        spec_high_byte(spec_word(low, high) as u16) == high,
{
}

/// Performing `a` and then `b` leaves the register file that performing `a`
/// followed by `b` as one sequence leaves.
pub proof fn lemma_apply_ops_append(regs: Map<u8, u8>, addr: u8, a: Seq<BusOp>, b: Seq<BusOp>)
    ensures
        apply_ops(regs, addr, a + b) == apply_ops(apply_ops(regs, addr, a), addr, b),
    decreases b.len(),
{
    if b.len() == 0 {
        assert(a + b =~= a);
    } else {
        assert((a + b).drop_last() =~= a + b.drop_last());
        lemma_apply_ops_append(regs, addr, a, b.drop_last());
    }
}

/// The pauses of `a` followed by `b` add up.
pub proof fn lemma_total_delay_append(a: Seq<BusOp>, b: Seq<BusOp>)
    ensures
        total_delay(a + b) == total_delay(a) + total_delay(b),
    decreases b.len(),
{
    if b.len() == 0 {
        assert(a + b =~= a);
    } else {
        assert((a + b).drop_last() =~= a + b.drop_last());
        lemma_total_delay_append(a, b.drop_last());
    }
}

/// The bytes that the sensor at `addr`, holding the register file `regs`,
/// returns for `op`. A read that the sensor does not answer leaves the
/// executor's zero-filled buffer as it was.
pub open spec fn op_reply(regs: Map<u8, u8>, addr: u8, op: BusOp) -> Seq<u8> {
    match op {
        BusOp::WriteRead { addr: a, command, len } => {
            if a == addr && is_normal_command(command) {
                read_reply(regs, command_register(command), len as nat)
            } else {
                Seq::new(len as nat, |i: int| 0u8)
            }
        },
        _ => Seq::empty(),
    }
}

/// The bytes that the sensor at `addr`, starting from the register file
/// `regs`, returns for the reads among `ops`, in order.
pub open spec fn plan_reply(regs: Map<u8, u8>, addr: u8, ops: Seq<BusOp>) -> Seq<u8>
    decreases ops.len(),
{
    if ops.len() == 0 {
        Seq::empty()
    } else {
        plan_reply(regs, addr, ops.drop_last()) + op_reply(
            apply_ops(regs, addr, ops.drop_last()),
            addr,
            ops.last(),
        )
    }
}

/// The replies to `a` followed by `b` are the replies to `a`, then the
/// replies to `b` from the register file that `a` left.
pub proof fn lemma_plan_reply_append(regs: Map<u8, u8>, addr: u8, a: Seq<BusOp>, b: Seq<BusOp>)
    ensures
        plan_reply(regs, addr, a + b) == plan_reply(regs, addr, a) + plan_reply(
            apply_ops(regs, addr, a),
            addr,
            b,
        ),
    decreases b.len(),
{
    if b.len() == 0 {
        assert(a + b =~= a);
        assert(plan_reply(regs, addr, a) + Seq::<u8>::empty() =~= plan_reply(regs, addr, a));
    } else {
        assert((a + b).drop_last() =~= a + b.drop_last());
        lemma_plan_reply_append(regs, addr, a, b.drop_last());
        lemma_apply_ops_append(regs, addr, a, b.drop_last());
        assert(plan_reply(regs, addr, a + b) =~= plan_reply(regs, addr, a) + plan_reply(
            apply_ops(regs, addr, a),
            addr,
            b,
        ));
    }
}

/// Pauses neither change a register nor return bytes.
pub proof fn lemma_pauses_are_inert(regs: Map<u8, u8>, addr: u8, ops: Seq<BusOp>)
    requires
        forall|i: int| 0 <= i < ops.len() ==> (#[trigger] ops[i]) is DelayMs,
    ensures
        apply_ops(regs, addr, ops) == regs,
        plan_reply(regs, addr, ops) == Seq::<u8>::empty(),
    decreases ops.len(),
{
    if ops.len() > 0 {
        assert(ops.last() is DelayMs);
        lemma_pauses_are_inert(regs, addr, ops.drop_last());
        assert(plan_reply(regs, addr, ops) =~= Seq::<u8>::empty());
    }
}

} // verus!
