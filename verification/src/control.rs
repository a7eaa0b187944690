//! The layout of the engine's control register.
//!
//! Bits 0 and 1 hold the command, bits 2 to 4 the key vault slot that the
//! command writes to, and bit 5 the flag that tells that the flow is done.

use vstd::prelude::*;
use crate::register::{
    lemma_field_new, lemma_field_val, lemma_fields_apart, low_bits, Field, FieldValue,
    TryFromValue,
};

verus! {

/// The control register's value with the flow-done flag alone.
pub const FLOW_DONE_BIT: u32 = 0x20;

/// What the engine is told to do.
#[derive(Clone, Copy, Debug, PartialEq, Eq, Structural)]
pub enum Cmd {
    /// Nothing.
    Idle,
    /// Unscramble the unique device secret into the key vault.
    DeobfuscateUds,
    /// Unscramble the field entropy into the key vault.
    DeobfuscateFe,
    /// Clear the secrets.
    ClearSecrets,
}

impl Cmd {
    /// The bits that stand for this command.
    pub open spec fn spec_value(self) -> u32 {
        match self {
            Cmd::Idle => 0,
            Cmd::DeobfuscateUds => 1,
            Cmd::DeobfuscateFe => 2,
            Cmd::ClearSecrets => 3,
        }
    }

    /// The bits that stand for this command.
    #[verifier::when_used_as_spec(spec_value)]
    pub fn value(self) -> (v: u32)
        ensures
            v == self.spec_value(),
    {
        match self {
            Cmd::Idle => 0,
            Cmd::DeobfuscateUds => 1,
            Cmd::DeobfuscateFe => 2,
            Cmd::ClearSecrets => 3,
        }
    }
}

impl TryFromValue for Cmd {
    open spec fn spec_try_from_value(v: u32) -> Option<Cmd> {
        if v == 0 {
            Some(Cmd::Idle)
        } else if v == 1 {
            Some(Cmd::DeobfuscateUds)
        } else if v == 2 {
            Some(Cmd::DeobfuscateFe)
        } else if v == 3 {
            Some(Cmd::ClearSecrets)
        } else {
            None
        }
    }

    fn try_from_value(v: u32) -> (r: Option<Cmd>) {
        match v {
            0 => Some(Cmd::Idle),
            1 => Some(Cmd::DeobfuscateUds),
            2 => Some(Cmd::DeobfuscateFe),
            3 => Some(Cmd::ClearSecrets),
            _ => None,
        }
    }
}

/// The command bits of the control value `raw`.
pub open spec fn cmd_bits(raw: u32) -> u32 {
    raw & 0x3
}

/// The destination slot in the control value `raw`.
pub open spec fn dest_bits(raw: u32) -> u32 {
    (raw >> 2) & 0x7
}

/// Whether the flow-done flag is set in the control value `raw`.
pub open spec fn flow_done(raw: u32) -> bool {
    raw & FLOW_DONE_BIT != 0
}

/// The command that the control value `raw` holds.
pub open spec fn command_of(raw: u32) -> Cmd {
    let bits = cmd_bits(raw);
    if bits == 1 {
        Cmd::DeobfuscateUds
    } else if bits == 2 {
        Cmd::DeobfuscateFe
    } else if bits == 3 {
        Cmd::ClearSecrets
    } else {
        Cmd::Idle
    }
}

/// The control value that holds the command `cmd` for the slot `dest`, with
/// the flow-done flag clear. Bits of `dest` beyond the third are dropped.
pub open spec fn command_value(cmd: Cmd, dest: u32) -> u32 {
    cmd.spec_value() | ((dest & 0x7) << 2)
}

/// The command field: bits 0 and 1.
pub open spec fn cmd_field() -> Field {
    Field::spec_new(0, 2)
}

/// The field that holds the destination slot: bits 2 to 4.
pub open spec fn dest_field() -> Field {
    Field::spec_new(2, 3)
}

/// The flow-done flag: bit 5.
pub open spec fn flow_done_field() -> Field {
    Field::spec_new(5, 1)
}

/// The control register.
pub struct Control;

impl Control {
    /// The command field.
    pub fn cmd() -> (f: Field)
        ensures
            f == cmd_field(),
            f.wf(),
            f.spec_offset() == 0,
            f.spec_width() == 2,
            f.spec_mask_in_place() == 0x3,
            forall|raw: u32| #[trigger] f.spec_read(raw) == cmd_bits(raw),
    {
        let f = Field::new(0, 2).unwrap();
        proof {
            lemma_control_layout();
            assert forall|raw: u32| #[trigger] f.spec_read(raw) == cmd_bits(raw) by {
                lemma_control_fields_read(raw);
            }
        }
        f
    }

    /// The field that holds the destination slot.
    pub fn dest() -> (f: Field)
        ensures
            f == dest_field(),
            f.wf(),
            f.spec_offset() == 2,
            f.spec_width() == 3,
            f.spec_mask_in_place() == 0x1c,
            forall|raw: u32| #[trigger] f.spec_read(raw) == dest_bits(raw),
    {
        let f = Field::new(2, 3).unwrap();
        proof {
            lemma_control_layout();
            assert forall|raw: u32| #[trigger] f.spec_read(raw) == dest_bits(raw) by {
                lemma_control_fields_read(raw);
            }
        }
        f
    }

    /// The flow-done flag.
    pub fn flow_done() -> (f: Field)
        ensures
            f == flow_done_field(),
            f.wf(),
            f.spec_offset() == 5,
            f.spec_width() == 1,
            f.spec_mask_in_place() == FLOW_DONE_BIT,
            forall|raw: u32| #[trigger] f.spec_read(raw) != 0 <==> flow_done(raw),
    {
        let f = Field::new(5, 1).unwrap();
        proof {
            lemma_control_layout();
            assert forall|raw: u32| #[trigger] f.spec_read(raw) != 0 <==> flow_done(raw) by {
                lemma_control_fields_read(raw);
            }
        }
        f
    }

    /// The command field holding `cmd`.
    pub fn cmd_value(cmd: Cmd) -> (fv: FieldValue)
        ensures
            fv == cmd_field().spec_val(cmd.spec_value()),
            fv.wf(),
            fv.spec_mask() == 0x3,
            fv.spec_value() == cmd.spec_value(),
    {
        proof {
            lemma_control_field_values(cmd, 0);
        }
        Control::cmd().val(cmd.value())
    }

    /// The destination field holding `dest`. Bits of `dest` beyond the
    /// third are dropped.
    pub fn dest_value(dest: u32) -> (fv: FieldValue)
        ensures
            fv == dest_field().spec_val(dest),
            fv.wf(),
            fv.spec_mask() == 0x1c,
            fv.spec_value() == (dest & 0x7) << 2,
    {
        proof {
            lemma_control_field_values(Cmd::Idle, dest);
        }
        Control::dest().val(dest)
    }

    /// The flow-done flag, set.
    pub fn flow_done_set() -> (fv: FieldValue)
        ensures
            fv == flow_done_field().spec_val(1),
            fv.wf(),
            fv.spec_mask() == FLOW_DONE_BIT,
            fv.spec_value() == FLOW_DONE_BIT,
    {
        proof {
            lemma_control_field_values(Cmd::Idle, 0);
        }
        Control::flow_done().val(1)
    }

    /// The flow-done flag, clear.
    pub fn flow_done_clear() -> (fv: FieldValue)
        ensures
            fv == flow_done_field().spec_val(0),
            fv.wf(),
            fv.spec_mask() == FLOW_DONE_BIT,
            fv.spec_value() == 0,
    {
        proof {
            lemma_control_field_values(Cmd::Idle, 0);
        }
        Control::flow_done().val(0)
    }

    /// The control value that tells the engine to run `cmd` on the slot
    /// `dest`.
    pub fn command(cmd: Cmd, dest: u32) -> (raw: u32)
        ensures
            raw == command_value(cmd, dest),
            cmd_bits(raw) == cmd.spec_value(),
            dest_bits(raw) == dest & 0x7,
            !flow_done(raw),
    {
        let raw: u32 = Control::cmd_value(cmd).combine(Control::dest_value(dest)).value();
        proof {
            lemma_command_value(cmd, dest);
        }
        raw
    }
}

/// Every command is found again from its bits, and the bits that stand for
/// a command are those from 0 to 3: no other value of a field is taken for
/// one.
pub proof fn lemma_cmd_round_trip(cmd: Cmd, v: u32)
    ensures
        Cmd::spec_try_from_value(cmd.spec_value()) == Some(cmd),
        Cmd::spec_try_from_value(v) is Some <==> v <= 3,
        Cmd::spec_try_from_value(v) matches Some(c) ==> c.spec_value() == v,
        Cmd::spec_try_from_value(cmd_bits(v)) == Some(command_of(v)),
{
    assert(v & 0x3 <= 3) by (bit_vector);
}

/// A control value that was put together from a command and a slot holds
/// that command and that slot, and its flow-done flag is clear.
pub proof fn lemma_command_value(cmd: Cmd, dest: u32)
    ensures
        cmd_bits(command_value(cmd, dest)) == cmd.spec_value(),
        command_of(command_value(cmd, dest)) == cmd,
        dest_bits(command_value(cmd, dest)) == dest & 0x7,
        !flow_done(command_value(cmd, dest)),
{
    let c: u32 = cmd.spec_value();
    assert({
        &&& (c | ((dest & 0x7) << 2)) & 0x3 == c
        &&& ((c | ((dest & 0x7) << 2)) >> 2) & 0x7 == dest & 0x7
        &&& (c | ((dest & 0x7) << 2)) & 0x20 == 0
    }) by (bit_vector)
        requires
            c <= 3,
    ;
}

/// The control value that holds the flow-done flag alone has it set, and a
/// control value from which the flag was cleared has it clear.
pub proof fn lemma_flow_done_bit(raw: u32)
    ensures
        flow_done(FLOW_DONE_BIT),
        !flow_done(raw & !FLOW_DONE_BIT),
{
    assert(0x20u32 & 0x20u32 != 0 && (raw & !0x20u32) & 0x20u32 == 0) by (bit_vector);
}

/// Where the fields of the control register lie, and their masks.
pub proof fn lemma_control_layout()
    ensures
        cmd_field().wf() && cmd_field().spec_offset() == 0 && cmd_field().spec_width() == 2,
        dest_field().wf() && dest_field().spec_offset() == 2 && dest_field().spec_width() == 3,
        flow_done_field().wf() && flow_done_field().spec_offset() == 5
            && flow_done_field().spec_width() == 1,
        cmd_field().spec_mask() == 0x3 && cmd_field().spec_mask_in_place() == 0x3,
        dest_field().spec_mask() == 0x7 && dest_field().spec_mask_in_place() == 0x1c,
        flow_done_field().spec_mask() == 0x1 && flow_done_field().spec_mask_in_place()
            == FLOW_DONE_BIT,
{
    lemma_field_new(0, 2);
    lemma_field_new(2, 3);
    lemma_field_new(5, 1);
    assert({
        &&& low_bits(2) == 0x3 && low_bits(2) << 0u32 == 0x3
        &&& low_bits(3) == 0x7 && low_bits(3) << 2u32 == 0x1c
        &&& low_bits(1) == 0x1 && low_bits(1) << 5u32 == 0x20
    }) by (bit_vector);
}

/// The fields of the control register lie in the register, and no two of
/// them share a bit.
pub proof fn lemma_control_fields_are_disjoint()
    ensures
        cmd_field().wf(),
        dest_field().wf(),
        flow_done_field().wf(),
        !cmd_field().overlaps(dest_field()),
        !cmd_field().overlaps(flow_done_field()),
        !dest_field().overlaps(flow_done_field()),
{
    lemma_control_layout();
    lemma_fields_apart(cmd_field(), dest_field());
    lemma_fields_apart(cmd_field(), flow_done_field());
    lemma_fields_apart(dest_field(), flow_done_field());
}

/// What the fields of the control register read from the control value
/// `raw`: the command bits, the destination bits, and the flow-done flag.
pub proof fn lemma_control_fields_read(raw: u32)
    ensures
        cmd_field().spec_read(raw) == cmd_bits(raw),
        dest_field().spec_read(raw) == dest_bits(raw),
        flow_done_field().spec_read(raw) != 0 <==> flow_done(raw),
        cmd_bits(raw) <= 3,
        dest_bits(raw) <= 7,
{
    lemma_control_layout();
    assert({
        &&& (raw & (0x3u32 << 0u32)) >> 0u32 == raw & 0x3
        &&& (raw & (0x7u32 << 2u32)) >> 2u32 == (raw >> 2) & 0x7
        &&& ((raw & (0x1u32 << 5u32)) >> 5u32 != 0) <==> (raw & 0x20 != 0)
        &&& raw & 0x3 <= 3
        &&& (raw >> 2) & 0x7 <= 7
    }) by (bit_vector);
}

/// What the fields of the control register hold once they have been given a
/// value: the command's bits at bit 0, the low three bits of the destination
/// at bit 2, and the flow-done flag at bit 5.
pub proof fn lemma_control_field_values(cmd: Cmd, dest: u32)
    ensures
        cmd_field().spec_val(cmd.spec_value()).wf(),
        cmd_field().spec_val(cmd.spec_value()).spec_mask() == 0x3,
        cmd_field().spec_val(cmd.spec_value()).spec_value() == cmd.spec_value(),
        dest_field().spec_val(dest).wf(),
        dest_field().spec_val(dest).spec_mask() == 0x1c,
        dest_field().spec_val(dest).spec_value() == (dest & 0x7) << 2,
        flow_done_field().spec_val(1).wf(),
        flow_done_field().spec_val(1).spec_mask() == FLOW_DONE_BIT,
        flow_done_field().spec_val(1).spec_value() == FLOW_DONE_BIT,
        flow_done_field().spec_val(0).wf(),
        flow_done_field().spec_val(0).spec_mask() == FLOW_DONE_BIT,
        flow_done_field().spec_val(0).spec_value() == 0,
{
    lemma_control_layout();
    lemma_field_val(cmd_field(), cmd.spec_value());
    lemma_field_val(dest_field(), dest);
    lemma_field_val(flow_done_field(), 1);
    lemma_field_val(flow_done_field(), 0);
    let v: u32 = cmd.spec_value();
    assert({
        &&& (v & 0x3) << 0u32 == v
        &&& (1u32 & 0x1) << 5u32 == 0x20
        &&& (0u32 & 0x1) << 5u32 == 0
    }) by (bit_vector)
        requires
            v <= 3,
    ;
}

} // verus!
