//! What holds of the engine in every state: proofs over the state machine.
//!
//! Time is counted from the tick of the clock at which a command is
//! written. Polls may come at any ticks: after every advance of the clock,
//! or only after some.

use vstd::prelude::*;
use crate::control::{
    cmd_bits, command_of, dest_bits, flow_done, lemma_control_fields_read, lemma_flow_done_bit, Cmd,
    FLOW_DONE_BIT,
};
use crate::key_vault::{zero_padded, KEY_COUNT, KEY_SIZE};
use crate::model::{total_ticks, DoeState, DOE_CONTROL_OFFSET, DOE_OP_TICKS};
use crate::types::{BusError, RvAddr, RvData, RvSize};

verus! {

/// Whether one of the ticks `times` is `deadline` or later.
pub open spec fn reached(times: Seq<u64>, deadline: int) -> bool {
    exists|i: int| 0 <= i < times.len() && #[trigger] times[i] >= deadline
}

/// A sum of ticks is not negative, and not less than the sum without its
/// last term.
pub proof fn lemma_total_ticks_grows(deltas: Seq<u64>)
    ensures
        0 <= total_ticks(deltas),
        deltas.len() > 0 ==> total_ticks(deltas.drop_last()) <= total_ticks(deltas),
    decreases deltas.len(),
{
    if deltas.len() > 0 {
        lemma_total_ticks_grows(deltas.drop_last());
    }
}

/// Steps of at least one tick each add up to at least their number: a driver
/// that keeps advancing the clock, by whatever steps, gets past any time.
pub proof fn lemma_total_ticks_reaches(deltas: Seq<u64>)
    requires
        forall|i: int| 0 <= i < deltas.len() ==> #[trigger] deltas[i] >= 1,
    ensures
        total_ticks(deltas) >= deltas.len(),
    decreases deltas.len(),
{
    if deltas.len() > 0 {
        lemma_total_ticks_reaches(deltas.drop_last());
    }
}

/// A write to the control register that is not one word wide fails with an
/// access fault, and leaves the engine, its control register included, as it
/// was, at whatever time it is made.
pub proof fn lemma_control_takes_words_only(s: DoeState, now: u64, size: RvSize, val: RvData)
    requires
        size != RvSize::Word,
    ensures
        s.write_result(size, DOE_CONTROL_OFFSET) == Err::<(), BusError>(BusError::StoreAccessFault),
        s.write(now, size, DOE_CONTROL_OFFSET, val) == s,
{
}

/// A command other than idle that is written at the tick `now` is under
/// way from then on, whatever was before. Exactly one action is pending, and
/// it fires `DOE_OP_TICKS` ticks after `now`. The control register holds the
/// command and the destination as they were written, and the flow-done flag
/// is clear. Nothing else has changed.
pub proof fn lemma_command_is_accepted(s: DoeState, now: u64, val: RvData)
    requires
        cmd_bits(val) != 0,
    ensures
        s.write_control(now, val).pending == Some((now + DOE_OP_TICKS) as u128),
        !flow_done(s.write_control(now, val).control),
        cmd_bits(s.write_control(now, val).control) == cmd_bits(val),
        dest_bits(s.write_control(now, val).control) == dest_bits(val),
        s.write_control(now, val).control & 0x3f == val & 0x1f,
        s.write_control(now, val) == (DoeState {
            control: s.write_control(now, val).control,
            pending: s.write_control(now, val).pending,
            ..s
        }),
{
    lemma_flow_done_bit(val);
    assert({
        &&& (val & !0x20u32) & 0x3 == val & 0x3
        &&& ((val & !0x20u32) >> 2) & 0x7 == (val >> 2) & 0x7
        &&& (val & !0x20u32) & 0x3f == val & 0x1f
    }) by (bit_vector);
}

/// A poll before the tick at which the command under way completes, or with
/// none under way, changes nothing. A poll at that tick or after it runs the
/// command. A second poll then finds nothing to run: no command runs twice.
pub proof fn lemma_poll_is_idempotent(s: DoeState, now: u64, later: u64)
    ensures
        s.pending is None ==> s.poll(now) == s,
        s.pending matches Some(fire_at) ==> (now < fire_at ==> s.poll(now) == s) && (now >= fire_at
            ==> s.poll(now) == s.complete()),
        s.fires(now) ==> !s.poll(now).fires(later),
        s.poll(now).poll(now) == s.poll(now),
{
}

/// A command other than idle takes `DOE_OP_TICKS` ticks from the tick `t0`
/// at which it was written, whenever the engine is polled. After polls at
/// any ticks, the flow-done flag is set if one of them came `DOE_OP_TICKS`
/// ticks after `t0` or later, and clear if none did. While it is clear, the
/// engine is as it was right after the write. Once it is set, the command
/// has had its effect, once, and none is under way.
pub proof fn lemma_command_completes_at_deadline(
    s: DoeState,
    t0: u64,
    val: RvData,
    times: Seq<u64>,
)
    requires
        cmd_bits(val) != 0,
    ensures
        flow_done(s.write_control(t0, val).polls(times).control) <==> reached(
            times,
            t0 + DOE_OP_TICKS,
        ),
        !reached(times, t0 + DOE_OP_TICKS) ==> s.write_control(t0, val).polls(times)
            == s.write_control(t0, val),
        reached(times, t0 + DOE_OP_TICKS) ==> s.write_control(t0, val).polls(times)
            == s.write_control(t0, val).complete(),
    decreases times.len(),
{
    lemma_command_is_accepted(s, t0, val);
    lemma_flow_done_bit(val);
    if times.len() > 0 {
        let earlier = times.drop_last();
        lemma_command_completes_at_deadline(s, t0, val, earlier);
        if reached(earlier, t0 + DOE_OP_TICKS) {
            let i = choose|i: int| 0 <= i < earlier.len() && #[trigger] earlier[i] >= t0 + DOE_OP_TICKS;
            assert(times[i] == earlier[i]);
        } else if times.last() >= t0 + DOE_OP_TICKS {
            assert(times[times.len() - 1] >= t0 + DOE_OP_TICKS);
        } else {
            assert forall|i: int| 0 <= i < times.len() implies !(#[trigger] times[i] >= t0
                + DOE_OP_TICKS) by {
                if i < earlier.len() {
                    assert(earlier[i] == times[i]);
                }
            }
        }
    }
}

/// A command other than idle takes `DOE_OP_TICKS` ticks from the tick `t0`
/// at which it was written, however the driver cuts them up. After any
/// number of advances of the clock from `t0` on, with a poll after each, the
/// flow-done flag is set if the ticks add up to `DOE_OP_TICKS` or more, and
/// clear if they add up to less. While it is clear, the engine is as it was
/// right after the write. Once it is set, the command has had its effect,
/// once, and none is under way.
pub proof fn lemma_command_completes(s: DoeState, t0: u64, val: RvData, deltas: Seq<u64>)
    requires
        cmd_bits(val) != 0,
        t0 + total_ticks(deltas) <= u64::MAX,
    ensures
        flow_done(s.write_control(t0, val).advance(t0, deltas).control) <==> total_ticks(deltas)
            >= DOE_OP_TICKS,
        total_ticks(deltas) < DOE_OP_TICKS ==> s.write_control(t0, val).advance(t0, deltas)
            == s.write_control(t0, val),
        total_ticks(deltas) >= DOE_OP_TICKS ==> s.write_control(t0, val).advance(t0, deltas)
            == s.write_control(t0, val).complete(),
    decreases deltas.len(),
{
    lemma_command_is_accepted(s, t0, val);
    lemma_flow_done_bit(val);
    lemma_total_ticks_grows(deltas);
    if deltas.len() > 0 {
        lemma_total_ticks_grows(deltas.drop_last());
        lemma_command_completes(s, t0, val, deltas.drop_last());
    }
}

/// A driver that keeps advancing the clock gets to the end of every command:
/// after `DOE_OP_TICKS` advances of at least one tick each, of whatever
/// sizes, the flow-done flag is set.
pub proof fn lemma_command_completes_eventually(
    s: DoeState,
    t0: u64,
    val: RvData,
    deltas: Seq<u64>,
)
    requires
        cmd_bits(val) != 0,
        deltas.len() >= DOE_OP_TICKS,
        forall|i: int| 0 <= i < deltas.len() ==> #[trigger] deltas[i] >= 1,
        t0 + total_ticks(deltas) <= u64::MAX,
    ensures
        flow_done(s.write_control(t0, val).advance(t0, deltas).control),
{
    lemma_total_ticks_reaches(deltas);
    lemma_command_completes(s, t0, val, deltas);
}

/// A command other than idle that is written while another is under way
/// takes its place: the state is as if the earlier one had never been
/// written, and the wait counts from the tick of the second write.
pub proof fn lemma_last_command_wins(
    s: DoeState,
    t1: u64,
    first: RvData,
    t2: u64,
    second: RvData,
)
    requires
        cmd_bits(second) != 0,
    ensures
        s.write_control(t1, first).write_control(t2, second) == s.write_control(t2, second),
        s.write_control(t1, first).write_control(t2, second).pending == Some(
            (t2 + DOE_OP_TICKS) as u128,
        ),
{
}

/// An idle command that is written while an earlier command is under way
/// starts nothing and stops nothing. The first poll at or after the tick at
/// which the earlier command was to complete sets the flow-done flag, and
/// the key vault and the secrets are as they were before the write. Until
/// then the control register holds what was written.
pub proof fn lemma_idle_completes_without_effect(
    s: DoeState,
    now: u64,
    val: RvData,
    times: Seq<u64>,
)
    requires
        cmd_bits(val) == 0,
        s.pending is Some,
    ensures
        reached(times, s.pending->0 as int) ==> s.write_control(now, val).polls(times) == (DoeState {
            control: FLOW_DONE_BIT,
            pending: None,
            ..s
        }) && flow_done(s.write_control(now, val).polls(times).control),
        !reached(times, s.pending->0 as int) ==> s.write_control(now, val).polls(times)
            == (DoeState { control: val, ..s }),
    decreases times.len(),
{
    let deadline = s.pending->0 as int;
    lemma_flow_done_bit(val);
    if times.len() > 0 {
        let earlier = times.drop_last();
        lemma_idle_completes_without_effect(s, now, val, earlier);
        if reached(earlier, deadline) {
            let i = choose|i: int| 0 <= i < earlier.len() && #[trigger] earlier[i] >= deadline;
            assert(times[i] == earlier[i]);
        } else if times.last() >= deadline {
            assert(times[times.len() - 1] >= deadline);
        } else {
            assert forall|i: int| 0 <= i < times.len() implies !(#[trigger] times[i] >= deadline) by {
                if i < earlier.len() {
                    assert(earlier[i] == times[i]);
                }
            }
        }
    }
}

/// An idle command that is written while no command is under way starts
/// nothing: however often the engine is polled, and when, the control
/// register holds what was written, and the key vault and the secrets are as
/// they were.
pub proof fn lemma_idle_alone_starts_nothing(s: DoeState, now: u64, val: RvData, times: Seq<u64>)
    requires
        cmd_bits(val) == 0,
        s.pending is None,
    ensures
        s.write_control(now, val).polls(times) == (DoeState { control: val, ..s }),
    decreases times.len(),
{
    if times.len() > 0 {
        lemma_idle_alone_starts_nothing(s, now, val, times.drop_last());
    }
}

/// Writes and polls keep the size of every part of the engine.
pub proof fn lemma_steps_keep_wf(s: DoeState, size: RvSize, addr: RvAddr, val: RvData, now: u64)
    requires
        s.wf(),
    ensures
        s.write(now, size, addr, val).wf(),
        s.write_control(now, val).wf(),
        s.poll(now).wf(),
        s.complete().wf(),
{
    lemma_control_fields_read(s.control);
}

/// The completion of a command to unscramble a secret writes the plain text
/// to the slot that the control register names, and to no other slot, and
/// leaves the secrets as they are.
pub proof fn lemma_deobfuscate_writes_one_slot(s: DoeState, slot: int)
    requires
        s.wf(),
        0 <= slot < KEY_COUNT,
        command_of(s.control) == Cmd::DeobfuscateUds || command_of(s.control)
            == Cmd::DeobfuscateFe,
    ensures
        dest_bits(s.control) < KEY_COUNT,
        s.complete().key_vault.len() == KEY_COUNT,
        s.complete().secrets == s.secrets,
        slot != dest_bits(s.control) ==> s.complete().key_vault[slot] == s.key_vault[slot],
        slot == dest_bits(s.control) && command_of(s.control) == Cmd::DeobfuscateUds
            ==> s.complete().key_vault[slot] == zero_padded(s.plain_uds(), KEY_SIZE as nat),
        slot == dest_bits(s.control) && command_of(s.control) == Cmd::DeobfuscateFe
            ==> s.complete().key_vault[slot] == zero_padded(
            s.plain_field_entropy(),
            KEY_SIZE as nat,
        ),
{
    lemma_control_fields_read(s.control);
}

/// The completion of a command to clear the secrets leaves them zero,
/// whatever they were, and the key vault as it is; a second such command
/// finds nothing left to change.
pub proof fn lemma_clear_secrets_is_idempotent(s: DoeState, again: DoeState)
    requires
        command_of(s.control) == Cmd::ClearSecrets,
        command_of(again.control) == Cmd::ClearSecrets,
        again.secrets == s.complete().secrets,
    ensures
        s.complete().secrets == s.secrets.cleared(),
        s.complete().key_vault == s.key_vault,
        again.complete().secrets == s.complete().secrets,
{
}

} // verus!
