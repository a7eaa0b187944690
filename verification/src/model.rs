//! The engine as a state machine: its state as plain values, and what a
//! write, a read and a poll do to it. The engine holds no time: a write and
//! a poll are made at a tick of the clock, which they are told.

use vstd::prelude::*;
use crate::control::{cmd_bits, command_of, dest_bits, Cmd, FLOW_DONE_BIT};
use crate::crypto::aes256_cbc_decrypt;
use crate::key_vault::{zero_padded, KEY_COUNT, KEY_SIZE};
use crate::memory::{memory_read, memory_write, memory_write_result};
use crate::soc_reg::{Secrets, UDS_SIZE};
use crate::types::{BusError, RvAddr, RvData, RvSize};

verus! {

/// The number of bytes in the initialization vector.
pub const DOE_IV_SIZE: usize = 16;

/// The number of ticks from the write of a command to its completion.
pub const DOE_OP_TICKS: u64 = 1000;

/// The address of the first byte of the initialization vector.
pub const DOE_IV_OFFSET: RvAddr = 0x0000_0000;

/// The address of the control register.
pub const DOE_CONTROL_OFFSET: RvAddr = 0x0000_0010;

/// Where an address of the engine leads.
pub enum Target {
    /// To a byte of the initialization vector.
    Iv,
    /// Into the control register.
    Control,
    /// Nowhere.
    Unowned,
}

/// Where `addr` leads.
pub open spec fn target_of(addr: RvAddr) -> Target {
    if addr < DOE_CONTROL_OFFSET {
        Target::Iv
    } else if addr < DOE_CONTROL_OFFSET + 4 {
        Target::Control
    } else {
        Target::Unowned
    }
}

/// All that can be seen of an engine.
#[verifier::ext_equal]
pub struct DoeState {
    /// The initialization vector, `DOE_IV_SIZE` bytes.
    pub iv: Seq<u8>,
    /// The raw value of the control register.
    pub control: u32,
    /// The tick at which the command that is under way completes, while one
    /// is under way: the tick at which it was written and `DOE_OP_TICKS`
    /// more.
    pub pending: Option<u128>,
    /// The slots of the key vault.
    pub key_vault: Seq<Seq<u8>>,
    /// The secrets in the secret store.
    pub secrets: Secrets,
}

impl DoeState {
    /// Every part has its size: the initialization vector, the slots of the
    /// key vault, and the secrets.
    pub open spec fn wf(self) -> bool {
        &&& self.iv.len() == DOE_IV_SIZE
        &&& self.key_vault.len() == KEY_COUNT
        &&& forall|i: int| 0 <= i < KEY_COUNT ==> (#[trigger] self.key_vault[i]).len() == KEY_SIZE
        &&& self.secrets.wf()
    }

    /// The state after a write of the word `val` to the control register,
    /// made at the tick `now`. A command other than idle clears the
    /// flow-done flag and starts the wait anew at that tick, also while an
    /// earlier command is under way. An idle command is stored and starts
    /// nothing.
    pub open spec fn write_control(self, now: u64, val: RvData) -> DoeState {
        if cmd_bits(val) != 0 {
            DoeState {
                control: val & !FLOW_DONE_BIT,
                pending: Some((now + DOE_OP_TICKS) as u128),
                ..self
            }
        } else {
            DoeState { control: val, ..self }
        }
    }

    /// The key vault once the plain text `plain_text` has been stored in the
    /// slot that the control register names: that slot holds the plain text,
    /// with zero bytes up to the slot's width; no other slot changes.
    pub open spec fn store(self, plain_text: Seq<u8>) -> Seq<Seq<u8>> {
        self.key_vault.update(
            dest_bits(self.control) as int,
            zero_padded(plain_text, KEY_SIZE as nat),
        )
    }

    /// The plain text of the unique device secret: the secret as the store
    /// holds it, decrypted under the deobfuscation key with the
    /// initialization vector as it is now.
    pub open spec fn plain_uds(self) -> Seq<u8> {
        aes256_cbc_decrypt(self.secrets.doe_key, self.iv, self.secrets.uds)
    }

    /// The plain text of the field entropy.
    pub open spec fn plain_field_entropy(self) -> Seq<u8> {
        aes256_cbc_decrypt(self.secrets.doe_key, self.iv, self.secrets.field_entropy_cipher())
    }

    /// The state after the command in the control register has run: the
    /// command has had its effect, no command is under way, and the control
    /// register holds the flow-done flag and nothing else.
    pub open spec fn complete(self) -> DoeState {
        let done = DoeState { control: FLOW_DONE_BIT, pending: None, ..self };
        match command_of(self.control) {
            Cmd::DeobfuscateUds => DoeState { key_vault: self.store(self.plain_uds()), ..done },
            Cmd::DeobfuscateFe => DoeState {
                key_vault: self.store(self.plain_field_entropy()),
                ..done
            },
            Cmd::ClearSecrets => DoeState { secrets: self.secrets.cleared(), ..done },
            Cmd::Idle => done,
        }
    }

    /// Whether a poll at the tick `now` completes the command under way.
    pub open spec fn fires(self, now: u64) -> bool {
        match self.pending {
            Some(fire_at) => now >= fire_at,
            None => false,
        }
    }

    /// The state after a poll at the tick `now`: the command under way has
    /// run if its ticks have passed, and nothing has changed if they have
    /// not, or if none is under way.
    pub open spec fn poll(self, now: u64) -> DoeState {
        if self.fires(now) {
            self.complete()
        } else {
            self
        }
    }

    /// A plain text that a poll at the tick `now` stores is as long as its
    /// cipher text: that of the unique device secret leaves the end of its
    /// slot zero, that of the field entropy fills its slot.
    pub open spec fn stored_text_fits(self, now: u64) -> bool {
        &&& self.fires(now) && command_of(self.control) == Cmd::DeobfuscateUds
            ==> self.plain_uds().len() == UDS_SIZE
        &&& self.fires(now) && command_of(self.control) == Cmd::DeobfuscateFe
            ==> self.plain_field_entropy().len() == KEY_SIZE
    }

    /// What a read of `size` at `addr` returns.
    pub open spec fn read(self, size: RvSize, addr: RvAddr) -> Result<RvData, BusError> {
        match target_of(addr) {
            Target::Unowned => Err(BusError::LoadAccessFault),
            Target::Iv => if !size.spec_is_aligned(addr) {
                Err(BusError::LoadAddrMisaligned)
            } else {
                memory_read(self.iv, size, addr & 0xf)
            },
            Target::Control => if !size.spec_is_aligned(addr) {
                Err(BusError::LoadAddrMisaligned)
            } else if size != RvSize::Word {
                Err(BusError::LoadAccessFault)
            } else {
                Ok(self.control)
            },
        }
    }

    /// What a write of `size` at `addr` returns.
    pub open spec fn write_result(self, size: RvSize, addr: RvAddr) -> Result<(), BusError> {
        match target_of(addr) {
            Target::Unowned => Err(BusError::StoreAccessFault),
            Target::Iv => if !size.spec_is_aligned(addr) {
                Err(BusError::StoreAddrMisaligned)
            } else {
                memory_write_result(self.iv, size, addr & 0xf)
            },
            Target::Control => if !size.spec_is_aligned(addr) {
                Err(BusError::StoreAddrMisaligned)
            } else if size != RvSize::Word {
                Err(BusError::StoreAccessFault)
            } else {
                Ok(())
            },
        }
    }

    /// The state after a write of `val` with `size` at `addr`, made at the
    /// tick `now`. A write that fails changes nothing. One that succeeds
    /// changes the word of the initialization vector that it names, or the
    /// control register.
    pub open spec fn write(self, now: u64, size: RvSize, addr: RvAddr, val: RvData) -> DoeState {
        if self.write_result(size, addr) is Err {
            self
        } else {
            match target_of(addr) {
                Target::Iv => DoeState { iv: memory_write(self.iv, size, addr & 0xf, val), ..self },
                Target::Control => self.write_control(now, val),
                Target::Unowned => self,
            }
        }
    }

    /// The state after a poll at each of the ticks `times`, in turn.
    pub open spec fn polls(self, times: Seq<u64>) -> DoeState
        decreases times.len(),
    {
        if times.len() == 0 {
            self
        } else {
            self.polls(times.drop_last()).poll(times.last())
        }
    }

    /// The state after a clock that stood at the tick `start` has moved on
    /// by each of `deltas` in turn, with a poll of the engine after each.
    pub open spec fn advance(self, start: u64, deltas: Seq<u64>) -> DoeState
        decreases deltas.len(),
    {
        if deltas.len() == 0 {
            self
        } else {
            self.advance(start, deltas.drop_last()).poll((start + total_ticks(deltas)) as u64)
        }
    }
}

/// The sum of `deltas`.
pub open spec fn total_ticks(deltas: Seq<u64>) -> int
    decreases deltas.len(),
{
    if deltas.len() == 0 {
        0
    } else {
        total_ticks(deltas.drop_last()) + deltas.last()
    }
}

} // verus!
