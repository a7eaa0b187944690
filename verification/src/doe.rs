//! The deobfuscation engine.

use vstd::prelude::*;
use vstd::slice::slice_subrange;
use crate::bus::{regions_disjoint, unowned, AddressMap, Bus, Region};
use crate::clock::{Timer, TimerAction};
use crate::control::{lemma_control_fields_read, Cmd, Control, FLOW_DONE_BIT};
use crate::crypto::decrypt;
use crate::key_vault::{
    key_from_bytes, lemma_vault_shape, zero_padded, KeyVault, KEY_COUNT, KEY_SIZE,
};
use crate::memory::{lemma_memory_len, ReadWriteMemory};
use crate::model::{
    target_of, DoeState, DOE_CONTROL_OFFSET, DOE_IV_OFFSET, DOE_IV_SIZE, DOE_OP_TICKS,
};
use crate::register::ReadWriteRegister;
use crate::soc_reg::{lemma_secrets_wf, SocRegisters, UDS_SIZE};
use crate::types::{zeros, BusError, RvAddr, RvData, RvSize};

verus! {

/// The slot of the initialization vector in the engine's address map.
const IV_SLOT: usize = 0;

/// The slot of the control register in the engine's address map.
const CONTROL_SLOT: usize = 1;

/// The addresses of the initialization vector.
pub open spec fn iv_region() -> Region {
    Region { offset: DOE_IV_OFFSET, size: 16, mask: 0xf }
}

/// The addresses of the control register.
pub open spec fn control_region() -> Region {
    Region { offset: DOE_CONTROL_OFFSET, size: 4, mask: 0x3 }
}

/// The regions of the engine, each in its slot.
pub open spec fn doe_regions() -> Seq<Region> {
    seq![iv_region(), control_region()]
}

/// The regions of the engine are well formed and share no address, and
/// they are where the addresses of the engine lead.
pub proof fn lemma_doe_regions(addr: RvAddr)
    ensures
        regions_disjoint(doe_regions()),
        iv_region().contains(addr) <==> target_of(addr) is Iv,
        control_region().contains(addr) <==> target_of(addr) is Control,
        unowned(doe_regions(), addr) <==> target_of(addr) is Unowned,
{
}

/// The engine's address map, as it is from construction on.
struct Decoder {
    map: AddressMap,
}

impl Decoder {
    #[verifier::type_invariant]
    spec fn inv(&self) -> bool {
        self.map@ == doe_regions()
    }

    /// Registers the engine's two regions: the map that comes out holds the
    /// initialization vector in its first slot and the control register in
    /// its second, and nothing else.
    fn new() -> (decoder: Decoder)
        ensures
            decoder.map@ == doe_regions(),
    {
        let mut map = AddressMap::new();
        let iv = Region { offset: DOE_IV_OFFSET, size: 16, mask: 0xf };
        let control = Region { offset: DOE_CONTROL_OFFSET, size: 4, mask: 0x3 };
        map.register(iv);
        map.register(control);
        assert(map@ =~= doe_regions());
        Decoder { map }
    }

    /// The slot that owns `addr`, with the address inside its region.
    fn decode(&self, addr: RvAddr) -> (r: Option<(usize, RvAddr)>)
        ensures
            target_of(addr) is Unowned <==> r is None,
            target_of(addr) is Iv <==> r == Some((IV_SLOT, addr & 0xf)),
            target_of(addr) is Control <==> r == Some((CONTROL_SLOT, addr & 0x3)),
    {
        proof {
            use_type_invariant(self);
        }
        self.map.decode(addr)
    }
}

/// The deobfuscation engine: an initialization vector, a control register,
/// the action that completes the command under way, and the key vault and
/// the secret store that it works on.
pub struct Doe {
    /// The initialization vector of the cipher.
    iv: ReadWriteMemory<DOE_IV_SIZE>,
    /// The command, its destination and the flow-done flag.
    control: ReadWriteRegister,
    /// Where plain texts go.
    key_vault: KeyVault,
    /// Where the obfuscated secrets and their key come from.
    soc_reg: SocRegisters,
    /// The action that completes the command under way.
    op_complete_action: Option<TimerAction>,
    /// Which region owns which address.
    decoder: Decoder,
}

impl View for Doe {
    type V = DoeState;

    closed spec fn view(&self) -> DoeState {
        DoeState {
            iv: self.iv@,
            control: self.control.reg.get(),
            pending: match self.op_complete_action {
                Some(action) => Some(action.fire_at()),
                None => None,
            },
            key_vault: self.key_vault@,
            secrets: self.soc_reg@,
        }
    }
}

impl Doe {
    /// An engine over the given key vault and secret store. Its
    /// initialization vector and its control register hold zero, and no
    /// command is under way. The engine keeps no clock: every write and
    /// every poll tells it the time.
    pub fn new(key_vault: KeyVault, soc_reg: SocRegisters) -> (doe: Doe)
        ensures
            doe@ == (DoeState {
                iv: zeros(DOE_IV_SIZE as nat),
                control: 0,
                pending: None,
                key_vault: key_vault@,
                secrets: soc_reg@,
            }),
    {
        Doe {
            iv: ReadWriteMemory::new(),
            control: ReadWriteRegister::new(0),
            key_vault,
            soc_reg,
            op_complete_action: None,
            decoder: Decoder::new(),
        }
    }

    /// The key vault that the engine writes to.
    pub fn key_vault(&self) -> (vault: &KeyVault)
        ensures
            vault@ == self@.key_vault,
    {
        &self.key_vault
    }

    /// The secret store that the engine reads and clears.
    pub fn soc_reg(&self) -> (soc_reg: &SocRegisters)
        ensures
            soc_reg@ == self@.secrets,
    {
        &self.soc_reg
    }

    /// The key vault, to be written by another of its users. Nothing else of
    /// the engine changes.
    pub fn key_vault_mut(&mut self) -> (vault: &mut KeyVault)
        ensures
            vault@ == old(self)@.key_vault,
            final(self)@ == (DoeState { key_vault: final(vault)@, ..old(self)@ }),
    {
        &mut self.key_vault
    }

    /// The secret store, to be written by another of its users. Nothing else
    /// of the engine changes.
    pub fn soc_reg_mut(&mut self) -> (soc_reg: &mut SocRegisters)
        ensures
            soc_reg@ == old(self)@.secrets,
            final(self)@ == (DoeState { secrets: final(soc_reg)@, ..old(self)@ }),
    {
        &mut self.soc_reg
    }

    /// The initialization vector.
    pub fn iv(&self) -> (iv: &[u8; DOE_IV_SIZE])
        ensures
            iv@ == self@.iv,
    {
        self.iv.data()
    }

    /// Every part of an engine has its size.
    pub proof fn lemma_view_wf(&self)
        ensures
            self@.wf(),
    {
        lemma_memory_len(self.iv);
        lemma_vault_shape(self.key_vault);
        lemma_secrets_wf(self.soc_reg);
    }

    /// A write to the control register, made at the tick `now`. Only a
    /// write of one word is taken: any other width is an access fault and
    /// changes nothing. A command other than idle clears the flow-done flag
    /// and completes `DOE_OP_TICKS` ticks after `now`; one that was under
    /// way is given up.
    pub fn on_write_control(&mut self, now: u64, size: RvSize, val: RvData) -> (r: Result<
        (),
        BusError,
    >)
        ensures
            size != RvSize::Word ==> r == Err::<(), BusError>(BusError::StoreAccessFault)
                && final(self)@ == old(self)@,
            size == RvSize::Word ==> r == Ok::<(), BusError>(()) && final(self)@ == old(
                self,
            )@.write_control(now, val),
    {
        match size {
            RvSize::Word => {},
            _ => {
                return Err(BusError::StoreAccessFault);
            },
        }
        self.control.reg.set(val);
        if self.control.reg.read(Control::cmd()) != Cmd::Idle.value() {
            self.control.reg.modify(Control::flow_done_clear());
            self.op_complete_action = Some(Timer::schedule_poll_in(now, DOE_OP_TICKS));
            assert((val & !FLOW_DONE_BIT) | 0 == val & !FLOW_DONE_BIT) by (bit_vector);
        }
        Ok(())
    }

    /// A poll at the tick `now`. Once the command under way has had its
    /// ticks, the poll runs it and sets the flow-done flag: the control
    /// register then holds that flag and nothing else. A poll before that,
    /// or with no command under way, changes nothing. A plain text that was
    /// stored is as long as its cipher text.
    pub fn poll(&mut self, now: u64)
        ensures
            final(self)@ == old(self)@.poll(now),
            old(self)@.stored_text_fits(now),
    {
        if Timer::fired(now, &mut self.op_complete_action) {
            let key_id: u32 = self.control.reg.read(Control::dest());
            proof {
                lemma_control_fields_read(self.control.reg.get());
            }
            match self.control.reg.read_as_enum::<Cmd>(Control::cmd()) {
                Some(Cmd::DeobfuscateUds) => self.unscramble_uds(key_id),
                Some(Cmd::DeobfuscateFe) => self.unscramble_fe(key_id),
                Some(Cmd::ClearSecrets) => self.clear_secrets(),
                _ => {},
            }
            self.control.reg.write(Control::flow_done_set());
        }
    }

    /// Unscrambles the unique device secret and stores it in the slot
    /// `key_id` of the key vault, followed by zero bytes up to the slot's
    /// width.
    fn unscramble_uds(&mut self, key_id: u32)
        requires
            key_id < KEY_COUNT,
        ensures
            final(self)@ == (DoeState {
                key_vault: old(self)@.key_vault.update(
                    key_id as int,
                    zero_padded(old(self)@.plain_uds(), KEY_SIZE as nat),
                ),
                ..old(self)@
            }),
            old(self)@.plain_uds().len() == UDS_SIZE,
    {
        let cipher_uds = self.soc_reg.uds();
        let doe_key = self.soc_reg.doe_key();
        let plain_uds = decrypt(&doe_key, self.iv.data(), cipher_uds.as_slice());
        let key = key_from_bytes(plain_uds.as_slice());
        self.key_vault.write_key(key_id, &key);
    }

    /// Unscrambles the first 64 bytes of the field entropy and stores them
    /// in the slot `key_id` of the key vault.
    fn unscramble_fe(&mut self, key_id: u32)
        requires
            key_id < KEY_COUNT,
        ensures
            final(self)@ == (DoeState {
                key_vault: old(self)@.key_vault.update(
                    key_id as int,
                    zero_padded(old(self)@.plain_field_entropy(), KEY_SIZE as nat),
                ),
                ..old(self)@
            }),
            old(self)@.plain_field_entropy().len() == KEY_SIZE,
    {
        let cipher_fe = self.soc_reg.field_entropy();
        let doe_key = self.soc_reg.doe_key();
        let plain_fe = decrypt(
            &doe_key,
            self.iv.data(),
            slice_subrange(cipher_fe.as_slice(), 0, 64),
        );
        let key = key_from_bytes(plain_fe.as_slice());
        self.key_vault.write_key(key_id, &key);
    }

    /// Clears the secrets.
    fn clear_secrets(&mut self)
        ensures
            final(self)@ == (DoeState { secrets: old(self)@.secrets.cleared(), ..old(self)@ }),
    {
        self.soc_reg.clear_secrets()
    }
}

impl Bus for Doe {
    /// A read returns what the state machine says, and leaves the engine
    /// as it is.
    open spec fn reads(
        &self,
        size: RvSize,
        addr: RvAddr,
        after: &Self,
        r: Result<RvData, BusError>,
    ) -> bool {
        r == self@.read(size, addr) && after@ == self@
    }

    /// A write returns what the state machine says, and takes the engine to
    /// the state that it gives for a write at the tick `now`.
    open spec fn writes(
        &self,
        now: u64,
        size: RvSize,
        addr: RvAddr,
        val: RvData,
        after: &Self,
        r: Result<(), BusError>,
    ) -> bool {
        r == self@.write_result(size, addr) && after@ == self@.write(now, size, addr, val)
    }

    /// A poll takes the engine to the state that the state machine gives
    /// for a poll at the tick `now`, and a plain text that it stored is as
    /// long as its cipher text.
    open spec fn polled(&self, now: u64, after: &Self) -> bool {
        after@ == self@.poll(now) && self@.stored_text_fits(now)
    }

    /// Reads from the initialization vector or from the control register.
    /// The engine is left as it was.
    fn read(&mut self, size: RvSize, addr: RvAddr) -> (r: Result<RvData, BusError>)
        ensures
            r == old(self)@.read(size, addr),
            final(self)@ == old(self)@,
    {
        match self.decoder.decode(addr) {
            None => Err(BusError::LoadAccessFault),
            Some((slot, local)) => {
                if !size.is_aligned(addr) {
                    Err(BusError::LoadAddrMisaligned)
                } else if slot == IV_SLOT {
                    self.iv.read(size, local)
                } else {
                    self.control.read(size)
                }
            },
        }
    }

    /// Writes to the initialization vector or to the control register, at
    /// the tick `now`. A write that fails changes nothing.
    fn write(&mut self, now: u64, size: RvSize, addr: RvAddr, val: RvData) -> (r: Result<
        (),
        BusError,
    >)
        ensures
            r == old(self)@.write_result(size, addr),
            final(self)@ == old(self)@.write(now, size, addr, val),
    {
        match self.decoder.decode(addr) {
            None => Err(BusError::StoreAccessFault),
            Some((slot, local)) => {
                if !size.is_aligned(addr) {
                    Err(BusError::StoreAddrMisaligned)
                } else if slot == IV_SLOT {
                    self.iv.write(now, size, local, val)
                } else {
                    self.on_write_control(now, size, val)
                }
            },
        }
    }

    /// Polls the initialization vector's memory, then the engine itself.
    fn poll(&mut self, now: u64)
        ensures
            final(self)@ == old(self)@.poll(now),
            old(self)@.stored_text_fits(now),
    {
        self.iv.poll(now);
        Doe::poll(self, now);
    }
}

} // verus!
