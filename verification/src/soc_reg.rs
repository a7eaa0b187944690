//! The store of boot secrets: the obfuscated device secret, the obfuscated
//! field entropy, and the key that unscrambles both.

use vstd::prelude::*;
use crate::types::zeros;

verus! {

/// The number of bytes in the obfuscated unique device secret.
pub const UDS_SIZE: usize = 48;

/// The number of bytes in the obfuscated field entropy.
pub const FIELD_ENTROPY_SIZE: usize = 128;

/// The number of bytes in the deobfuscation key.
pub const DOE_KEY_SIZE: usize = 32;

/// The deobfuscation key that a new store holds.
pub const DEFAULT_DOE_KEY: [u8; 32] = [
    0x60, 0x3D, 0xEB, 0x10, 0x15, 0xCA, 0x71, 0xBE, 0x2B, 0x73, 0xAE, 0xF0, 0x85, 0x7D, 0x77, 0x81,
    0x1F, 0x35, 0x2C, 0x07, 0x3B, 0x61, 0x08, 0xD7, 0x2D, 0x98, 0x10, 0xA3, 0x09, 0x14, 0xDF, 0xF4,
];

/// The obfuscated unique device secret that a new store holds.
pub const DEFAULT_UDS: [u8; 48] = [
    0xF5, 0x8C, 0x4C, 0x04, 0xD6, 0xE5, 0xF1, 0xBA, 0x77, 0x9E, 0xAB, 0xFB, 0x5F, 0x7B, 0xFB, 0xD6,
    0x9C, 0xFC, 0x4E, 0x96, 0x7E, 0xDB, 0x80, 0x8D, 0x67, 0x9F, 0x77, 0x7B, 0xC6, 0x70, 0x2C, 0x7D,
    0x39, 0xF2, 0x33, 0x69, 0xA9, 0xD9, 0xBA, 0xCF, 0xA5, 0x30, 0xE2, 0x63, 0x04, 0x23, 0x14, 0x61,
];

/// Every byte of the obfuscated field entropy that a new store holds.
pub const DEFAULT_FIELD_ENTROPY_BYTE: u8 = 0xFF;

/// What a store of secrets holds.
#[verifier::ext_equal]
pub struct Secrets {
    /// The obfuscated unique device secret, `UDS_SIZE` bytes.
    pub uds: Seq<u8>,
    /// The obfuscated field entropy, `FIELD_ENTROPY_SIZE` bytes.
    pub field_entropy: Seq<u8>,
    /// The deobfuscation key, `DOE_KEY_SIZE` bytes.
    pub doe_key: Seq<u8>,
}

impl Secrets {
    /// Each secret has its width.
    pub open spec fn wf(self) -> bool {
        &&& self.uds.len() == UDS_SIZE
        &&& self.field_entropy.len() == FIELD_ENTROPY_SIZE
        &&& self.doe_key.len() == DOE_KEY_SIZE
    }

    /// The secrets after they have been cleared: zero bytes, each at its own
    /// width, whatever was held before.
    pub open spec fn cleared(self) -> Secrets {
        Secrets {
            uds: zeros(UDS_SIZE as nat),
            field_entropy: zeros(FIELD_ENTROPY_SIZE as nat),
            doe_key: zeros(DOE_KEY_SIZE as nat),
        }
    }

    /// The part of the field entropy that the engine unscrambles: its first
    /// 64 bytes.
    pub open spec fn field_entropy_cipher(self) -> Seq<u8> {
        self.field_entropy.subrange(0, 64)
    }
}

/// The store of boot secrets.
#[derive(Debug)]
pub struct SocRegisters {
    uds: [u8; UDS_SIZE],
    field_entropy: [u8; FIELD_ENTROPY_SIZE],
    doe_key: [u8; DOE_KEY_SIZE],
}

impl View for SocRegisters {
    type V = Secrets;

    closed spec fn view(&self) -> Secrets {
        Secrets { uds: self.uds@, field_entropy: self.field_entropy@, doe_key: self.doe_key@ }
    }
}

impl Clone for SocRegisters {
    /// A store with the same secrets.
    fn clone(&self) -> (soc_reg: SocRegisters)
        ensures
            soc_reg@ == self@,
    {
        SocRegisters { uds: self.uds, field_entropy: self.field_entropy, doe_key: self.doe_key }
    }
}

impl SocRegisters {
    /// A store that holds the default secrets.
    pub fn new() -> (soc_reg: SocRegisters)
        ensures
            soc_reg@.uds == DEFAULT_UDS@,
            soc_reg@.doe_key == DEFAULT_DOE_KEY@,
            soc_reg@.field_entropy == Seq::new(
                FIELD_ENTROPY_SIZE as nat,
                |i: int| DEFAULT_FIELD_ENTROPY_BYTE,
            ),
    {
        let soc_reg = SocRegisters {
            uds: DEFAULT_UDS,
            field_entropy: [DEFAULT_FIELD_ENTROPY_BYTE;FIELD_ENTROPY_SIZE],
            doe_key: DEFAULT_DOE_KEY,
        };
        soc_reg
    }

    /// A store that holds the given secrets.
    pub fn with_secrets(
        uds: [u8; UDS_SIZE],
        field_entropy: [u8; FIELD_ENTROPY_SIZE],
        doe_key: [u8; DOE_KEY_SIZE],
    ) -> (soc_reg: SocRegisters)
        ensures
            soc_reg@ == (Secrets { uds: uds@, field_entropy: field_entropy@, doe_key: doe_key@ }),
    {
        SocRegisters { uds, field_entropy, doe_key }
    }

    /// The obfuscated unique device secret.
    pub fn uds(&self) -> (bytes: [u8; UDS_SIZE])
        ensures
            bytes@ == self@.uds,
    {
        self.uds
    }

    /// The obfuscated field entropy.
    pub fn field_entropy(&self) -> (bytes: [u8; FIELD_ENTROPY_SIZE])
        ensures
            bytes@ == self@.field_entropy,
    {
        self.field_entropy
    }

    /// The deobfuscation key.
    pub fn doe_key(&self) -> (bytes: [u8; DOE_KEY_SIZE])
        ensures
            bytes@ == self@.doe_key,
    {
        self.doe_key
    }

    /// Sets the device secret, the field entropy and the deobfuscation key to
    /// zero bytes. There is no way back.
    pub fn clear_secrets(&mut self)
        ensures
            final(self)@ == old(self)@.cleared(),
    {
        self.uds = [0u8;UDS_SIZE];
        self.field_entropy = [0u8;FIELD_ENTROPY_SIZE];
        self.doe_key = [0u8;DOE_KEY_SIZE];
    }
}

/// What a store holds has its widths.
pub proof fn lemma_secrets_wf(soc_reg: SocRegisters)
    ensures
        soc_reg@.wf(),
{
}

/// Clearing gives zero bytes at the width of each secret, whatever was held
/// before, and clearing what is cleared changes nothing.
pub proof fn lemma_clear_is_idempotent(secrets: Secrets)
    ensures
        secrets.cleared().wf(),
        secrets.cleared().cleared() == secrets.cleared(),
        secrets.cleared().uds == zeros(UDS_SIZE as nat),
        secrets.cleared().field_entropy == zeros(FIELD_ENTROPY_SIZE as nat),
        secrets.cleared().doe_key == zeros(DOE_KEY_SIZE as nat),
        forall|i: int| 0 <= i < UDS_SIZE ==> secrets.cleared().uds[i] == 0,
        forall|i: int| 0 <= i < FIELD_ENTROPY_SIZE ==> secrets.cleared().field_entropy[i] == 0,
        forall|i: int| 0 <= i < DOE_KEY_SIZE ==> secrets.cleared().doe_key[i] == 0,
{
}

} // verus!
