//! The key vault: numbered slots of key material.

use vstd::prelude::*;
use crate::types::zeros;

verus! {

/// The number of slots in the vault.
pub const KEY_COUNT: usize = 8;

/// The number of bytes in one slot.
pub const KEY_SIZE: usize = 64;

/// The first `len` bytes of `bytes`, with zero bytes after them where
/// `bytes` is shorter than `len`.
pub open spec fn zero_padded(bytes: Seq<u8>, len: nat) -> Seq<u8> {
    Seq::new(
        len,
        |i: int|
            if i < bytes.len() {
                bytes[i]
            } else {
                0u8
            },
    )
}

/// The contents of one slot that holds `bytes`: the bytes, then zero bytes up
/// to the slot's width.
pub fn key_from_bytes(bytes: &[u8]) -> (key: [u8; KEY_SIZE])
    ensures
        key@ == zero_padded(bytes@, KEY_SIZE as nat),
{
    let mut key = [0u8;KEY_SIZE];
    let mut i: usize = 0;
    while i < KEY_SIZE && i < bytes.len()
        invariant
            i <= KEY_SIZE,
            i <= bytes@.len(),
            forall|k: int| 0 <= k < i ==> key@[k] == bytes@[k],
            forall|k: int| i <= k < KEY_SIZE ==> key@[k] == 0u8,
        decreases KEY_SIZE - i,
    {
        key[i] = bytes[i];
        i = i + 1;
    }
    key
}

/// A store of `KEY_COUNT` slots, each of `KEY_SIZE` bytes.
#[derive(Debug)]
pub struct KeyVault {
    keys: [[u8; KEY_SIZE]; KEY_COUNT],
}

impl View for KeyVault {
    type V = Seq<Seq<u8>>;

    closed spec fn view(&self) -> Seq<Seq<u8>> {
        Seq::new(KEY_COUNT as nat, |i: int| self.keys@[i]@)
    }
}

impl Clone for KeyVault {
    /// A vault with the same contents.
    fn clone(&self) -> (vault: KeyVault)
        ensures
            vault@ == self@,
    {
        KeyVault { keys: self.keys }
    }
}

impl KeyVault {
    /// A vault whose slots hold zero bytes.
    pub fn new() -> (vault: KeyVault)
        ensures
            vault@ == Seq::new(KEY_COUNT as nat, |i: int| zeros(KEY_SIZE as nat)),
    {
        let vault = KeyVault { keys: [[0u8;KEY_SIZE];KEY_COUNT] };
        assert(forall|i: int| 0 <= i < KEY_COUNT ==> #[trigger] vault@[i] == zeros(KEY_SIZE as nat));
        vault
    }

    /// Replaces the contents of the slot `key_id` by `key`. No other slot
    /// changes.
    pub fn write_key(&mut self, key_id: u32, key: &[u8; KEY_SIZE])
        requires
            key_id < KEY_COUNT,
        ensures
            final(self)@ == old(self)@.update(key_id as int, key@),
    {
        self.keys[key_id as usize] = *key;
    }

    /// The contents of the slot `key_id`.
    pub fn read_key(&self, key_id: u32) -> (key: [u8; KEY_SIZE])
        requires
            key_id < KEY_COUNT,
        ensures
            key@ == self@[key_id as int],
    {
        self.keys[key_id as usize]
    }
}

/// A vault has `KEY_COUNT` slots of `KEY_SIZE` bytes each.
pub proof fn lemma_vault_shape(vault: KeyVault)
    ensures
        vault@.len() == KEY_COUNT,
        forall|i: int| 0 <= i < KEY_COUNT ==> (#[trigger] vault@[i]).len() == KEY_SIZE,
{
}

} // verus!
