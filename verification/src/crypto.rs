//! The block cipher that unscrambles the secrets.

use vstd::prelude::*;
use aes::cipher::block_padding::NoPadding;
use aes::cipher::{BlockDecryptMut, KeyIvInit};

verus! {

/// The number of bytes in one block of the cipher.
pub const AES_BLOCK_SIZE: usize = 16;

/// The number of bytes in a key of the cipher.
pub const AES_256_KEY_SIZE: usize = 32;

/// The plain text that AES-256 in CBC mode gives for `cipher_text` under
/// `key`, with `iv` as initialization vector and no padding.
pub uninterp spec fn aes256_cbc_decrypt(key: Seq<u8>, iv: Seq<u8>, cipher_text: Seq<u8>) -> Seq<u8>;

/// `cipher::BlockDecryptMut::decrypt_padded_b2b_mut` on a `cbc::Decryptor`
/// over `aes::Aes256`, without padding: decrypts `cipher_text`, a whole
/// number of blocks, into a buffer of the same length. The contract names the
/// plain text and states its length; the outside call fails on nothing else
/// than a cipher text that is not a whole number of blocks.
#[verifier::external_body]
pub(crate) fn decrypt(
    key: &[u8; AES_256_KEY_SIZE],
    iv: &[u8; AES_BLOCK_SIZE],
    cipher_text: &[u8],
) -> (plain_text: Vec<u8>)
    requires
        cipher_text@.len() % AES_BLOCK_SIZE as nat == 0,
    ensures
        plain_text@ == aes256_cbc_decrypt(key@, iv@, cipher_text@),
        plain_text@.len() == cipher_text@.len(),
{
    let mut plain_text = vec![0u8; cipher_text.len()];
    cbc::Decryptor::<aes::Aes256>::new(key.into(), iv.into())
        .decrypt_padded_b2b_mut::<NoPadding>(cipher_text, &mut plain_text)
        .unwrap();
    plain_text
}

} // verus!
