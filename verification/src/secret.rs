//! Secret bytes, held in a buffer that is overwritten with zeros when it is
//! released.

use vstd::prelude::*;
use zeroize::Zeroizing;

verus! {

/// Password or secret material, kept in a `zeroize::Zeroizing` buffer: the
/// bytes are zeroed in memory when the value is dropped. Proofs see the
/// buffer only through `held_bytes`.
#[verifier::external_body]
pub struct SecretBytes {
    buffer: Zeroizing<Vec<u8>>,
}

/// The bytes that a secret holds.
pub uninterp spec fn held_bytes(secret: SecretBytes) -> Seq<u8>;

/// Calls `Zeroizing::new`, which moves `bytes` into the buffer unchanged: the
/// secret then holds exactly `bytes`.
#[verifier::external_body]
fn seal(bytes: Vec<u8>) -> (secret: SecretBytes)
    ensures
        held_bytes(secret) == bytes@,
{
    SecretBytes { buffer: Zeroizing::new(bytes) }
}

/// Borrows the wrapped vector through `Deref::deref` of `Zeroizing` and
/// returns it as a slice: the slice is what the secret holds.
#[verifier::external_body]
fn lend(secret: &SecretBytes) -> (bytes: &[u8])
    ensures
        bytes@ == held_bytes(*secret),
{
    secret.buffer.as_slice()
}

impl View for SecretBytes {
    type V = Seq<u8>;

    open spec fn view(&self) -> Seq<u8> {
        held_bytes(*self)
    }
}

impl SecretBytes {
    /// Takes over `bytes`, which from now on are zeroed on release.
    pub fn new(bytes: Vec<u8>) -> (s: SecretBytes)
        ensures
            s@ == bytes@,
    {
        seal(bytes)
    }

    /// A secret of no bytes.
    pub fn empty() -> (s: SecretBytes)
        ensures
            s@ == Seq::<u8>::empty(),
    {
        SecretBytes::new(Vec::new())
    }

    /// The UTF-8 bytes of `text`, as a secret.
    pub fn from_text(text: &str) -> (s: SecretBytes)
        ensures
            s@ == vstd::utf8::encode_utf8(text@),
    {
        SecretBytes::new(text.as_bytes_vec())
    }

    /// The bytes held.
    pub fn as_slice(&self) -> (bytes: &[u8])
        ensures
            bytes@ == self@,
    {
        lend(self)
    }

    /// The number of bytes held.
    pub fn len(&self) -> (n: usize)
        ensures
            n == self@.len(),
    {
        self.as_slice().len()
    }

    /// Whether no byte is held.
    pub fn is_empty(&self) -> (b: bool)
        ensures
            b == (self@.len() == 0),
    {
        self.as_slice().len() == 0
    }
}

} // verus!
