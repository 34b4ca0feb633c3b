//! Plaintext buffers and the wiping of secret material.

use vstd::prelude::*;

verus! {

/// A plaintext buffer: the secret material a vault protects.
///
/// A value of this type exists only transiently, between serialization and
/// encryption or between decryption and deserialization; the holder should
/// wipe it as soon as it is no longer needed.
#[derive(Debug)]
pub struct Content {
    bytes: Vec<u8>,
}

impl View for Content {
    type V = Seq<u8>;

    closed spec fn view(&self) -> Seq<u8> {
        self.bytes@
    }
}

impl Content {
    /// Wraps the given bytes as plaintext content.
    pub fn new(msg: Vec<u8>) -> (r: Self)
        ensures
            r@ == msg@,
    {
        Content { bytes: msg }
    }

    /// Releases the underlying bytes.
    pub fn into_vec(self) -> (r: Vec<u8>)
        ensures
            r@ == self@,
    {
        self.bytes
    }

    /// Borrows the underlying bytes.
    pub fn as_slice(&self) -> (r: &[u8])
        ensures
            r@ == self@,
    {
        self.bytes.as_slice()
    }

    /// Overwrites the buffer and empties it.
    pub fn wipe(&mut self)
        ensures
            final(self)@.len() == 0,
    {
        wipe_bytes(&mut self.bytes);
    }
}

/// Relies on zeroize for `Vec<u8>`: every byte, spare capacity included, is
/// overwritten with zero before the length is reset to zero.
#[verifier::external_body]
pub(crate) fn wipe_bytes(buf: &mut Vec<u8>)
    ensures
        final(buf)@.len() == 0,
{
    zeroize::Zeroize::zeroize(buf);
}

} // verus!
