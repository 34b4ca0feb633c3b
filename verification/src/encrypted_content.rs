//! The encrypted payload: a header together with its ciphertext.

use vstd::prelude::*;

use crate::format::VaultHeader;

verus! {

/// A vault header and the ciphertext-with-tag it authenticates.
///
/// Framed by the codec, this pair is the exact byte-for-byte content written
/// to and read from disk.
#[derive(Debug)]
pub struct EncryptedContent {
    /// The authenticated-but-unencrypted metadata.
    pub header: VaultHeader,
    /// The ciphertext with its appended integrity tag.
    pub ciphertext: Vec<u8>,
}

impl EncryptedContent {
    /// The header's salt and nonce have their fixed sizes.
    pub open spec fn wf(&self) -> bool {
        self.header.wf()
    }

    /// Assembles an encrypted payload from its parts.
    pub fn new(header: VaultHeader, ciphertext: Vec<u8>) -> (r: Self)
        ensures
            r.header == header,
            r.ciphertext == ciphertext,
    {
        EncryptedContent { header, ciphertext }
    }
}

} // verus!
