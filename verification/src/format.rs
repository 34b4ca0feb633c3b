//! The binary layout of a vault file.
//!
//! A vault file is a fixed 61-byte header followed by the ciphertext:
//!
//! | offset | size | field                                   |
//! |--------|------|-----------------------------------------|
//! | 0      | 4    | magic bytes                             |
//! | 4      | 1    | format version (currently 1)            |
//! | 5      | 32   | salt                                    |
//! | 37     | 4    | memory cost, little-endian u32          |
//! | 41     | 4    | time cost, little-endian u32            |
//! | 45     | 4    | parallelism cost, little-endian u32     |
//! | 49     | 12   | nonce                                   |
//! | 61     | N    | ciphertext with appended integrity tag  |

use vstd::prelude::*;

use crate::error::SerdeVaultError;

verus! {

/// First magic byte, `b'S'`.
pub const MAGIC_0: u8 = 0x53;

/// Second magic byte, `b'V'`.
pub const MAGIC_1: u8 = 0x56;

/// Third magic byte, `b'L'`.
pub const MAGIC_2: u8 = 0x4c;

/// Fourth magic byte, `b'T'`.
pub const MAGIC_3: u8 = 0x54;

/// The single format version this build reads and writes.
pub const FORMAT_VERSION: u8 = 1;

/// Salt length in bytes.
pub const SALT_SIZE: usize = 32;

/// Nonce length in bytes (the AES-GCM standard 96-bit nonce).
pub const NONCE_SIZE: usize = 12;

/// Fixed header length: magic, version, salt, three costs, nonce.
pub const HEADER_SIZE: usize = 4 + 1 + 32 + 4 + 4 + 4 + 12;

/// The four magic bytes as a sequence.
pub open spec fn magic_seq() -> Seq<u8> {
    seq![MAGIC_0, MAGIC_1, MAGIC_2, MAGIC_3]
}

/// The four little-endian bytes of `x`, least significant first.
pub open spec fn u32_le_bytes(x: u32) -> Seq<u8> {
    seq![
        (x & 0xff) as u8,
        ((x >> 8) & 0xff) as u8,
        ((x >> 16) & 0xff) as u8,
        ((x >> 24) & 0xff) as u8,
    ]
}

/// The u32 encoded by four little-endian bytes, least significant first.
pub open spec fn u32_from_le_bytes(b: Seq<u8>) -> u32
    recommends
        b.len() == 4,
{
    (b[0] + b[1] * 0x100 + b[2] * 0x1_0000 + b[3] * 0x100_0000) as u32
}

/// Little-endian encoding and decoding of a u32 are inverses.
pub proof fn lemma_u32_le_round_trip(x: u32)
    ensures
        u32_from_le_bytes(u32_le_bytes(x)) == x,
{
    let b = u32_le_bytes(x);
    assert((x & 0xff) + ((x >> 8) & 0xff) * 0x100 + ((x >> 16) & 0xff) * 0x1_0000 + ((x >> 24)
        & 0xff) * 0x100_0000 == x) by (bit_vector);
    assert((x & 0xff) < 0x100 && ((x >> 8) & 0xff) < 0x100 && ((x >> 16) & 0xff) < 0x100 && ((x
        >> 24) & 0xff) < 0x100) by (bit_vector);
    assert(b[0] == (x & 0xff) && b[1] == ((x >> 8) & 0xff) && b[2] == ((x >> 16) & 0xff) && b[3]
        == ((x >> 24) & 0xff));
}

/// The authenticated-but-unencrypted metadata of a vault file.
#[derive(Debug)]
pub struct VaultHeader {
    /// Random salt for key derivation; fresh on every save.
    pub salt: Vec<u8>,
    /// Argon2id memory cost in KiB blocks.
    pub m_cost: u32,
    /// Argon2id iteration count.
    pub t_cost: u32,
    /// Argon2id degree of parallelism.
    pub p_cost: u32,
    /// Random nonce for the cipher; fresh on every save.
    pub nonce: Vec<u8>,
}

impl VaultHeader {
    /// The salt and nonce have their fixed sizes.
    pub open spec fn wf(&self) -> bool {
        &&& self.salt@.len() == SALT_SIZE
        &&& self.nonce@.len() == NONCE_SIZE
    }
}

/// The full file image framing the given header fields and ciphertext.
pub open spec fn encode_spec(
    salt: Seq<u8>,
    m_cost: u32,
    t_cost: u32,
    p_cost: u32,
    nonce: Seq<u8>,
    ct: Seq<u8>,
) -> Seq<u8> {
    magic_seq() + seq![FORMAT_VERSION] + salt + u32_le_bytes(m_cost) + u32_le_bytes(t_cost)
        + u32_le_bytes(p_cost) + nonce + ct
}

/// The frame is long enough and carries the right magic and version.
pub open spec fn well_formed_frame(data: Seq<u8>) -> bool {
    &&& data.len() >= HEADER_SIZE
    &&& data.subrange(0, 4) == magic_seq()
    &&& data[4] == FORMAT_VERSION
}

/// The salt field of a well-formed frame.
pub open spec fn frame_salt(data: Seq<u8>) -> Seq<u8> {
    data.subrange(5, 37)
}

/// The memory-cost field of a well-formed frame.
pub open spec fn frame_m_cost(data: Seq<u8>) -> u32 {
    u32_from_le_bytes(data.subrange(37, 41))
}

/// The time-cost field of a well-formed frame.
pub open spec fn frame_t_cost(data: Seq<u8>) -> u32 {
    u32_from_le_bytes(data.subrange(41, 45))
}

/// The parallelism-cost field of a well-formed frame.
pub open spec fn frame_p_cost(data: Seq<u8>) -> u32 {
    u32_from_le_bytes(data.subrange(45, 49))
}

/// The nonce field of a well-formed frame.
pub open spec fn frame_nonce(data: Seq<u8>) -> Seq<u8> {
    data.subrange(49, 61)
}

/// The ciphertext that follows the fixed header.
pub open spec fn frame_ciphertext(data: Seq<u8>) -> Seq<u8> {
    data.subrange(61, data.len() as int)
}

/// Appends all of `src` to `out`.
fn push_all(out: &mut Vec<u8>, src: &[u8])
    ensures
        final(out)@ == old(out)@ + src@,
{
    let n = src.len();
    for i in 0..n
        invariant
            n == src@.len(),
            out@ == old(out)@ + src@.take(i as int),
    {
        out.push(src[i]);
        assert(out@ =~= old(out)@ + src@.take(i + 1));
    }
    assert(out@ =~= old(out)@ + src@);
}

/// Appends the four little-endian bytes of `x` to `out`.
fn push_u32_le(out: &mut Vec<u8>, x: u32)
    ensures
        final(out)@ == old(out)@ + u32_le_bytes(x),
{
    assert((x & 0xff) < 0x100 && ((x >> 8) & 0xff) < 0x100 && ((x >> 16) & 0xff) < 0x100 && ((x
        >> 24) & 0xff) < 0x100) by (bit_vector);
    out.push((x & 0xff) as u8);
    out.push(((x >> 8) & 0xff) as u8);
    out.push(((x >> 16) & 0xff) as u8);
    out.push(((x >> 24) & 0xff) as u8);
    assert(out@ =~= old(out)@ + u32_le_bytes(x));
}

/// Copies `data[start..end]` into a fresh vector.
fn copy_range(data: &[u8], start: usize, end: usize) -> (r: Vec<u8>)
    requires
        start <= end <= data@.len(),
    ensures
        r@ == data@.subrange(start as int, end as int),
{
    let mut out: Vec<u8> = Vec::new();
    for i in start..end
        invariant
            start <= end <= data@.len(),
            out@ == data@.subrange(start as int, i as int),
    {
        out.push(data[i]);
        assert(out@ =~= data@.subrange(start as int, i + 1));
    }
    out
}

/// Serializes the header and ciphertext into the on-disk byte image.
///
/// Encoding is a plain field concatenation and never fails.
pub fn encode(header: &VaultHeader, ciphertext: &[u8]) -> (r: Vec<u8>)
    requires
        header.wf(),
    ensures
        r@ == encode_spec(
            header.salt@,
            header.m_cost,
            header.t_cost,
            header.p_cost,
            header.nonce@,
            ciphertext@,
        ),
        r@.len() == HEADER_SIZE + ciphertext@.len(),
{
    let mut out: Vec<u8> = Vec::new();
    out.push(MAGIC_0);
    out.push(MAGIC_1);
    out.push(MAGIC_2);
    out.push(MAGIC_3);
    out.push(FORMAT_VERSION);
    push_all(&mut out, header.salt.as_slice());
    push_u32_le(&mut out, header.m_cost);
    push_u32_le(&mut out, header.t_cost);
    push_u32_le(&mut out, header.p_cost);
    push_all(&mut out, header.nonce.as_slice());
    push_all(&mut out, ciphertext);
    assert(out@ =~= encode_spec(
        header.salt@,
        header.m_cost,
        header.t_cost,
        header.p_cost,
        header.nonce@,
        ciphertext@,
    ));
    out
}

/// Reads the u32 stored little-endian at `data[off..off + 4]`.
fn read_u32_le(data: &[u8], off: usize) -> (r: u32)
    requires
        off + 4 <= data@.len(),
    ensures
        r == u32_from_le_bytes(data@.subrange(off as int, off as int + 4)),
{
    let b0 = data[off] as u32;
    let b1 = data[off + 1] as u32;
    let b2 = data[off + 2] as u32;
    let b3 = data[off + 3] as u32;
    let r = b0 + b1 * 0x100 + b2 * 0x1_0000 + b3 * 0x100_0000;
    assert(data@.subrange(off as int, off as int + 4)[0] == data@[off as int]);
    assert(data@.subrange(off as int, off as int + 4)[1] == data@[off as int + 1]);
    assert(data@.subrange(off as int, off as int + 4)[2] == data@[off as int + 2]);
    assert(data@.subrange(off as int, off as int + 4)[3] == data@[off as int + 3]);
    r
}

/// Parses the binary vault format into a header and the trailing ciphertext.
///
/// Validation order: length, then magic bytes, then version byte.  No
/// cryptographic work happens here.
pub fn decode(data: &[u8]) -> (r: Result<(VaultHeader, Vec<u8>), SerdeVaultError>)
    ensures
        r is Ok <==> well_formed_frame(data@),
        r matches Ok(h_ct) ==> ({
            &&& h_ct.0.wf()
            &&& h_ct.0.salt@ == frame_salt(data@)
            &&& h_ct.0.m_cost == frame_m_cost(data@)
            &&& h_ct.0.t_cost == frame_t_cost(data@)
            &&& h_ct.0.p_cost == frame_p_cost(data@)
            &&& h_ct.0.nonce@ == frame_nonce(data@)
            &&& h_ct.1@ == frame_ciphertext(data@)
        }),
        data@.len() < HEADER_SIZE ==> r matches Err(SerdeVaultError::InvalidFormat(_)),
        data@.len() >= HEADER_SIZE && data@.subrange(0, 4) != magic_seq() ==> r matches Err(
            SerdeVaultError::InvalidFormat(_),
        ),
        data@.len() >= HEADER_SIZE && data@.subrange(0, 4) == magic_seq() && data@[4]
            != FORMAT_VERSION ==> (r matches Err(SerdeVaultError::UnsupportedVersion(v)) && v
            == data@[4]),
{
    if data.len() < HEADER_SIZE {
        return Err(SerdeVaultError::InvalidFormat(("file too small").to_owned()));
    }
    if data[0] != MAGIC_0 || data[1] != MAGIC_1 || data[2] != MAGIC_2 || data[3] != MAGIC_3 {
        proof {
            assert(data@.subrange(0, 4)[0] == data@[0]);
            assert(data@.subrange(0, 4)[1] == data@[1]);
            assert(data@.subrange(0, 4)[2] == data@[2]);
            assert(data@.subrange(0, 4)[3] == data@[3]);
        }
        return Err(
            SerdeVaultError::InvalidFormat(("invalid magic number - not a vault file").to_owned()),
        );
    }
    proof {
        assert(data@.subrange(0, 4) =~= magic_seq());
    }
    let version = data[4];
    if version != FORMAT_VERSION {
        return Err(SerdeVaultError::UnsupportedVersion(version));
    }
    let salt = copy_range(data, 5, 37);
    let m_cost = read_u32_le(data, 37);
    let t_cost = read_u32_le(data, 41);
    let p_cost = read_u32_le(data, 45);
    let nonce = copy_range(data, 49, 61);
    let ciphertext = copy_range(data, 61, data.len());
    let header = VaultHeader { salt, m_cost, t_cost, p_cost, nonce };
    Ok((header, ciphertext))
}

/// Decoding undoes encoding: a frame assembled from any salt and nonce of the
/// right sizes, any cost parameters and any ciphertext is well formed, and
/// every field read back from it is the field that went in.
pub proof fn lemma_frame_round_trip(
    salt: Seq<u8>,
    m_cost: u32,
    t_cost: u32,
    p_cost: u32,
    nonce: Seq<u8>,
    ct: Seq<u8>,
)
    requires
        salt.len() == SALT_SIZE,
        nonce.len() == NONCE_SIZE,
    ensures
        ({
            let data = encode_spec(salt, m_cost, t_cost, p_cost, nonce, ct);
            &&& data.len() == HEADER_SIZE + ct.len()
            &&& well_formed_frame(data)
            &&& frame_salt(data) == salt
            &&& frame_m_cost(data) == m_cost
            &&& frame_t_cost(data) == t_cost
            &&& frame_p_cost(data) == p_cost
            &&& frame_nonce(data) == nonce
            &&& frame_ciphertext(data) == ct
        }),
{
    let data = encode_spec(salt, m_cost, t_cost, p_cost, nonce, ct);
    assert(data.len() == HEADER_SIZE + ct.len());
    assert(data.subrange(0, 4) =~= magic_seq());
    assert(frame_salt(data) =~= salt);
    assert(data.subrange(37, 41) =~= u32_le_bytes(m_cost));
    assert(data.subrange(41, 45) =~= u32_le_bytes(t_cost));
    assert(data.subrange(45, 49) =~= u32_le_bytes(p_cost));
    lemma_u32_le_round_trip(m_cost);
    lemma_u32_le_round_trip(t_cost);
    lemma_u32_le_round_trip(p_cost);
    assert(frame_nonce(data) =~= nonce);
    assert(frame_ciphertext(data) =~= ct);
}

} // verus!
