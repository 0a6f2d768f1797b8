//! Digests of byte strings, computed by outside crates.
use crate::word::B256;
use ripemd::Digest as _;
use vstd::prelude::*;

verus! {

/// The Keccak-256 digest of `data`.
pub uninterp spec fn keccak256_of(data: Seq<u8>) -> Seq<u8>;

/// The SHA-256 digest of `data`.
pub uninterp spec fn sha256_of(data: Seq<u8>) -> Seq<u8>;

/// The RIPEMD-160 digest of `data`.
pub uninterp spec fn ripemd160_of(data: Seq<u8>) -> Seq<u8>;

/// Relies on `sha3::Keccak256::digest`: a 32-byte digest that depends on `data` alone.
#[verifier::external_body]
pub(crate) fn keccak256(data: &[u8]) -> (r: B256)
    ensures
        r.bytes@ == keccak256_of(data@),
{
    B256 { bytes: sha3::Keccak256::digest(data).into() }
}

/// Relies on `sha2::Sha256::digest`: a 32-byte digest that depends on `data` alone.
#[verifier::external_body]
pub(crate) fn sha256(data: &[u8]) -> (r: Vec<u8>)
    ensures
        r@ == sha256_of(data@),
        r@.len() == 32,
{
    sha2::Sha256::digest(data).to_vec()
}

/// Relies on `ripemd::Ripemd160::digest`: a 20-byte digest that depends on `data` alone.
#[verifier::external_body]
pub(crate) fn ripemd160(data: &[u8]) -> (r: Vec<u8>)
    ensures
        r@ == ripemd160_of(data@),
        r@.len() == 20,
{
    ripemd::Ripemd160::digest(data).to_vec()
}

/// Keccak-256 of the empty string: the code hash of an account without code.
pub open spec fn keccak_empty_bytes() -> Seq<u8> {
    seq![
            0xc5u8, 0xd2u8, 0x46u8, 0x01u8, 0x86u8, 0xf7u8, 0x23u8, 0x3cu8,
            0x92u8, 0x7eu8, 0x7du8, 0xb2u8, 0xdcu8, 0xc7u8, 0x03u8, 0xc0u8,
            0xe5u8, 0x00u8, 0xb6u8, 0x53u8, 0xcau8, 0x82u8, 0x27u8, 0x3bu8,
            0x7bu8, 0xfau8, 0xd8u8, 0x04u8, 0x5du8, 0x85u8, 0xa4u8, 0x70u8,
    ]
}

pub fn keccak_empty() -> (r: B256)
    ensures
        r.bytes@ == keccak_empty_bytes(),
{
    let r = B256 {
        bytes: [
                0xc5u8, 0xd2u8, 0x46u8, 0x01u8, 0x86u8, 0xf7u8, 0x23u8, 0x3cu8,
                0x92u8, 0x7eu8, 0x7du8, 0xb2u8, 0xdcu8, 0xc7u8, 0x03u8, 0xc0u8,
                0xe5u8, 0x00u8, 0xb6u8, 0x53u8, 0xcau8, 0x82u8, 0x27u8, 0x3bu8,
                0x7bu8, 0xfau8, 0xd8u8, 0x04u8, 0x5du8, 0x85u8, 0xa4u8, 0x70u8,
        ],
    };
    assert(r.bytes@ =~= keccak_empty_bytes());
    r
}

/// Poseidon hash of empty code, under the scheme of the rollup's zk circuits.
pub open spec fn poseidon_empty_bytes() -> Seq<u8> {
    seq![
        0x20u8, 0x98u8, 0xf5u8, 0xfbu8, 0x9eu8, 0x23u8, 0x9eu8, 0xabu8,
        0x3cu8, 0xeau8, 0xc3u8, 0xf2u8, 0x7bu8, 0x81u8, 0xe4u8, 0x81u8,
        0xdcu8, 0x31u8, 0x24u8, 0xd5u8, 0x5fu8, 0xfeu8, 0xd5u8, 0x23u8,
        0xa8u8, 0x39u8, 0xeeu8, 0x84u8, 0x46u8, 0xb6u8, 0x48u8, 0x64u8,
    ]
}

pub fn poseidon_empty() -> (r: B256)
    ensures
        r.bytes@ == poseidon_empty_bytes(),
{
    let r = B256 {
        bytes: [
            0x20u8, 0x98u8, 0xf5u8, 0xfbu8, 0x9eu8, 0x23u8, 0x9eu8, 0xabu8,
            0x3cu8, 0xeau8, 0xc3u8, 0xf2u8, 0x7bu8, 0x81u8, 0xe4u8, 0x81u8,
            0xdcu8, 0x31u8, 0x24u8, 0xd5u8, 0x5fu8, 0xfeu8, 0xd5u8, 0x23u8,
            0xa8u8, 0x39u8, 0xeeu8, 0x84u8, 0x46u8, 0xb6u8, 0x48u8, 0x64u8,
        ],
    };
    assert(r.bytes@ =~= poseidon_empty_bytes());
    r
}

/// Which hash identifies code: Keccak-256, or the Poseidon hash of the
/// rollup's zk circuits. Chosen once per engine; the Keccak-256 hash is kept
/// beside either.
#[derive(Clone, Copy, Debug, PartialEq, Eq, Structural, Hash)]
pub enum CodeHashScheme {
    Keccak,
    Poseidon,
}

/// The hash of empty code under `scheme`.
pub open spec fn empty_code_hash(scheme: CodeHashScheme) -> Seq<u8> {
    match scheme {
        CodeHashScheme::Keccak => keccak_empty_bytes(),
        CodeHashScheme::Poseidon => poseidon_empty_bytes(),
    }
}

pub fn empty_code_hash_of(scheme: CodeHashScheme) -> (r: B256)
    ensures
        r.bytes@ == empty_code_hash(scheme),
{
    match scheme {
        CodeHashScheme::Keccak => keccak_empty(),
        CodeHashScheme::Poseidon => poseidon_empty(),
    }
}

/// Code bytes packed into one Poseidon field element.
pub const POSEIDON_HASH_BYTES_IN_FIELD: usize = 31;

/// Byte `j` of message `k` of the Poseidon code hash: the code is cut into
/// 31-byte chunks, the last one zero-padded; each chunk is read as a
/// big-endian number and written as 32 little-endian bytes.
pub open spec fn poseidon_message_byte(code: Seq<u8>, k: int, j: int) -> u8 {
    let pos = 31 * k + (30 - j);
    if j < 31 && pos < code.len() { code[pos] } else { 0 }
}

/// The field-element bytes the Poseidon code hash is taken over, one per
/// started 31-byte chunk of `code`.
pub fn poseidon_messages(code: &[u8]) -> (r: Vec<[u8; 32]>)
    ensures
        r@.len() == (code@.len() + 30) / 31,
        forall|k: int, j: int|
            0 <= k < r@.len() && 0 <= j < 32 ==> #[trigger] r@[k]@[j] == poseidon_message_byte(code@, k, j),
{
    let len = code.len();
    let n: usize = len / POSEIDON_HASH_BYTES_IN_FIELD + if len % POSEIDON_HASH_BYTES_IN_FIELD != 0 { 1 } else { 0 };
    assert(n == (len + 30) / 31);
    let mut r: Vec<[u8; 32]> = Vec::new();
    let mut k: usize = 0;
    while k < n
        invariant
            len == code@.len(),
            n == (len + 30) / 31,
            k <= n,
            r@.len() == k,
            forall|kk: int, j: int|
                0 <= kk < k && 0 <= j < 32 ==> #[trigger] r@[kk]@[j] == poseidon_message_byte(code@, kk, j),
        decreases n - k,
    {
        assert(31 * k < len) by (nonlinear_arith)
            requires
                k < n,
                n == (len + 30) / 31,
        ;
        let base: usize = 31 * k;
        let mut buf = [0u8; 32];
        let mut j: usize = 0;
        while j < 32
            invariant
                len == code@.len(),
                base == 31 * k,
                base < len,
                j <= 32,
                forall|jj: int| 0 <= jj < j ==> buf@[jj] == poseidon_message_byte(code@, k as int, jj),
                forall|jj: int| j <= jj < 32 ==> buf@[jj] == 0,
            decreases 32 - j,
        {
            if j < 31 && 30 - j < len - base {
                buf.set(j, code[base + (30 - j)]);
            }
            j = j + 1;
        }
        r.push(buf);
        k = k + 1;
    }
    r
}

} // verus!
