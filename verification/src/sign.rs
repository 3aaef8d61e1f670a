//! Routing of compute-signature requests.
//!
//! The chip signs SHA-1 and SHA-256 digests natively; every other hash
//! algorithm falls back to the generic decipher path, and only when the
//! input is recognizably a DigestInfo of a known algorithm — an attacker
//! must not obtain raw private-key operations on arbitrary blocks.

use vstd::prelude::*;
use crate::algos::{spec_is_any_known_digest, is_any_known_digestAlgorithm};
use crate::rv::{SC_ERROR_NOT_SUPPORTED, SC_ERROR_WRONG_PADDING};

verus! {

/// RSA algorithm flags of the host's security environment that the
/// routing reads: a raw (unpadded) operation, and PKCS#1 v1.5 padding.
pub const SC_ALGORITHM_RSA_RAW: u32 = 0x0000_0001;
pub const SC_ALGORITHM_RSA_PAD_PKCS1: u32 = 0x0000_0002;

/// The DER prefix of a SHA-1 DigestInfo.
pub open spec fn spec_digest_prefix_sha1() -> Seq<u8> {
    seq![0x30u8, 0x21, 0x30, 0x09, 0x06, 0x05, 0x2B, 0x0E, 0x03, 0x02, 0x1A, 0x05, 0x00, 0x04,
        0x14]
}

/// The DER prefix of a SHA-256 DigestInfo.
pub open spec fn spec_digest_prefix_sha256() -> Seq<u8> {
    seq![0x30u8, 0x31, 0x30, 0x0D, 0x06, 0x09, 0x60, 0x86, 0x48, 0x01, 0x65, 0x03, 0x04, 0x02,
        0x01, 0x05, 0x00, 0x04, 0x20]
}

/// The input lengths a signature request may have: a bare SHA-1 or
/// SHA-256 hash, a DigestInfo of a recognized algorithm, or a whole
/// modulus-sized block.
pub open spec fn spec_signature_input_admissible(data_len: int, mod_len: int) -> bool {
    ||| data_len == 20
    ||| data_len == 32
    ||| data_len == 34
    ||| data_len == 35
    ||| data_len == 47
    ||| data_len == 51
    ||| data_len == 67
    ||| data_len == 83
    ||| data_len == mod_len
}

/// Checks the input length, per `spec_signature_input_admissible`; an
/// inadmissible length is refused before anything is signed.
pub fn signature_input_admissible(data_len: usize, mod_len: u16) -> (r: Result<(), i32>)
    ensures
        spec_signature_input_admissible(data_len as int, mod_len as int) ==> r == Ok::<(), i32>(()),
        !spec_signature_input_admissible(data_len as int, mod_len as int) ==> r == Err::<(), i32>(
            SC_ERROR_NOT_SUPPORTED,
        ),
{
    if data_len == 20 || data_len == 32 || data_len == 34 || data_len == 35 || data_len == 47
        || data_len == 51 || data_len == 67 || data_len == 83 || data_len == mod_len as usize {
        Ok(())
    } else {
        Err(SC_ERROR_NOT_SUPPORTED)
    }
}

/// A bare hash is wrapped into its DigestInfo before routing: twenty
/// bytes are taken for a SHA-1 digest and prefixed accordingly,
/// thirty-two for a SHA-256 digest; anything else passes unchanged.
pub open spec fn spec_with_digest_info(data: Seq<u8>) -> Seq<u8> {
    if data.len() == 20 {
        spec_digest_prefix_sha1() + data
    } else if data.len() == 32 {
        spec_digest_prefix_sha256() + data
    } else {
        data
    }
}

/// Wraps a bare hash into its DigestInfo, per `spec_with_digest_info`.
pub fn with_digest_info(data: &[u8]) -> (r: Vec<u8>)
    ensures
        r@ =~= spec_with_digest_info(data@),
{
    let mut out: Vec<u8> = Vec::new();
    if data.len() == 20 {
        push_bytes(&mut out, &[0x30, 0x21, 0x30, 0x09, 0x06, 0x05, 0x2B, 0x0E, 0x03, 0x02, 0x1A,
            0x05, 0x00, 0x04, 0x14]);
        assert(out@ =~= spec_digest_prefix_sha1());
    } else if data.len() == 32 {
        push_bytes(&mut out, &[0x30, 0x31, 0x30, 0x0D, 0x06, 0x09, 0x60, 0x86, 0x48, 0x01, 0x65,
            0x03, 0x04, 0x02, 0x01, 0x05, 0x00, 0x04, 0x20]);
        assert(out@ =~= spec_digest_prefix_sha256());
    }
    let ghost head = out@;
    let mut i: usize = 0;
    while i < data.len()
        invariant
            i <= data@.len(),
            out@ =~= head + data@.take(i as int),
        decreases data@.len() - i,
    {
        out.push(data[i]);
        i = i + 1;
    }
    assert(out@ =~= head + data@);
    out
}

/// Appends a byte string.
fn push_bytes(out: &mut Vec<u8>, bytes: &[u8])
    requires
        old(out)@.len() == 0,
    ensures
        final(out)@ =~= bytes@,
{
    let mut i: usize = 0;
    while i < bytes.len()
        invariant
            i <= bytes@.len(),
            out@ =~= bytes@.take(i as int),
        decreases bytes@.len() - i,
    {
        out.push(bytes[i]);
        i = i + 1;
    }
    assert(bytes@.take(bytes@.len() as int) =~= bytes@);
}


/// The position of the first byte at or after `i` that differs from
/// 0xFF, or `None` when all of them are 0xFF.
pub open spec fn spec_first_non_ff(s: Seq<u8>, i: int) -> Option<int>
    decreases s.len() - i
    when 0 <= i <= s.len()
{
    if i >= s.len() {
        None
    } else if s[i] != 0xFF {
        Some(i)
    } else {
        spec_first_non_ff(s, i + 1)
    }
}

/// The DigestInfo inside an EMSA-PKCS#1 v1.5 signing block, or `None`
/// when the block is not so padded: a zero byte, the block-type byte 1,
/// at least eight 0xFF fill bytes, a zero separator, then the payload.
pub open spec fn spec_strip_01(s: Seq<u8>) -> Option<Seq<u8>> {
    if s.len() < 11 || s[0] != 0 || s[1] != 1 {
        None
    } else {
        match spec_first_non_ff(s, 2) {
            None => None,
            Some(k) => if s[k] == 0 && k - 2 >= 8 {
                Some(s.skip(k + 1))
            } else {
                None
            },
        }
    }
}

/// Strips the type-01 signing padding from a modulus-sized block, per
/// `spec_strip_01`; a block not so padded is reported as wrongly padded.
pub fn strip_01_padding(block: &[u8]) -> (r: Result<Vec<u8>, i32>)
    ensures
        match spec_strip_01(block@) {
            Some(d) => r matches Ok(v) && v@ =~= d,
            None => r == Err::<Vec<u8>, i32>(SC_ERROR_WRONG_PADDING),
        },
{
    if block.len() < 11 || block[0] != 0 || block[1] != 1 {
        return Err(SC_ERROR_WRONG_PADDING);
    }
    let n: usize = block.len();
    let mut k: usize = 2;
    loop
        invariant
            2 <= k <= n,
            n == block@.len(),
            n >= 11,
            block@[0] == 0,
            block@[1] == 1,
            spec_first_non_ff(block@, 2) == spec_first_non_ff(block@, k as int),
        ensures
            k < n,
            block@[k as int] != 0xFF,
            spec_first_non_ff(block@, 2) == Some(k as int),
        decreases n - k,
    {
        if k == n {
            assert(spec_first_non_ff(block@, k as int) is None);
            return Err(SC_ERROR_WRONG_PADDING);
        }
        if block[k] != 0xFF {
            break;
        }
        k = k + 1;
    }
    if block[k] != 0 || k - 2 < 8 {
        return Err(SC_ERROR_WRONG_PADDING);
    }
    let mut out: Vec<u8> = Vec::new();
    let mut i: usize = k + 1;
    while i < n
        invariant
            k + 1 <= i <= n,
            n == block@.len(),
            out@ =~= block@.subrange(k + 1, i as int),
        decreases n - i,
    {
        out.push(block[i]);
        i = i + 1;
    }
    assert(out@ =~= block@.skip(k + 1));
    Ok(out)
}

/// The position of the first zero byte at or after `i`, or `None`.
pub open spec fn spec_first_zero(s: Seq<u8>, i: int) -> Option<int>
    decreases s.len() - i
    when 0 <= i <= s.len()
{
    if i >= s.len() {
        None
    } else if s[i] == 0 {
        Some(i)
    } else {
        spec_first_zero(s, i + 1)
    }
}

/// The message inside an EME-PKCS#1 v1.5 encryption block, or `None`
/// when the block is not so padded: a zero byte, the block-type byte 2,
/// at least eight nonzero fill bytes, a zero separator, then the message.
pub open spec fn spec_strip_02(s: Seq<u8>) -> Option<Seq<u8>> {
    if s.len() < 11 || s[0] != 0 || s[1] != 2 {
        None
    } else {
        match spec_first_zero(s, 2) {
            None => None,
            Some(k) => if k - 2 >= 8 {
                Some(s.skip(k + 1))
            } else {
                None
            },
        }
    }
}

/// What a decipher hands back to the host, decided from the deciphered
/// block: a decipher serving a signature returns the block as it is (the
/// signature is the raw result), so does a raw environment; otherwise
/// the type-02 encryption padding is stripped per `spec_strip_02`, and a
/// block not so padded is reported as wrongly padded rather than handed
/// out.
pub fn decipher_output(plain: Vec<u8>, serving_signature: bool, raw_env: bool) -> (r: Result<
    Vec<u8>,
    i32,
>)
    ensures
        serving_signature || raw_env ==> (r matches Ok(v) && v@ =~= plain@),
        !serving_signature && !raw_env ==> match spec_strip_02(plain@) {
            Some(m) => r matches Ok(v) && v@ =~= m,
            None => r == Err::<Vec<u8>, i32>(SC_ERROR_WRONG_PADDING),
        },
{
    if serving_signature || raw_env {
        return Ok(plain);
    }
    if plain.len() < 11 || plain[0] != 0 || plain[1] != 2 {
        return Err(SC_ERROR_WRONG_PADDING);
    }
    let n: usize = plain.len();
    let mut k: usize = 2;
    loop
        invariant
            2 <= k <= n,
            n == plain@.len(),
            n >= 11,
            !serving_signature,
            !raw_env,
            plain@[0] == 0,
            plain@[1] == 2,
            spec_first_zero(plain@, 2) == spec_first_zero(plain@, k as int),
        ensures
            k < n,
            plain@[k as int] == 0,
            spec_first_zero(plain@, 2) == Some(k as int),
        decreases n - k,
    {
        if k == n {
            assert(spec_first_zero(plain@, k as int) is None);
            return Err(SC_ERROR_WRONG_PADDING);
        }
        if plain[k] == 0 {
            break;
        }
        k = k + 1;
    }
    if k - 2 < 8 {
        return Err(SC_ERROR_WRONG_PADDING);
    }
    let mut out: Vec<u8> = Vec::new();
    let mut i: usize = k + 1;
    while i < n
        invariant
            k + 1 <= i <= n,
            n == plain@.len(),
            out@ =~= plain@.subrange(k + 1, i as int),
        decreases n - i,
    {
        out.push(plain[i]);
        i = i + 1;
    }
    assert(out@ =~= plain@.skip(k + 1));
    Ok(out)
}

/// Where a signature request goes.
#[derive(Clone, Copy, Debug, PartialEq, Eq, Structural)]
pub enum SignatureRoute {
    /// The card signs the digest natively: the bare hash starts at this
    /// offset of the DigestInfo.
    Native { hash_offset: usize },
    /// PKCS#1-encode the DigestInfo and run it through the decipher path.
    ViaDecipherEncoded,
    /// The block is already modulus-sized: run it through the decipher
    /// path as it stands.
    ViaDecipherRaw,
    /// Sign nothing and let the caller live with a verification error.
    Nothing,
}

/// Whether a DigestInfo is one the card signs natively: SHA-1
/// (thirty-five bytes behind the SHA-1 prefix) or SHA-256 (fifty-one
/// bytes behind the SHA-256 prefix).
pub open spec fn spec_native_digest(d: Seq<u8>) -> bool {
    ||| (d.len() == 35 && d.take(15) == spec_digest_prefix_sha1())
    ||| (d.len() == 51 && d.take(19) == spec_digest_prefix_sha256())
}

/// The route a signature request takes, per the driver's fallback rule:
/// a native digest goes to the card's signature command; any other
/// recognized DigestInfo goes to the decipher path — PKCS#1-encoded when
/// the environment demands that padding, or as the raw block when the
/// environment is raw and the block already spans the modulus; anything
/// else is not signed.  In a raw environment `digest_info` is the
/// DigestInfo behind the type-01 strip of the block (see
/// `strip_01_padding`), while `data_len` stays the block's own length.
pub open spec fn spec_signature_route(
    digest_info: Seq<u8>,
    data_len: int,
    mod_len: int,
    algo_flags: u32,
) -> SignatureRoute {
    if spec_native_digest(digest_info) {
        SignatureRoute::Native { hash_offset: if digest_info.len() == 35 { 15 } else { 19 } }
    } else if algo_flags & SC_ALGORITHM_RSA_PAD_PKCS1 != 0 && spec_is_any_known_digest(
        digest_info,
    ) {
        SignatureRoute::ViaDecipherEncoded
    } else if algo_flags & SC_ALGORITHM_RSA_RAW != 0 && data_len == mod_len
        && spec_is_any_known_digest(digest_info) {
        SignatureRoute::ViaDecipherRaw
    } else {
        SignatureRoute::Nothing
    }
}

/// Routes a signature request, per `spec_signature_route`.
pub fn compute_signature_route(
    digest_info: &[u8],
    data_len: usize,
    mod_len: u16,
    algo_flags: u32,
) -> (r: SignatureRoute)
    ensures
        r == spec_signature_route(digest_info@, data_len as int, mod_len as int, algo_flags),
{
    let native: bool = if digest_info.len() == 35 {
        prefix_matches_15(digest_info, &[0x30, 0x21, 0x30, 0x09, 0x06, 0x05, 0x2B, 0x0E, 0x03,
            0x02, 0x1A, 0x05, 0x00, 0x04, 0x14], Ghost(spec_digest_prefix_sha1()))
    } else if digest_info.len() == 51 {
        prefix_matches_19(digest_info, &[0x30, 0x31, 0x30, 0x0D, 0x06, 0x09, 0x60, 0x86, 0x48,
            0x01, 0x65, 0x03, 0x04, 0x02, 0x01, 0x05, 0x00, 0x04, 0x20], Ghost(
            spec_digest_prefix_sha256(),
        ))
    } else {
        false
    };
    if native {
        SignatureRoute::Native { hash_offset: if digest_info.len() == 35 { 15 } else { 19 } }
    } else if algo_flags & SC_ALGORITHM_RSA_PAD_PKCS1 != 0 && is_any_known_digestAlgorithm(
        digest_info,
    ) {
        SignatureRoute::ViaDecipherEncoded
    } else if algo_flags & SC_ALGORITHM_RSA_RAW != 0 && data_len == mod_len as usize
        && is_any_known_digestAlgorithm(digest_info) {
        SignatureRoute::ViaDecipherRaw
    } else {
        SignatureRoute::Nothing
    }
}


/// The EMSA-PKCS#1 v1.5 block of a DigestInfo for a modulus of `k`
/// bytes: a zero byte, the block-type byte 1, at least eight 0xFF fill
/// bytes, a zero separator, then the DigestInfo.
pub open spec fn spec_emsa_pkcs1_v15(digest_info: Seq<u8>, k: int) -> Seq<u8> {
    seq![0x00u8, 0x01] + Seq::new((k - 3 - digest_info.len()) as nat, |i: int| 0xFFu8)
        + seq![0x00u8] + digest_info
}

/// Encodes a DigestInfo into its EMSA-PKCS#1 v1.5 block, per
/// `spec_emsa_pkcs1_v15`; a modulus too small for the DigestInfo and the
/// mandatory fill is refused.
pub fn emsa_pkcs1_v15_encode(digest_info: &[u8], k: usize) -> (r: Result<Vec<u8>, i32>)
    ensures
        digest_info@.len() + 11 <= k ==> (r matches Ok(block) && block@ =~= spec_emsa_pkcs1_v15(
            digest_info@,
            k as int,
        ) && block@.len() == k),
        digest_info@.len() + 11 > k ==> r == Err::<Vec<u8>, i32>(SC_ERROR_NOT_SUPPORTED),
{
    if k < 11 || digest_info.len() > k - 11 {
        return Err(SC_ERROR_NOT_SUPPORTED);
    }
    let mut block: Vec<u8> = Vec::new();
    block.push(0x00);
    block.push(0x01);
    let fill: usize = k - 3 - digest_info.len();
    let mut i: usize = 0;
    while i < fill
        invariant
            i <= fill,
            block@ =~= seq![0x00u8, 0x01] + Seq::new(i as nat, |j: int| 0xFFu8),
        decreases fill - i,
    {
        block.push(0xFF);
        assert(block@ =~= seq![0x00u8, 0x01] + Seq::new((i + 1) as nat, |j: int| 0xFFu8));
        i = i + 1;
    }
    block.push(0x00);
    let ghost head = block@;
    let mut i: usize = 0;
    while i < digest_info.len()
        invariant
            i <= digest_info@.len(),
            block@ =~= head + digest_info@.take(i as int),
        decreases digest_info@.len() - i,
    {
        block.push(digest_info[i]);
        i = i + 1;
    }
    assert(block@ =~= head + digest_info@);
    assert(block@ =~= spec_emsa_pkcs1_v15(digest_info@, k as int));
    Ok(block)
}

/// Compares the first fifteen bytes with the prefix.
fn prefix_matches_15(d: &[u8], prefix: &[u8; 15], Ghost(p): Ghost<Seq<u8>>) -> (r: bool)
    requires
        d@.len() >= 15,
        prefix@ =~= p,
    ensures
        r == (d@.take(15) == p),
{
    let mut i: usize = 0;
    while i < 15
        invariant
            i <= 15,
            d@.len() >= 15,
            prefix@ =~= p,
            forall|k: int| 0 <= k < i ==> d@[k] == prefix@[k],
        decreases 15 - i,
    {
        if d[i] != prefix[i] {
            assert(d@.take(15)[i as int] != p[i as int]);
            return false;
        }
        i = i + 1;
    }
    assert(d@.take(15) =~= p);
    true
}

/// Compares the first nineteen bytes with the prefix.
fn prefix_matches_19(d: &[u8], prefix: &[u8; 19], Ghost(p): Ghost<Seq<u8>>) -> (r: bool)
    requires
        d@.len() >= 19,
        prefix@ =~= p,
    ensures
        r == (d@.take(19) == p),
{
    let mut i: usize = 0;
    while i < 19
        invariant
            i <= 19,
            d@.len() >= 19,
            prefix@ =~= p,
            forall|k: int| 0 <= k < i ==> d@[k] == prefix@[k],
        decreases 19 - i,
    {
        if d[i] != prefix[i] {
            assert(d@.take(19)[i as int] != p[i as int]);
            return false;
        }
        i = i + 1;
    }
    assert(d@.take(19) =~= p);
    true
}

} // verus!
