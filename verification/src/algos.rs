//! Algorithm reference tables of the card operating system: the reference
//! bytes that MSE (manage security environment) templates and symmetric
//! key headers carry for each card generation, and the recognition of
//! PKCS#1 DigestInfo prefixes.

use vstd::prelude::*;
use crate::rv::SC_ERROR_KEYPAD_MSG_TOO_LONG;
use crate::se::{CRT_TAG_CCT, CRT_TAG_CT, CRT_TAG_DST, CRT_TAG_HT};

verus! {

/// The card generations the driver serves.
pub const SC_CARD_TYPE_ACOS5_64_V2: i32 = 16002;
pub const SC_CARD_TYPE_ACOS5_64_V3: i32 = 16003;
pub const SC_CARD_TYPE_ACOS5_EVO_V4: i32 = 16004;

/// Cryptographic algorithm identifiers of the host's generic model.
pub const SC_ALGORITHM_RSA: u32 = 0;
pub const SC_ALGORITHM_EC: u32 = 2;
pub const SC_ALGORITHM_DES: u32 = 64;
pub const SC_ALGORITHM_3DES: u32 = 65;
pub const SC_ALGORITHM_AES: u32 = 67;

/// Security operations a digital-signature template may serve.
pub const SC_SEC_OPERATION_SIGN: i32 = 2;
pub const SC_SEC_OPERATION_GENERATE_RSAPRIVATE: i32 = 10;
pub const SC_SEC_OPERATION_GENERATE_ECCPRIVATE: i32 = 11;

/// The algorithm reference byte an MSE security-environment data object
/// carries, by template tag: hash templates by digest length, checksum
/// and confidentiality templates by algorithm and chaining mode, signature
/// templates by algorithm and operation — each differing between the
/// fourth card generation and the earlier ones.  A combination the card
/// has no reference for is refused.
pub open spec fn spec_algo_ref_mse_sedo(
    card_type: i32,
    sec_operation: i32,
    sedo_tag: u8,
    algorithm: u32,
    byte_len: u8,
    op_mode_cbc: bool,
) -> Result<u8, i32> {
    let v4 = card_type == SC_CARD_TYPE_ACOS5_EVO_V4;
    if sedo_tag == CRT_TAG_HT {
        if byte_len == 0x14 {
            Ok(if v4 { 0x80u8 } else { 0x20u8 })
        } else if byte_len == 0x20 {
            Ok(if v4 { 0x82u8 } else { 0x21u8 })
        } else if byte_len == 0x1C && v4 {
            Ok(0x81u8)
        } else if byte_len == 0x30 && v4 {
            Ok(0x84u8)
        } else if byte_len == 0x40 && v4 {
            Ok(0x88u8)
        } else {
            Err(SC_ERROR_KEYPAD_MSG_TOO_LONG)
        }
    } else if sedo_tag == CRT_TAG_CCT {
        if algorithm == SC_ALGORITHM_AES && v4 {
            Ok(0x15u8)
        } else if algorithm == SC_ALGORITHM_3DES {
            Ok(if v4 { 0x13u8 } else { 0x02u8 })
        } else if algorithm == SC_ALGORITHM_DES {
            Ok(if v4 { 0x11u8 } else { 0x03u8 })
        } else {
            Err(SC_ERROR_KEYPAD_MSG_TOO_LONG)
        }
    } else if sedo_tag == CRT_TAG_DST {
        if algorithm == SC_ALGORITHM_RSA && sec_operation == SC_SEC_OPERATION_SIGN {
            Ok(if v4 { 0x20u8 } else { 0x10u8 })
        } else if algorithm == SC_ALGORITHM_RSA && sec_operation
            == SC_SEC_OPERATION_GENERATE_RSAPRIVATE {
            Ok(if v4 { 0x22u8 } else { 0x10u8 })
        } else if algorithm == SC_ALGORITHM_EC && sec_operation == SC_SEC_OPERATION_SIGN && v4 {
            Ok(0x40u8)
        } else if algorithm == SC_ALGORITHM_EC && sec_operation
            == SC_SEC_OPERATION_GENERATE_ECCPRIVATE && v4 {
            Ok(0x42u8)
        } else {
            Err(SC_ERROR_KEYPAD_MSG_TOO_LONG)
        }
    } else if sedo_tag == CRT_TAG_CT {
        if algorithm == SC_ALGORITHM_RSA {
            Ok(if v4 { 0x24u8 } else { 0x12u8 })
        } else if algorithm == SC_ALGORITHM_EC && v4 {
            Ok(0x00u8)
        } else if algorithm == SC_ALGORITHM_AES {
            Ok(if op_mode_cbc {
                if v4 { 0x15u8 } else { 0x06u8 }
            } else {
                if v4 { 0x14u8 } else { 0x04u8 }
            })
        } else if algorithm == SC_ALGORITHM_3DES {
            Ok(if op_mode_cbc {
                if v4 { 0x13u8 } else { 0x02u8 }
            } else {
                if v4 { 0x12u8 } else { 0x00u8 }
            })
        } else if algorithm == SC_ALGORITHM_DES {
            Ok(if op_mode_cbc {
                if v4 { 0x11u8 } else { 0x03u8 }
            } else {
                if v4 { 0x10u8 } else { 0x01u8 }
            })
        } else {
            Err(SC_ERROR_KEYPAD_MSG_TOO_LONG)
        }
    } else {
        Err(SC_ERROR_KEYPAD_MSG_TOO_LONG)
    }
}

/// Looks up the MSE algorithm reference byte, per `spec_algo_ref_mse_sedo`.
/// The `ecies` and `cmac` parameters are accepted for the fourth
/// generation's future modes; no reference depends on them yet.
pub fn algo_ref_mse_sedo(
    card_type: i32,
    sec_operation: i32,
    sedo_tag: u8,
    algorithm: u32,
    byte_len: u8,
    ecies: u8,
    op_mode_cbc: bool,
    cmac: bool,
) -> (r: Result<u8, i32>)
    ensures
        r == spec_algo_ref_mse_sedo(
            card_type,
            sec_operation,
            sedo_tag,
            algorithm,
            byte_len,
            op_mode_cbc,
        ),
{
    let _ = ecies;
    let _ = cmac;
    let v4: bool = card_type == SC_CARD_TYPE_ACOS5_EVO_V4;
    if sedo_tag == CRT_TAG_HT {
        if byte_len == 0x14 {
            Ok(if v4 { 0x80 } else { 0x20 })
        } else if byte_len == 0x20 {
            Ok(if v4 { 0x82 } else { 0x21 })
        } else if byte_len == 0x1C && v4 {
            Ok(0x81)
        } else if byte_len == 0x30 && v4 {
            Ok(0x84)
        } else if byte_len == 0x40 && v4 {
            Ok(0x88)
        } else {
            Err(SC_ERROR_KEYPAD_MSG_TOO_LONG)
        }
    } else if sedo_tag == CRT_TAG_CCT {
        if algorithm == SC_ALGORITHM_AES && v4 {
            Ok(0x15)
        } else if algorithm == SC_ALGORITHM_3DES {
            Ok(if v4 { 0x13 } else { 0x02 })
        } else if algorithm == SC_ALGORITHM_DES {
            Ok(if v4 { 0x11 } else { 0x03 })
        } else {
            Err(SC_ERROR_KEYPAD_MSG_TOO_LONG)
        }
    } else if sedo_tag == CRT_TAG_DST {
        if algorithm == SC_ALGORITHM_RSA && sec_operation == SC_SEC_OPERATION_SIGN {
            Ok(if v4 { 0x20 } else { 0x10 })
        } else if algorithm == SC_ALGORITHM_RSA && sec_operation
            == SC_SEC_OPERATION_GENERATE_RSAPRIVATE {
            Ok(if v4 { 0x22 } else { 0x10 })
        } else if algorithm == SC_ALGORITHM_EC && sec_operation == SC_SEC_OPERATION_SIGN && v4 {
            Ok(0x40)
        } else if algorithm == SC_ALGORITHM_EC && sec_operation
            == SC_SEC_OPERATION_GENERATE_ECCPRIVATE && v4 {
            Ok(0x42)
        } else {
            Err(SC_ERROR_KEYPAD_MSG_TOO_LONG)
        }
    } else if sedo_tag == CRT_TAG_CT {
        if algorithm == SC_ALGORITHM_RSA {
            Ok(if v4 { 0x24 } else { 0x12 })
        } else if algorithm == SC_ALGORITHM_EC && v4 {
            Ok(0x00)
        } else if algorithm == SC_ALGORITHM_AES {
            Ok(if op_mode_cbc {
                if v4 { 0x15 } else { 0x06 }
            } else {
                if v4 { 0x14 } else { 0x04 }
            })
        } else if algorithm == SC_ALGORITHM_3DES {
            Ok(if op_mode_cbc {
                if v4 { 0x13 } else { 0x02 }
            } else {
                if v4 { 0x12 } else { 0x00 }
            })
        } else if algorithm == SC_ALGORITHM_DES {
            Ok(if op_mode_cbc {
                if v4 { 0x11 } else { 0x03 }
            } else {
                if v4 { 0x10 } else { 0x01 }
            })
        } else {
            Err(SC_ERROR_KEYPAD_MSG_TOO_LONG)
        }
    } else {
        Err(SC_ERROR_KEYPAD_MSG_TOO_LONG)
    }
}

/// The reference byte a symmetric key's header carries for its algorithm
/// and key length: AES in three lengths, two-key and three-key triple DES,
/// and single DES — again differing between the fourth generation and the
/// earlier ones.  An unsupported combination is refused with a plain -1,
/// as the header builder reports it.
pub open spec fn spec_algo_ref_sym_store(card_type: i32, algorithm: u32, key_len_bytes: u8) -> Result<
    u8,
    i32,
> {
    let v4 = card_type == SC_CARD_TYPE_ACOS5_EVO_V4;
    if algorithm == SC_ALGORITHM_AES {
        if key_len_bytes == 16 {
            Ok(if v4 { 0x22u8 } else { 0x02u8 })
        } else if key_len_bytes == 24 {
            Ok(if v4 { 0x24u8 } else { 0x12u8 })
        } else if key_len_bytes == 32 {
            Ok(if v4 { 0x28u8 } else { 0x22u8 })
        } else {
            Err(-1i32)
        }
    } else if algorithm == SC_ALGORITHM_3DES {
        if key_len_bytes == 16 {
            Ok(if v4 { 0x12u8 } else { 0x04u8 })
        } else if key_len_bytes == 24 {
            Ok(0x14u8)
        } else {
            Err(-1i32)
        }
    } else if algorithm == SC_ALGORITHM_DES {
        if key_len_bytes == 8 {
            Ok(if v4 { 0x11u8 } else { 0x05u8 })
        } else {
            Err(-1i32)
        }
    } else {
        Err(-1i32)
    }
}

/// Looks up the stored-key algorithm reference, per
/// `spec_algo_ref_sym_store`.
pub fn algo_ref_sym_store(card_type: i32, algorithm: u32, key_len_bytes: u8) -> (r: Result<u8, i32>)
    ensures
        r == spec_algo_ref_sym_store(card_type, algorithm, key_len_bytes),
{
    let v4: bool = card_type == SC_CARD_TYPE_ACOS5_EVO_V4;
    if algorithm == SC_ALGORITHM_AES {
        if key_len_bytes == 16 {
            Ok(if v4 { 0x22 } else { 0x02 })
        } else if key_len_bytes == 24 {
            Ok(if v4 { 0x24 } else { 0x12 })
        } else if key_len_bytes == 32 {
            Ok(if v4 { 0x28 } else { 0x22 })
        } else {
            Err(-1)
        }
    } else if algorithm == SC_ALGORITHM_3DES {
        if key_len_bytes == 16 {
            Ok(if v4 { 0x12 } else { 0x04 })
        } else if key_len_bytes == 24 {
            Ok(0x14)
        } else {
            Err(-1)
        }
    } else if algorithm == SC_ALGORITHM_DES {
        if key_len_bytes == 8 {
            Ok(if v4 { 0x11 } else { 0x05 })
        } else {
            Err(-1)
        }
    } else {
        Err(-1)
    }
}

/// The DER prefixes (DigestInfo up to and including the OCTET STRING
/// header) of the hash algorithms recognized beyond SHA-1 and SHA-256,
/// each paired with the total DigestInfo length it implies.
pub open spec fn spec_digest_prefix_ripemd160() -> Seq<u8> {
    seq![0x30u8, 0x21, 0x30, 0x09, 0x06, 0x05, 0x2B, 0x24, 0x03, 0x02, 0x01, 0x05, 0x00, 0x04,
        0x14]
}

pub open spec fn spec_digest_prefix_md2() -> Seq<u8> {
    seq![0x30u8, 0x20, 0x30, 0x0C, 0x06, 0x08, 0x2A, 0x86, 0x48, 0x86, 0xF7, 0x0D, 0x02, 0x02,
        0x05, 0x00, 0x04, 0x10]
}

pub open spec fn spec_digest_prefix_md5() -> Seq<u8> {
    seq![0x30u8, 0x20, 0x30, 0x0C, 0x06, 0x08, 0x2A, 0x86, 0x48, 0x86, 0xF7, 0x0D, 0x02, 0x05,
        0x05, 0x00, 0x04, 0x10]
}

pub open spec fn spec_digest_prefix_sha224() -> Seq<u8> {
    seq![0x30u8, 0x2D, 0x30, 0x0D, 0x06, 0x09, 0x60, 0x86, 0x48, 0x01, 0x65, 0x03, 0x04, 0x02,
        0x04, 0x05, 0x00, 0x04, 0x1C]
}

pub open spec fn spec_digest_prefix_sha512_224() -> Seq<u8> {
    seq![0x30u8, 0x2D, 0x30, 0x0D, 0x06, 0x09, 0x60, 0x86, 0x48, 0x01, 0x65, 0x03, 0x04, 0x02,
        0x05, 0x05, 0x00, 0x04, 0x1C]
}

pub open spec fn spec_digest_prefix_sha512_256() -> Seq<u8> {
    seq![0x30u8, 0x31, 0x30, 0x0D, 0x06, 0x09, 0x60, 0x86, 0x48, 0x01, 0x65, 0x03, 0x04, 0x02,
        0x06, 0x05, 0x00, 0x04, 0x20]
}

pub open spec fn spec_digest_prefix_sha384() -> Seq<u8> {
    seq![0x30u8, 0x41, 0x30, 0x0D, 0x06, 0x09, 0x60, 0x86, 0x48, 0x01, 0x65, 0x03, 0x04, 0x02,
        0x02, 0x05, 0x00, 0x04, 0x30]
}

pub open spec fn spec_digest_prefix_sha512() -> Seq<u8> {
    seq![0x30u8, 0x51, 0x30, 0x0D, 0x06, 0x09, 0x60, 0x86, 0x48, 0x01, 0x65, 0x03, 0x04, 0x02,
        0x03, 0x05, 0x00, 0x04, 0x40]
}

/// Whether the bytes are a DigestInfo of one of the recognized hash
/// algorithms other than SHA-1 and SHA-256: the length must be one the
/// recognized algorithms produce and the bytes must start with the
/// matching DER prefix.
pub open spec fn spec_is_any_known_digest(d: Seq<u8>) -> bool {
    if d.len() == 35 {
        d.take(15) == spec_digest_prefix_ripemd160()
    } else if d.len() == 34 {
        d.take(18) == spec_digest_prefix_md2() || d.take(18) == spec_digest_prefix_md5()
    } else if d.len() == 47 {
        d.take(19) == spec_digest_prefix_sha224() || d.take(19) == spec_digest_prefix_sha512_224()
    } else if d.len() == 51 {
        d.take(19) == spec_digest_prefix_sha512_256()
    } else if d.len() == 67 {
        d.take(19) == spec_digest_prefix_sha384()
    } else if d.len() == 83 {
        d.take(19) == spec_digest_prefix_sha512()
    } else {
        false
    }
}

/// Decides whether a signature input is a DigestInfo of a recognized hash
/// algorithm (other than SHA-1 / SHA-256, which the chip signs natively),
/// per `spec_is_any_known_digest`: the guess that routes such input to the
/// decipher-based signing path.
#[allow(non_snake_case)]
pub fn is_any_known_digestAlgorithm(digest_info: &[u8]) -> (r: bool)
    ensures
        r == spec_is_any_known_digest(digest_info@),
{
    if digest_info.len() == 35 {
        starts_with_15(digest_info, &[0x30, 0x21, 0x30, 0x09, 0x06, 0x05, 0x2B, 0x24, 0x03, 0x02,
            0x01, 0x05, 0x00, 0x04, 0x14], Ghost(spec_digest_prefix_ripemd160()))
    } else if digest_info.len() == 34 {
        starts_with_18(digest_info, &[0x30, 0x20, 0x30, 0x0C, 0x06, 0x08, 0x2A, 0x86, 0x48, 0x86,
            0xF7, 0x0D, 0x02, 0x02, 0x05, 0x00, 0x04, 0x10], Ghost(spec_digest_prefix_md2()))
            || starts_with_18(digest_info, &[0x30, 0x20, 0x30, 0x0C, 0x06, 0x08, 0x2A, 0x86, 0x48,
            0x86, 0xF7, 0x0D, 0x02, 0x05, 0x05, 0x00, 0x04, 0x10], Ghost(spec_digest_prefix_md5()))
    } else if digest_info.len() == 47 {
        starts_with_19(digest_info, &[0x30, 0x2D, 0x30, 0x0D, 0x06, 0x09, 0x60, 0x86, 0x48, 0x01,
            0x65, 0x03, 0x04, 0x02, 0x04, 0x05, 0x00, 0x04, 0x1C], Ghost(
            spec_digest_prefix_sha224(),
        )) || starts_with_19(digest_info, &[0x30, 0x2D, 0x30, 0x0D, 0x06, 0x09, 0x60, 0x86, 0x48,
            0x01, 0x65, 0x03, 0x04, 0x02, 0x05, 0x05, 0x00, 0x04, 0x1C], Ghost(
            spec_digest_prefix_sha512_224(),
        ))
    } else if digest_info.len() == 51 {
        starts_with_19(digest_info, &[0x30, 0x31, 0x30, 0x0D, 0x06, 0x09, 0x60, 0x86, 0x48, 0x01,
            0x65, 0x03, 0x04, 0x02, 0x06, 0x05, 0x00, 0x04, 0x20], Ghost(
            spec_digest_prefix_sha512_256(),
        ))
    } else if digest_info.len() == 67 {
        starts_with_19(digest_info, &[0x30, 0x41, 0x30, 0x0D, 0x06, 0x09, 0x60, 0x86, 0x48, 0x01,
            0x65, 0x03, 0x04, 0x02, 0x02, 0x05, 0x00, 0x04, 0x30], Ghost(
            spec_digest_prefix_sha384(),
        ))
    } else if digest_info.len() == 83 {
        starts_with_19(digest_info, &[0x30, 0x51, 0x30, 0x0D, 0x06, 0x09, 0x60, 0x86, 0x48, 0x01,
            0x65, 0x03, 0x04, 0x02, 0x03, 0x05, 0x00, 0x04, 0x40], Ghost(
            spec_digest_prefix_sha512(),
        ))
    } else {
        false
    }
}

/// Compares the first fifteen bytes with the prefix.
fn starts_with_15(d: &[u8], prefix: &[u8; 15], Ghost(p): Ghost<Seq<u8>>) -> (r: bool)
    requires
        d@.len() >= 15,
        prefix@ =~= p,
    ensures
        r == (d@.take(15) == p),
{
    starts_with(d, prefix.as_slice(), Ghost(p))
}

/// Compares the first eighteen bytes with the prefix.
fn starts_with_18(d: &[u8], prefix: &[u8; 18], Ghost(p): Ghost<Seq<u8>>) -> (r: bool)
    requires
        d@.len() >= 18,
        prefix@ =~= p,
    ensures
        r == (d@.take(18) == p),
{
    starts_with(d, prefix.as_slice(), Ghost(p))
}

/// Compares the first nineteen bytes with the prefix.
fn starts_with_19(d: &[u8], prefix: &[u8; 19], Ghost(p): Ghost<Seq<u8>>) -> (r: bool)
    requires
        d@.len() >= 19,
        prefix@ =~= p,
    ensures
        r == (d@.take(19) == p),
{
    starts_with(d, prefix.as_slice(), Ghost(p))
}

/// Whether `d` starts with `prefix`.
fn starts_with(d: &[u8], prefix: &[u8], Ghost(p): Ghost<Seq<u8>>) -> (r: bool)
    requires
        d@.len() >= prefix@.len(),
        prefix@ =~= p,
    ensures
        r == (d@.take(prefix@.len() as int) == p),
{
    let mut i: usize = 0;
    while i < prefix.len()
        invariant
            i <= prefix@.len(),
            d@.len() >= prefix@.len(),
            prefix@ =~= p,
            forall|k: int| 0 <= k < i ==> d@[k] == prefix@[k],
        decreases prefix@.len() - i,
    {
        if d[i] != prefix[i] {
            assert(d@.take(prefix@.len() as int)[i as int] != p[i as int]);
            return false;
        }
        i = i + 1;
    }
    assert(d@.take(prefix@.len() as int) =~= p);
    true
}

} // verus!
