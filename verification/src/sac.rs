//! Security Attributes Compact (SAC) codec.
//!
//! The chip stores the access conditions of a file as a compact byte string
//! under the FCI tag for SAC: an Access-Mode byte whose set bits say which
//! of the eight operation slots follow, then one Security-Condition Byte
//! (SCB) per set bit, highest bit first.  The driver expands that string to
//! the canonical eight-slot array `scb8` and, for file creation, encodes an
//! access-control list back into the compact form.

use vstd::prelude::*;
use crate::rv::{SC_ERROR_KEYPAD_MSG_TOO_LONG, SC_ERROR_NOT_ALLOWED};

verus! {

/// Whether bit `pos` (0 = least significant) of `amb` is set.
pub open spec fn bit_set(amb: u8, pos: u8) -> bool {
    (amb >> pos) & 1 == 1
}

/// How many bits of `amb` at positions `lo..8` are set.
pub open spec fn set_bits_from(amb: u8, lo: u8) -> int
    decreases 8 - lo,
{
    if lo >= 8 {
        0
    } else {
        (if bit_set(amb, lo) { 1int } else { 0int }) + set_bits_from(amb, (lo + 1) as u8)
    }
}

pub proof fn lemma_set_bits_from_bound(amb: u8, lo: u8)
    ensures
        0 <= set_bits_from(amb, lo) <= (if lo <= 8 { 8 - lo } else { 0int }),
    decreases 8 - lo,
{
    if lo < 8 {
        lemma_set_bits_from_bound(amb, (lo + 1) as u8);
    }
}

pub proof fn lemma_set_bits_from_monotonic(amb: u8, lo1: u8, lo2: u8)
    requires
        lo1 <= lo2,
    ensures
        set_bits_from(amb, lo1) >= set_bits_from(amb, lo2),
    decreases lo2 - lo1,
{
    if lo1 < lo2 {
        lemma_set_bits_from_monotonic(amb, (lo1 + 1) as u8, lo2);
    }
}

/// Counts the set bits of `x`.
fn popcount8(x: u8) -> (r: u8)
    ensures
        r == set_bits_from(x, 0),
{
    let mut r: u8 = 0;
    let mut lo: u8 = 8;
    while lo > 0
        invariant
            lo <= 8,
            r == set_bits_from(x, lo),
            r <= 8 - lo,
        decreases lo,
    {
        proof {
            lemma_set_bits_from_bound(x, (lo - 1) as u8);
        }
        lo = lo - 1;
        if (x >> lo) & 1 == 1 {
            r = r + 1;
        }
    }
    r
}

/// The SCB that slot `pos` of the expanded array carries for the compact
/// string `sac` (`sac[0]` is the Access-Mode byte, the remaining bytes are
/// the SCBs of the set bits, highest bit first).  A slot whose bit is clear
/// keeps the default: free (0x00), except slot 7, which the chip does not
/// use and which is marked forbidden (0xFF).
pub open spec fn spec_scb_slot(sac: Seq<u8>, pos: u8) -> u8 {
    if sac.len() == 0 {
        if pos == 7 { 0xFF } else { 0x00 }
    } else if bit_set(sac[0], pos) {
        sac[1 + set_bits_from(sac[0], (pos + 1) as u8)]
    } else {
        if pos == 7 { 0xFF } else { 0x00 }
    }
}

/// The whole expanded array as a sequence of eight SCBs.
pub open spec fn spec_scb8(sac: Seq<u8>) -> Seq<u8> {
    Seq::new(8, |i: int| spec_scb_slot(sac, i as u8))
}

/// A compact SAC string is consistent when the count of SCBs that follow
/// the Access-Mode byte equals the count of its set bits.  The empty string
/// is the chip's encoding for "everything at the default".
pub open spec fn spec_sac_consistent(sac: Seq<u8>) -> bool {
    sac.len() == 0 || set_bits_from(sac[0], 0) == sac.len() - 1
}

/// Expands a compact SAC byte string (the value of the FCI's SAC tag, at
/// most eight bytes) into the canonical eight Security-Condition Bytes,
/// one per operation slot.
///
/// Returns the expanded array exactly as `spec_scb8` states it; an
/// inconsistent string (set-bit count differing from the count of bytes
/// that follow) is rejected.
pub fn convert_bytes_tag_fcp_sac_to_scb_array(bytes_tag_fcp_sac: &[u8]) -> (r: Result<[u8; 8], i32>)
    requires
        bytes_tag_fcp_sac@.len() <= 8,
    ensures
        spec_sac_consistent(bytes_tag_fcp_sac@) ==> (r matches Ok(scb8) && scb8@ =~= spec_scb8(
            bytes_tag_fcp_sac@,
        )),
        !spec_sac_consistent(bytes_tag_fcp_sac@) ==> r == Err::<[u8; 8], i32>(
            SC_ERROR_KEYPAD_MSG_TOO_LONG,
        ),
{
    let mut scb8: [u8; 8] = [0, 0, 0, 0, 0, 0, 0, 0xFF];
    if bytes_tag_fcp_sac.len() == 0 {
        assert(scb8@ =~= spec_scb8(bytes_tag_fcp_sac@));
        return Ok(scb8);
    }
    let amb: u8 = bytes_tag_fcp_sac[0];
    if popcount8(amb) as usize != bytes_tag_fcp_sac.len() - 1 {
        return Err(SC_ERROR_KEYPAD_MSG_TOO_LONG);
    }
    let mut idx: usize = 1;
    let mut pos: u8 = 8;
    while pos > 0
        invariant
            pos <= 8,
            bytes_tag_fcp_sac@.len() <= 8,
            set_bits_from(amb, 0) == bytes_tag_fcp_sac@.len() - 1,
            amb == bytes_tag_fcp_sac@[0],
            idx == 1 + set_bits_from(amb, pos),
            scb8@.len() == 8,
            forall|p: int| pos <= p < 8 ==> #[trigger] scb8@[p] == spec_scb_slot(
                bytes_tag_fcp_sac@,
                p as u8,
            ),
            forall|p: int| 0 <= p < pos ==> #[trigger] scb8@[p] == (if p == 7 { 0xFFu8 } else { 0x00u8 }),
        decreases pos,
    {
        proof {
            lemma_set_bits_from_bound(amb, pos);
            lemma_set_bits_from_monotonic(amb, 0, pos);
        }
        pos = pos - 1;
        if (amb >> pos) & 1 == 1 {
            proof {
                lemma_set_bits_from_monotonic(amb, 0, pos);
            }
            scb8[pos as usize] = bytes_tag_fcp_sac[idx];
            idx = idx + 1;
        }
    }
    assert(scb8@ =~= spec_scb8(bytes_tag_fcp_sac@));
    Ok(scb8)
}

/// The access-method values an access-control entry may carry; every one
/// of them is encodable, an entry with any other method is rejected.
pub const SC_AC_NONE: u32 = 0x0000_0000;
pub const SC_AC_CHV: u32 = 0x0000_0001;
pub const SC_AC_TERM: u32 = 0x0000_0002;
pub const SC_AC_PRO: u32 = 0x0000_0004;
pub const SC_AC_AUT: u32 = 0x0000_0008;
pub const SC_AC_SYMBOLIC: u32 = 0x0000_0010;
pub const SC_AC_SEN: u32 = 0x0000_0020;
pub const SC_AC_SCB: u32 = 0x0000_0040;
pub const SC_AC_IDA: u32 = 0x0000_0080;
pub const SC_AC_SESSION: u32 = 0x0000_0100;
pub const SC_AC_UNKNOWN: u32 = 0xFFFF_FFFE;
pub const SC_AC_NEVER: u32 = 0xFFFF_FFFF;

/// Indices of the per-operation slots of an access-control list.
pub const SC_AC_OP_LOCK: usize = 1;
pub const SC_AC_OP_DELETE: usize = 2;
pub const SC_AC_OP_REHABILITATE: usize = 4;
pub const SC_AC_OP_INVALIDATE: usize = 5;
pub const SC_AC_OP_CRYPTO: usize = 7;
pub const SC_AC_OP_DELETE_SELF: usize = 8;
pub const SC_AC_OP_READ: usize = 22;
pub const SC_AC_OP_UPDATE: usize = 23;
pub const SC_AC_OP_CREATE_EF: usize = 27;
pub const SC_AC_OP_CREATE_DF: usize = 28;
pub const SC_MAX_AC_OPS: usize = 31;

/// The category of the file whose access-control list is being encoded:
/// it decides which logical operations the first three SCB slots carry.
pub const ACL_CATEGORY_DF_MF: u8 = 1;
pub const ACL_CATEGORY_EF_CHV: u8 = 2;
pub const ACL_CATEGORY_KEY: u8 = 3;
pub const ACL_CATEGORY_SE: u8 = 4;

/// One slot of an access-control list, as the host hands it to the driver:
/// either absent, one of the three marker values (never / free / unknown),
/// or a concrete entry with an access method and a key reference.
#[derive(Clone, Copy, Debug, PartialEq, Eq)]
pub enum AclEntry {
    Absent,
    Never,
    Allow,
    Undetermined,
    Keyed { method: u32, key_ref: u32 },
}

pub open spec fn spec_method_encodable(method: u32) -> bool {
    ||| method == SC_AC_NONE
    ||| method == SC_AC_CHV
    ||| method == SC_AC_TERM
    ||| method == SC_AC_PRO
    ||| method == SC_AC_AUT
    ||| method == SC_AC_SYMBOLIC
    ||| method == SC_AC_SEN
    ||| method == SC_AC_SCB
    ||| method == SC_AC_IDA
    ||| method == SC_AC_SESSION
    ||| method == SC_AC_UNKNOWN
    ||| method == SC_AC_NEVER
}

/// The SCB an access-control entry encodes to: absent or free entries are
/// encoded as 0x00 (free), never/unknown entries as 0xFF (forbidden), a
/// keyed entry as its key reference; `None` when the entry's method is
/// outside the encodable set.
pub open spec fn spec_acl_entry_scb(e: AclEntry) -> Option<u8> {
    match e {
        AclEntry::Absent => Some(0x00u8),
        AclEntry::Never => Some(0xFFu8),
        AclEntry::Allow => Some(0x00u8),
        AclEntry::Undetermined => Some(0xFFu8),
        AclEntry::Keyed { method, key_ref } => if spec_method_encodable(method) {
            Some((key_ref & 0xFF) as u8)
        } else {
            None
        },
    }
}

/// The operation whose access-control entry fills compact-string byte
/// `sac_idx` (1 = the byte nearest the Access-Mode byte) for a file of
/// the given category; `None` when the byte stays at the default 0x00.
pub open spec fn spec_sac_op_of_byte(category: u8, sac_idx: int) -> Option<usize> {
    if sac_idx == 7 {
        if category == ACL_CATEGORY_DF_MF {
            Some(SC_AC_OP_DELETE)
        } else if category == ACL_CATEGORY_EF_CHV || category == ACL_CATEGORY_KEY || category
            == ACL_CATEGORY_SE {
            Some(SC_AC_OP_READ)
        } else {
            None
        }
    } else if sac_idx == 6 {
        if category == ACL_CATEGORY_DF_MF {
            Some(SC_AC_OP_CREATE_EF)
        } else if category == ACL_CATEGORY_EF_CHV || category == ACL_CATEGORY_KEY {
            Some(SC_AC_OP_UPDATE)
        } else {
            None
        }
    } else if sac_idx == 5 {
        if category == ACL_CATEGORY_DF_MF {
            Some(SC_AC_OP_CREATE_DF)
        } else if category == ACL_CATEGORY_KEY {
            Some(SC_AC_OP_CRYPTO)
        } else {
            None
        }
    } else if sac_idx == 4 {
        Some(SC_AC_OP_INVALIDATE)
    } else if sac_idx == 3 {
        Some(SC_AC_OP_REHABILITATE)
    } else if sac_idx == 2 {
        Some(SC_AC_OP_LOCK)
    } else if sac_idx == 1 {
        Some(SC_AC_OP_DELETE_SELF)
    } else {
        None
    }
}

/// Whether byte `sac_idx` is encoded leniently: for the read slot of a
/// security-environment file a keyed entry is left at the default instead
/// of being encoded or rejected.
pub open spec fn spec_sac_byte_lenient(category: u8, sac_idx: int) -> bool {
    category == ACL_CATEGORY_SE && sac_idx == 7
}

/// The entry consulted for compact-string byte `sac_idx` is encodable
/// (lenient bytes and bytes left at the default always are).
pub open spec fn spec_sac_byte_ok(acl: Seq<AclEntry>, category: u8, sac_idx: int) -> bool {
    if spec_sac_byte_lenient(category, sac_idx) {
        true
    } else {
        match spec_sac_op_of_byte(category, sac_idx) {
            Some(op) => spec_acl_entry_scb(acl[op as int]) is Some,
            None => true,
        }
    }
}

/// Every access-control entry that the encoding consults for this
/// category is encodable.
pub open spec fn spec_acl_encodable(acl: Seq<AclEntry>, category: u8) -> bool {
    forall|i: int| 1 <= i < 8 ==> #[trigger] spec_sac_byte_ok(acl, category, i)
}

/// Byte `sac_idx` of the compact string that the access-control list
/// encodes to (meaningful under `spec_acl_encodable`).  Byte 0 is the
/// Access-Mode byte 0x7F: all seven operation slots are present.
pub open spec fn spec_sac_encode_byte(acl: Seq<AclEntry>, category: u8, sac_idx: int) -> u8 {
    if sac_idx == 0 {
        0x7Fu8
    } else {
        match spec_sac_op_of_byte(category, sac_idx) {
            Some(op) => if spec_sac_byte_lenient(category, sac_idx) {
                match acl[op as int] {
                    AclEntry::Never => 0xFFu8,
                    AclEntry::Undetermined => 0xFFu8,
                    _ => 0x00u8,
                }
            } else {
                spec_acl_entry_scb(acl[op as int]).unwrap()
            },
            None => 0x00u8,
        }
    }
}

pub open spec fn spec_sac_encode(acl: Seq<AclEntry>, category: u8) -> Seq<u8> {
    Seq::new(8, |i: int| spec_sac_encode_byte(acl, category, i))
}

/// Encodes one access-control entry as its SCB, per `spec_acl_entry_scb`.
fn acl_entry_scb(e: &AclEntry) -> (r: Result<u8, i32>)
    ensures
        r == match spec_acl_entry_scb(*e) {
            Some(b) => Ok::<u8, i32>(b),
            None => Err::<u8, i32>(SC_ERROR_NOT_ALLOWED),
        },
{
    match *e {
        AclEntry::Absent => Ok(0x00),
        AclEntry::Never => Ok(0xFF),
        AclEntry::Allow => Ok(0x00),
        AclEntry::Undetermined => Ok(0xFF),
        AclEntry::Keyed { method, key_ref } => {
            if method == SC_AC_NONE || method == SC_AC_CHV || method == SC_AC_TERM || method
                == SC_AC_PRO || method == SC_AC_AUT || method == SC_AC_SYMBOLIC || method
                == SC_AC_SEN || method == SC_AC_SCB || method == SC_AC_IDA || method
                == SC_AC_SESSION || method == SC_AC_UNKNOWN || method == SC_AC_NEVER {
                Ok((key_ref & 0xFF) as u8)
            } else {
                Err(SC_ERROR_NOT_ALLOWED)
            }
        },
    }
}

/// Encodes an access-control list (one optional entry per operation slot,
/// as resolved by the host) into the compact SAC byte string that a
/// file-creation command carries: the Access-Mode byte 0x7F followed by
/// the seven SCBs, the operation of each position chosen by the file's
/// category.  An entry with a method outside the encodable set is
/// rejected as not allowed.
pub fn convert_acl_array_to_bytes_tag_fcp_sac(
    acl: &[AclEntry; SC_MAX_AC_OPS],
    acl_category: u8,
) -> (r: Result<[u8; 8], i32>)
    ensures
        spec_acl_encodable(acl@, acl_category) ==> (r matches Ok(a) && a@ =~= spec_sac_encode(
            acl@,
            acl_category,
        )),
        !spec_acl_encodable(acl@, acl_category) ==> r == Err::<[u8; 8], i32>(SC_ERROR_NOT_ALLOWED),
{
    let mut result: [u8; 8] = [0x7F, 0, 0, 0, 0, 0, 0, 0];
    let mut sac_idx: usize = 7;
    while sac_idx >= 1
        invariant
            sac_idx <= 7,
            result@[0] == 0x7Fu8,
            forall|i: int|
                sac_idx < i < 8 ==> #[trigger] result@[i] == spec_sac_encode_byte(
                    acl@,
                    acl_category,
                    i,
                ),
            forall|i: int| 1 <= i <= sac_idx ==> #[trigger] result@[i] == 0x00u8,
            forall|i: int| sac_idx < i < 8 ==> #[trigger] spec_sac_byte_ok(acl@, acl_category, i),
        decreases sac_idx,
    {
        let op: Option<usize> = match sac_idx {
            1 => Some(SC_AC_OP_DELETE_SELF),
            7 => {
                if acl_category == ACL_CATEGORY_DF_MF {
                    Some(SC_AC_OP_DELETE)
                } else if acl_category == ACL_CATEGORY_EF_CHV || acl_category == ACL_CATEGORY_KEY
                    || acl_category == ACL_CATEGORY_SE {
                    Some(SC_AC_OP_READ)
                } else {
                    None
                }
            },
            6 => {
                if acl_category == ACL_CATEGORY_DF_MF {
                    Some(SC_AC_OP_CREATE_EF)
                } else if acl_category == ACL_CATEGORY_EF_CHV || acl_category == ACL_CATEGORY_KEY {
                    Some(SC_AC_OP_UPDATE)
                } else {
                    None
                }
            },
            5 => {
                if acl_category == ACL_CATEGORY_DF_MF {
                    Some(SC_AC_OP_CREATE_DF)
                } else if acl_category == ACL_CATEGORY_KEY {
                    Some(SC_AC_OP_CRYPTO)
                } else {
                    None
                }
            },
            4 => Some(SC_AC_OP_INVALIDATE),
            3 => Some(SC_AC_OP_REHABILITATE),
            2 => Some(SC_AC_OP_LOCK),
            _ => Some(SC_AC_OP_DELETE_SELF),
        };
        if let Some(op_idx) = op {
            if acl_category == ACL_CATEGORY_SE && sac_idx == 7 {
                result[sac_idx] = match acl[op_idx] {
                    AclEntry::Never => 0xFF,
                    AclEntry::Undetermined => 0xFF,
                    _ => 0x00,
                };
            } else {
                assert(spec_sac_op_of_byte(acl_category, sac_idx as int) == Some(op_idx));
                match acl_entry_scb(&acl[op_idx]) {
                    Ok(b) => {
                        result[sac_idx] = b;
                    },
                    Err(e) => {
                        assert(!spec_sac_byte_ok(acl@, acl_category, sac_idx as int));
                        return Err(e);
                    },
                }
            }
        }
        sac_idx = sac_idx - 1;
    }
    assert(result@ =~= spec_sac_encode(acl@, acl_category));
    Ok(result)
}

/// How many of the Access-Mode byte 0x7F's bits at positions `lo..8` are
/// set: the seven low bits are all set, bit 7 is clear.
pub proof fn lemma_am_byte_bits(lo: u8)
    requires
        lo <= 8,
    ensures
        set_bits_from(0x7F, lo) == if lo <= 7 { 7 - lo } else { 0int },
    decreases 8 - lo,
{
    assert(!bit_set(0x7F, 7)) by (bit_vector);
    assert(forall|p: u8| p < 7 ==> bit_set(0x7F, p)) by (bit_vector);
    if lo < 8 {
        lemma_am_byte_bits((lo + 1) as u8);
    }
}

/// Codec round trip: for a file of the directory, key or generic-file
/// category, expanding the compact string that an access-control list
/// encodes to yields the canonical eight-slot array of that list: slot
/// `i` carries the SCB of the operation that the category assigns to it
/// (compact-string byte `7 - i`), and slot 7 is the unused, forbidden
/// slot.
pub proof fn lemma_sac_codec_round_trip(acl: Seq<AclEntry>, category: u8)
    requires
        category == ACL_CATEGORY_DF_MF || category == ACL_CATEGORY_KEY || category
            == ACL_CATEGORY_EF_CHV,
        spec_acl_encodable(acl, category),
    ensures
        spec_sac_consistent(spec_sac_encode(acl, category)),
        forall|i: int|
            0 <= i < 7 ==> #[trigger] spec_scb8(spec_sac_encode(acl, category))[i]
                == spec_sac_encode_byte(acl, category, 7 - i),
        spec_scb8(spec_sac_encode(acl, category))[7] == 0xFFu8,
{
    let enc = spec_sac_encode(acl, category);
    assert(enc[0] == 0x7Fu8);
    lemma_am_byte_bits(0);
    assert(set_bits_from(enc[0], 0) == 7);
    assert(spec_sac_consistent(enc));
    assert forall|i: int| 0 <= i < 7 implies #[trigger] spec_scb8(enc)[i] == spec_sac_encode_byte(
        acl,
        category,
        7 - i,
    ) by {
        let j = i as u8;
        assert(bit_set(0x7F, j)) by (bit_vector)
            requires j < 7,
        ;
        lemma_am_byte_bits((i + 1) as u8);
        assert(spec_scb_slot(enc, i as u8) == enc[1 + set_bits_from(0x7F, (i + 1) as u8)]);
        assert(1 + set_bits_from(0x7F, (i + 1) as u8) == 7 - i);
    }
    assert(!bit_set(0x7F, 7)) by (bit_vector);
    assert(spec_scb_slot(enc, 7) == 0xFFu8);
}

/// The byte that slot `pos` (0 = CLA, 1 = INS, 2 = P1, 3 = P2) of the
/// expanded header array carries for an Access-Mode Data Object whose tag
/// nibble is `amb` and whose value bytes are `bytes`: present slots take
/// the value bytes in order, absent slots are zero.
pub open spec fn spec_amdo_slot(amb: u8, bytes: Seq<u8>, pos: u8) -> u8 {
    if bit_set(amb, (3 - pos) as u8) {
        bytes[set_bits_from(amb, (4 - pos) as u8)]
    } else {
        0x00
    }
}

/// Expands an Access-Mode Data Object of a Security-Attributes-Expanded
/// record into the four command-header bytes {CLA, INS, P1, P2} that the
/// condition applies to.  The low nibble of the AM-DO tag says which of
/// the four bytes are present in `amdo_bytes`, highest bit (CLA) first.
pub fn convert_amdo_to_cla_ins_p1_p2_array(amdo_tag: u8, amdo_bytes: &[u8]) -> (r: Result<
    [u8; 4],
    i32,
>)
    requires
        1 <= amdo_bytes@.len() <= 4,
        amdo_tag & 0x0F != 0,
    ensures
        set_bits_from(amdo_tag & 0x0F, 0) == amdo_bytes@.len() ==> (r matches Ok(a)
            && forall|p: int| 0 <= p < 4 ==> #[trigger] a@[p] == spec_amdo_slot(
            amdo_tag & 0x0F,
            amdo_bytes@,
            p as u8,
        )),
        set_bits_from(amdo_tag & 0x0F, 0) != amdo_bytes@.len() ==> r == Err::<[u8; 4], i32>(
            SC_ERROR_KEYPAD_MSG_TOO_LONG,
        ),
{
    let amb: u8 = amdo_tag & 0x0F;
    proof {
        assert(!bit_set(amb, 4) && !bit_set(amb, 5) && !bit_set(amb, 6) && !bit_set(amb, 7))
            by (bit_vector)
        requires
            amb == amdo_tag & 0x0F,
        ;
        assert(set_bits_from(amb, 8) == 0);
        assert(set_bits_from(amb, 7) == 0);
        assert(set_bits_from(amb, 6) == 0);
        assert(set_bits_from(amb, 5) == 0);
        assert(set_bits_from(amb, 4) == 0);
    }
    if popcount8(amb) as usize != amdo_bytes.len() {
        return Err(SC_ERROR_KEYPAD_MSG_TOO_LONG);
    }
    let mut cla_ins_p1_p2: [u8; 4] = [0, 0, 0, 0];
    let mut idx: usize = 0;
    let mut pos: u8 = 0;
    while pos < 4
        invariant
            pos <= 4,
            amb == amdo_tag & 0x0F,
            set_bits_from(amb, 4) == 0,
            set_bits_from(amb, 0) == amdo_bytes@.len(),
            amdo_bytes@.len() <= 4,
            idx == set_bits_from(amb, (4 - pos) as u8),
            forall|p: int| 0 <= p < pos ==> #[trigger] cla_ins_p1_p2@[p] == spec_amdo_slot(
                amb,
                amdo_bytes@,
                p as u8,
            ),
            forall|p: int| pos <= p < 4 ==> #[trigger] cla_ins_p1_p2@[p] == 0x00u8,
        decreases 4 - pos,
    {
        let bitpos: u8 = 3 - pos;
        proof {
            lemma_set_bits_from_monotonic(amb, (bitpos + 1) as u8, 4);
            lemma_set_bits_from_monotonic(amb, 0, bitpos);
        }
        if (amb >> bitpos) & 1 == 1 {
            cla_ins_p1_p2[pos as usize] = amdo_bytes[idx];
            idx = idx + 1;
        }
        pos = pos + 1;
    }
    Ok(cla_ins_p1_p2)
}

} // verus!
