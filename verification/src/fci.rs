//! File Control Information (FCI): the header the chip returns on a
//! SELECT with header request.  The header is a TLV sequence carrying the
//! file-descriptor byte, the identifier, sizes, the life-cycle status, the
//! compact security attributes (SAC), the associated security-environment
//! file and — for directories — Security-Attributes-Expanded (SAE)
//! conditions that override the SCB model for single commands.

use vstd::prelude::*;
use crate::mirror::{
    spec_is_df_mf, is_df_mf, FDB_CHV_EF, FDB_CYCLIC_EF, FDB_ECC_KEY_EF, FDB_LINEAR_FIXED_EF,
    FDB_LINEAR_VARIABLE_EF, FDB_PURSE_EF, FDB_RSA_KEY_EF, FDB_SE_FILE, FDB_SYMMETRIC_KEY_EF,
    FDB_TRANSPARENT_EF,
};
use crate::rv::{SC_ERROR_INVALID_ARGUMENTS, SC_ERROR_KEYPAD_MSG_TOO_LONG,
    SC_ERROR_UNKNOWN_DATA_RECEIVED};
use crate::sac::{
    bit_set, convert_acl_array_to_bytes_tag_fcp_sac, convert_amdo_to_cla_ins_p1_p2_array,
    convert_bytes_tag_fcp_sac_to_scb_array, set_bits_from, spec_acl_encodable, spec_amdo_slot,
    spec_sac_consistent, spec_sac_encode, spec_scb8, AclEntry, ACL_CATEGORY_DF_MF,
    ACL_CATEGORY_EF_CHV, ACL_CATEGORY_KEY, ACL_CATEGORY_SE, SC_MAX_AC_OPS,
};
use crate::tlv::{spec_tlv_find, tlv_find};

verus! {

/// One command-level access condition of an SAE value: the expanded
/// {CLA, INS, P1, P2} header bytes the condition applies to (with the
/// AM-DO tag whose low nibble says which of them are significant), and
/// the security-condition data object that guards the command: free
/// (tag 0x90), never (tag 0x97), or an explicit SCB (tag 0x9E).
#[derive(Clone, Copy, Debug, PartialEq, Eq)]
pub struct SaeEntry {
    pub amdo_tag: u8,
    pub header: [u8; 4],
    pub scdo_tag: u8,
    pub scb: u8,
}

/// The expanded header of an AM-DO with tag nibble `amb` and value `v`.
pub open spec fn spec_sae_header(amb: u8, v: Seq<u8>) -> Seq<u8> {
    Seq::new(4, |p: int| spec_amdo_slot(amb, v, p as u8))
}

/// The entries an SAE value parses to, or `None` when it is malformed:
/// pairs of an AM-DO (tag 0x81 to 0x8F, as many value bytes as tag-nibble
/// bits) and an SC-DO (0x90 or 0x97 empty, or 0x9E with one SCB byte),
/// up to the end or a zero padding tag.
pub open spec fn spec_parse_sae(b: Seq<u8>) -> Option<Seq<SaeEntry>>
    decreases b.len(),
{
    if b.len() == 0 || b[0] == 0 {
        Some(Seq::empty())
    } else if b.len() < 2 {
        None
    } else {
        let tag = b[0];
        let l = b[1] as int;
        if !(0x81 <= tag && tag <= 0x8F) {
            None
        } else if 2 + l > b.len() {
            None
        } else if !(1 <= l && l <= 4 && set_bits_from(tag & 0x0F, 0) == l) {
            None
        } else {
            let header = spec_sae_header(tag & 0x0F, b.subrange(2, 2 + l));
            let rest0 = b.skip(2 + l);
            if rest0.len() < 2 {
                None
            } else if (rest0[0] == 0x90 || rest0[0] == 0x97) && rest0[1] == 0 {
                let scb: u8 = if rest0[0] == 0x97 {
                    0xFF
                } else {
                    0x00
                };
                match spec_parse_sae(rest0.skip(2)) {
                    Some(tail) => Some(
                        seq![
                            SaeEntry {
                                amdo_tag: tag,
                                header: [header[0], header[1], header[2], header[3]],
                                scdo_tag: rest0[0],
                                scb,
                            },
                        ] + tail,
                    ),
                    None => None,
                }
            } else if rest0[0] == 0x9E && rest0[1] == 1 && rest0.len() >= 3 {
                match spec_parse_sae(rest0.skip(3)) {
                    Some(tail) => Some(
                        seq![
                            SaeEntry {
                                amdo_tag: tag,
                                header: [header[0], header[1], header[2], header[3]],
                                scdo_tag: 0x9Eu8,
                                scb: rest0[2],
                            },
                        ] + tail,
                    ),
                    None => None,
                }
            } else {
                None
            }
        }
    }
}

/// Parses the Security-Attributes-Expanded value of a directory header,
/// per `spec_parse_sae`.  An empty or padding-only value parses to no
/// entries; malformed data is reported as unknown data from the card.
#[verifier::rlimit(60)]
pub fn se_parse_sae(b: &[u8]) -> (r: Result<Vec<SaeEntry>, i32>)
    ensures
        match spec_parse_sae(b@) {
            Some(entries) => r matches Ok(v) && v@ =~= entries,
            None => r == Err::<Vec<SaeEntry>, i32>(SC_ERROR_UNKNOWN_DATA_RECEIVED),
        },
{
    let mut entries: Vec<SaeEntry> = Vec::new();
    let mut pos: usize = 0;
    assert(b@.skip(0) =~= b@);
    loop
        invariant
            pos <= b@.len(),
            match spec_parse_sae(b@.skip(pos as int)) {
                Some(tail) => spec_parse_sae(b@) == Some(entries@ + tail),
                None => spec_parse_sae(b@) is None,
            },
        ensures
            spec_parse_sae(b@) == Some(entries@),
        decreases b@.len() - pos,
    {
        if b.len() == pos || b[pos] == 0 {
            assert(spec_parse_sae(b@.skip(pos as int)) == Some(Seq::<SaeEntry>::empty()));
            assert(entries@ + Seq::<SaeEntry>::empty() =~= entries@);
            break;
        }
        if b.len() - pos < 2 {
            return Err(SC_ERROR_UNKNOWN_DATA_RECEIVED);
        }
        let tag: u8 = b[pos];
        let l: usize = b[pos + 1] as usize;
        if !(0x81 <= tag && tag <= 0x8F) {
            return Err(SC_ERROR_UNKNOWN_DATA_RECEIVED);
        }
        if 2 + l > b.len() - pos {
            return Err(SC_ERROR_UNKNOWN_DATA_RECEIVED);
        }
        if !(1 <= l && l <= 4) {
            return Err(SC_ERROR_UNKNOWN_DATA_RECEIVED);
        }
        proof {
            assert(tag & 0x0F != 0) by (bit_vector)
                requires
                    0x81 <= tag && tag <= 0x8F,
            ;
            assert(b@.skip(pos as int).subrange(2, 2 + l as int) =~= b@.subrange(
                pos + 2,
                pos + 2 + l,
            ));
            assert(b@.skip(pos as int).skip(2 + l as int) =~= b@.skip(pos + 2 + l));
        }
        let header: [u8; 4] = match convert_amdo_to_cla_ins_p1_p2_array(
            tag,
            &b[pos + 2..pos + 2 + l],
        ) {
            Ok(h) => h,
            Err(_) => {
                return Err(SC_ERROR_UNKNOWN_DATA_RECEIVED);
            },
        };
        assert(header@ =~= spec_sae_header(tag & 0x0F, b@.subrange(pos + 2, pos + 2 + l as int)));
        let scdo_pos: usize = pos + 2 + l;
        if b.len() - scdo_pos < 2 {
            return Err(SC_ERROR_UNKNOWN_DATA_RECEIVED);
        }
        let scdo_tag: u8 = b[scdo_pos];
        let scdo_len: u8 = b[scdo_pos + 1];
        let ghost prev = pos as int;
        let ghost sp = b@.skip(prev);
        let ghost rest0 = b@.skip(prev + 2 + l);
        proof {
            assert(sp.skip(2 + l as int) =~= rest0);
        }
        if (scdo_tag == 0x90 || scdo_tag == 0x97) && scdo_len == 0 {
            let scb: u8 = if scdo_tag == 0x97 {
                0xFF
            } else {
                0x00
            };
            let entry = SaeEntry { amdo_tag: tag, header, scdo_tag, scb };
            proof {
                let h = spec_sae_header(tag & 0x0F, sp.subrange(2, 2 + l as int));
                assert(entry.header@ =~= h);
                assert(entry.header == [h[0], h[1], h[2], h[3]]);
                assert(rest0.skip(2) =~= b@.skip(prev + 2 + l + 2));
                match spec_parse_sae(rest0.skip(2)) {
                    Some(tail) => {
                        assert(spec_parse_sae(sp) == Some(seq![entry] + tail));
                        assert(entries@.push(entry) + tail =~= entries@ + (seq![entry] + tail));
                    },
                    None => {
                        assert(spec_parse_sae(sp) is None);
                    },
                }
            }
            entries.push(entry);
            pos = scdo_pos + 2;
        } else if scdo_tag == 0x9E && scdo_len == 1 && b.len() - scdo_pos >= 3 {
            let entry = SaeEntry { amdo_tag: tag, header, scdo_tag, scb: b[scdo_pos + 2] };
            proof {
                let h = spec_sae_header(tag & 0x0F, sp.subrange(2, 2 + l as int));
                assert(entry.header@ =~= h);
                assert(entry.header == [h[0], h[1], h[2], h[3]]);
                assert(rest0.skip(3) =~= b@.skip(prev + 2 + l + 3));
                assert(entry.scb == rest0[2]);
                match spec_parse_sae(rest0.skip(3)) {
                    Some(tail) => {
                        assert(spec_parse_sae(sp) == Some(seq![entry] + tail));
                        assert(entries@.push(entry) + tail =~= entries@ + (seq![entry] + tail));
                    },
                    None => {
                        assert(spec_parse_sae(sp) is None);
                    },
                }
            }
            entries.push(entry);
            pos = scdo_pos + 3;
        } else {
            return Err(SC_ERROR_UNKNOWN_DATA_RECEIVED);
        }
    }
    Ok(entries)
}

/// What a parsed file header carries.  A field whose tag is absent from
/// the header (or malformed) keeps the neutral value: zero, an empty
/// name, no SAE entries — and all-forbidden security conditions, since a
/// file whose conditions cannot be read must not be taken as accessible.
#[derive(Clone, Debug, PartialEq, Eq)]
pub struct FCI {
    pub fdb: u8,
    pub fid: u16,
    pub size: u16,
    pub lcsi: u8,
    pub df_name: Vec<u8>,
    pub scb8: [u8; 8],
    pub sae: Vec<SaeEntry>,
    pub seid: u16,
    pub mrl: u8,
    pub nor: u8,
}

/// The big-endian value of a two-byte tag value.
pub open spec fn spec_be16(v: Seq<u8>) -> u16 {
    (((v[0] as u16) << 8) | (v[1] as u16)) as u16
}

pub open spec fn spec_fci_fdb(b: Seq<u8>) -> u8 {
    match spec_tlv_find(b, 0x82) {
        Some(v) => if v.len() >= 1 {
            v[0]
        } else {
            0u8
        },
        None => 0u8,
    }
}

pub open spec fn spec_fci_fid(b: Seq<u8>) -> u16 {
    match spec_tlv_find(b, 0x83) {
        Some(v) => if v.len() == 2 {
            spec_be16(v)
        } else {
            0u16
        },
        None => 0u16,
    }
}

pub open spec fn spec_fci_size(b: Seq<u8>) -> u16 {
    match spec_tlv_find(b, 0x80) {
        Some(v) => if v.len() == 2 {
            spec_be16(v)
        } else if v.len() == 1 {
            v[0] as u16
        } else {
            0u16
        },
        None => 0u16,
    }
}

pub open spec fn spec_fci_lcsi(b: Seq<u8>) -> u8 {
    match spec_tlv_find(b, 0x8A) {
        Some(v) => if v.len() == 1 {
            v[0]
        } else {
            0u8
        },
        None => 0u8,
    }
}

pub open spec fn spec_fci_seid(b: Seq<u8>) -> u16 {
    match spec_tlv_find(b, 0x8D) {
        Some(v) => if v.len() == 2 {
            spec_be16(v)
        } else {
            0u16
        },
        None => 0u16,
    }
}

pub open spec fn spec_fci_df_name(b: Seq<u8>) -> Seq<u8> {
    match spec_tlv_find(b, 0x84) {
        Some(v) => v,
        None => Seq::empty(),
    }
}

/// For a record-organized file the descriptor value carries the maximal
/// record length in its fourth byte and the record count in its last.
pub open spec fn spec_fci_mrl(b: Seq<u8>) -> u8 {
    match spec_tlv_find(b, 0x82) {
        Some(v) => if 5 <= v.len() && v.len() <= 6 {
            v[3]
        } else {
            0u8
        },
        None => 0u8,
    }
}

pub open spec fn spec_fci_nor(b: Seq<u8>) -> u8 {
    match spec_tlv_find(b, 0x82) {
        Some(v) => if 5 <= v.len() && v.len() <= 6 {
            v[v.len() - 1]
        } else {
            0u8
        },
        None => 0u8,
    }
}

pub open spec fn spec_fci_scb8(b: Seq<u8>) -> Seq<u8> {
    match spec_tlv_find(b, 0x8C) {
        Some(v) => if v.len() <= 8 && spec_sac_consistent(v) {
            spec_scb8(v)
        } else {
            Seq::new(8, |i: int| 0xFFu8)
        },
        None => Seq::new(8, |i: int| 0xFFu8),
    }
}

pub open spec fn spec_fci_sae(b: Seq<u8>) -> Seq<SaeEntry> {
    match spec_tlv_find(b, 0xAB) {
        Some(v) => match spec_parse_sae(v) {
            Some(entries) => entries,
            None => Seq::empty(),
        },
        None => Seq::empty(),
    }
}

impl FCI {
    /// Parses the value bytes of a file header (the TLV sequence inside
    /// the FCI/FCP envelope) into its fields, each as the corresponding
    /// header spec states it.  This is the total field view, defaulting
    /// what is absent or malformed; header processing goes through
    /// `parse_fci`, which reports those defects instead of defaulting
    /// them.
    pub fn new_parsed(b: &[u8]) -> (r: FCI)
        ensures
            r.fdb == spec_fci_fdb(b@),
            r.fid == spec_fci_fid(b@),
            r.size == spec_fci_size(b@),
            r.lcsi == spec_fci_lcsi(b@),
            r.seid == spec_fci_seid(b@),
            r.df_name@ =~= spec_fci_df_name(b@),
            r.mrl == spec_fci_mrl(b@),
            r.nor == spec_fci_nor(b@),
            r.scb8@ =~= spec_fci_scb8(b@),
            r.sae@ =~= spec_fci_sae(b@),
    {
        let fdb: u8 = match tlv_find(b, 0x82) {
            Some((off, len)) => if len >= 1 {
                b[off]
            } else {
                0
            },
            None => 0,
        };
        let fid: u16 = match tlv_find(b, 0x83) {
            Some((off, len)) => if len == 2 {
                ((b[off] as u16) << 8) | (b[off + 1] as u16)
            } else {
                0
            },
            None => 0,
        };
        let size: u16 = match tlv_find(b, 0x80) {
            Some((off, len)) => if len == 2 {
                ((b[off] as u16) << 8) | (b[off + 1] as u16)
            } else if len == 1 {
                b[off] as u16
            } else {
                0
            },
            None => 0,
        };
        let lcsi: u8 = match tlv_find(b, 0x8A) {
            Some((off, len)) => if len == 1 {
                b[off]
            } else {
                0
            },
            None => 0,
        };
        let seid: u16 = match tlv_find(b, 0x8D) {
            Some((off, len)) => if len == 2 {
                ((b[off] as u16) << 8) | (b[off + 1] as u16)
            } else {
                0
            },
            None => 0,
        };
        let n: usize = b.len();
        let mut df_name: Vec<u8> = Vec::new();
        match tlv_find(b, 0x84) {
            Some((off, len)) => {
                let mut i: usize = 0;
                while i < len
                    invariant
                        i <= len,
                        off + len <= n,
                        n == b@.len(),
                        df_name@ =~= b@.subrange(off as int, off + i),
                    decreases len - i,
                {
                    df_name.push(b[off + i]);
                    i = i + 1;
                }
            },
            None => {},
        }
        let (mrl, nor): (u8, u8) = match tlv_find(b, 0x82) {
            Some((off, len)) => if 5 <= len && len <= 6 {
                (b[off + 3], b[off + len - 1])
            } else {
                (0, 0)
            },
            None => (0, 0),
        };
        let mut scb8: [u8; 8] = [0xFF, 0xFF, 0xFF, 0xFF, 0xFF, 0xFF, 0xFF, 0xFF];
        match tlv_find(b, 0x8C) {
            Some((off, len)) => if len <= 8 {
                match convert_bytes_tag_fcp_sac_to_scb_array(&b[off..off + len]) {
                    Ok(a) => {
                        scb8 = a;
                    },
                    Err(_) => {},
                }
            },
            None => {},
        }
        let mut sae: Vec<SaeEntry> = Vec::new();
        match tlv_find(b, 0xAB) {
            Some((off, len)) => {
                match se_parse_sae(&b[off..off + len]) {
                    Ok(entries) => {
                        sae = entries;
                    },
                    Err(_) => {},
                }
            },
            None => {},
        }
        FCI { fdb, fid, size, lcsi, df_name, scb8, sae, seid, mrl, nor }
    }
}


/// Parses a file header, reporting what `new_parsed` would have to
/// default: the security-condition value is mandatory, so a header
/// without the SAC tag is unknown data from the card, and an
/// inconsistent or over-long SAC value is reported with the codec's own
/// error instead of being converted to all-forbidden conditions.  Errors
/// are not recovered silently: header processing hands them to the
/// caller unchanged.
pub fn parse_fci(b: &[u8]) -> (r: Result<FCI, i32>)
    ensures
        match spec_tlv_find(b@, 0x8C) {
            None => r == Err::<FCI, i32>(SC_ERROR_UNKNOWN_DATA_RECEIVED),
            Some(v) => if v.len() <= 8 && spec_sac_consistent(v) {
                r matches Ok(fci) && {
                    &&& fci.fdb == spec_fci_fdb(b@)
                    &&& fci.fid == spec_fci_fid(b@)
                    &&& fci.size == spec_fci_size(b@)
                    &&& fci.lcsi == spec_fci_lcsi(b@)
                    &&& fci.seid == spec_fci_seid(b@)
                    &&& fci.df_name@ =~= spec_fci_df_name(b@)
                    &&& fci.mrl == spec_fci_mrl(b@)
                    &&& fci.nor == spec_fci_nor(b@)
                    &&& fci.scb8@ =~= spec_scb8(v)
                    &&& fci.sae@ =~= spec_fci_sae(b@)
                }
            } else {
                r == Err::<FCI, i32>(SC_ERROR_KEYPAD_MSG_TOO_LONG)
            },
        },
{
    match tlv_find(b, 0x8C) {
        None => Err(SC_ERROR_UNKNOWN_DATA_RECEIVED),
        Some((off, len)) => {
            if len > 8 {
                return Err(SC_ERROR_KEYPAD_MSG_TOO_LONG);
            }
            let n: usize = b.len();
            assert(off + len <= n);
            match convert_bytes_tag_fcp_sac_to_scb_array(&b[off..off + len]) {
                Err(e) => Err(e),
                Ok(_) => Ok(FCI::new_parsed(b)),
            }
        },
    }
}

/// Unwraps the FCI envelope of a select response: the header's TLV body
/// behind the leading FCI or FCP tag with its one-byte length.  A
/// response that is too short, carries another leading tag, or announces
/// more bytes than it holds is unknown data from the card.
pub fn fci_envelope_body(resp: &[u8]) -> (r: Result<(usize, usize), i32>)
    ensures
        match r {
            Ok((off, len)) => {
                &&& resp@.len() >= 2
                &&& (resp@[0] == 0x6F || resp@[0] == 0x62)
                &&& off == 2
                &&& len == resp@[1]
                &&& off + len <= resp@.len()
            },
            Err(e) => {
                &&& e == SC_ERROR_UNKNOWN_DATA_RECEIVED
                &&& (resp@.len() < 2 || !(resp@[0] == 0x6F || resp@[0] == 0x62) || 2 + resp@[1]
                    > resp@.len())
            },
        },
{
    if resp.len() < 2 {
        return Err(SC_ERROR_UNKNOWN_DATA_RECEIVED);
    }
    if resp[0] != 0x6F && resp[0] != 0x62 {
        return Err(SC_ERROR_UNKNOWN_DATA_RECEIVED);
    }
    let len: usize = resp[1] as usize;
    if 2 + len > resp.len() {
        return Err(SC_ERROR_UNKNOWN_DATA_RECEIVED);
    }
    Ok((2, len))
}


/// Whether an SAE condition applies to a command header: every header
/// byte the AM-DO marks as significant (per its tag nibble, CLA first)
/// must equal the command's.
pub open spec fn spec_sae_entry_matches(e: SaeEntry, header: Seq<u8>) -> bool {
    forall|p: int|
        0 <= p < 4 && bit_set(e.amdo_tag & 0x0F, (3 - p) as u8) ==> #[trigger] e.header@[p]
            == header[p]
}

/// The SCB the Security-Attributes-Expanded conditions assign to a
/// command header: that of the first condition whose masked header
/// matches, or free (0x00) when none does — the expanded conditions
/// override the compact model only for the commands they name.
pub open spec fn spec_sae_scb(entries: Seq<SaeEntry>, header: Seq<u8>) -> u8
    decreases entries.len(),
{
    if entries.len() == 0 {
        0x00u8
    } else if spec_sae_entry_matches(entries[0], header) {
        entries[0].scb
    } else {
        spec_sae_scb(entries.skip(1), header)
    }
}

/// Looks up the SCB the expanded conditions assign to a command header,
/// per `spec_sae_scb`.
pub fn sae_scb_for_command(entries: &Vec<SaeEntry>, header: &[u8; 4]) -> (r: u8)
    ensures
        r == spec_sae_scb(entries@, header@),
{
    let mut i: usize = 0;
    assert(entries@.skip(0) =~= entries@);
    loop
        invariant
            i <= entries@.len(),
            spec_sae_scb(entries@, header@) == spec_sae_scb(entries@.skip(i as int), header@),
        ensures
            spec_sae_scb(entries@, header@) == 0x00u8,
        decreases entries@.len() - i,
    {
        if i == entries.len() {
            assert(entries@.skip(i as int).len() == 0);
            assert(spec_sae_scb(entries@.skip(i as int), header@) == 0x00u8);
            break;
        }
        let e = &entries[i];
        let amb: u8 = e.amdo_tag & 0x0F;
        let mut matches_all: bool = true;
        let mut p: usize = 0;
        while p < 4
            invariant
                p <= 4,
                amb == entries@[i as int].amdo_tag & 0x0F,
                i < entries@.len(),
                e == entries@[i as int],
                matches_all == forall|k: int|
                    0 <= k < p && bit_set(amb, (3 - k) as u8) ==> #[trigger] e.header@[k]
                        == header@[k],
            decreases 4 - p,
        {
            let pos: u8 = (3 - p) as u8;
            if (amb >> pos) & 1 == 1 && e.header[p] != header[p] {
                assert(bit_set(amb, (3 - p as int) as u8));
                assert(e.header@[p as int] != header@[p as int]);
                matches_all = false;
                proof {
                    assert(!(forall|k: int|
                        0 <= k < p + 1 && bit_set(amb, (3 - k) as u8) ==> #[trigger] e.header@[k]
                            == header@[k]));
                }
            }
            p = p + 1;
        }
        if matches_all {
            assert(spec_sae_entry_matches(entries@[i as int], header@));
            assert(spec_sae_scb(entries@.skip(i as int), header@) == entries@[i as int].scb);
            return e.scb;
        }
        proof {
            assert(!spec_sae_entry_matches(entries@[i as int], header@));
            assert(entries@.skip(i as int).skip(1) =~= entries@.skip(i + 1));
        }
        i = i + 1;
    }
    0x00
}

/// The access-control category a file-descriptor byte assigns for the
/// compact encoding, or `None` for a descriptor (such as the purse kind)
/// whose category the driver does not know.
pub open spec fn spec_acl_category_of_fdb(fdb: u8) -> Option<u8> {
    if spec_is_df_mf(fdb) {
        Some(ACL_CATEGORY_DF_MF)
    } else if fdb == FDB_TRANSPARENT_EF || fdb == FDB_LINEAR_FIXED_EF || fdb
        == FDB_LINEAR_VARIABLE_EF || fdb == FDB_CYCLIC_EF || fdb == FDB_CHV_EF {
        Some(ACL_CATEGORY_EF_CHV)
    } else if fdb == FDB_RSA_KEY_EF || fdb == FDB_ECC_KEY_EF || fdb == FDB_SYMMETRIC_KEY_EF {
        Some(ACL_CATEGORY_KEY)
    } else if fdb == FDB_SE_FILE {
        Some(ACL_CATEGORY_SE)
    } else {
        None
    }
}

/// Whether a descriptor byte names a record-organized kind, whose
/// descriptor value carries record length and count.
pub open spec fn spec_fdb_record_based(fdb: u8) -> bool {
    fdb == FDB_LINEAR_FIXED_EF || fdb == FDB_LINEAR_VARIABLE_EF || fdb == FDB_CYCLIC_EF || fdb
        == FDB_CHV_EF || fdb == FDB_SYMMETRIC_KEY_EF || fdb == FDB_PURSE_EF || fdb == FDB_SE_FILE
}

/// The body of the header a CREATE FILE command carries, for a file with
/// this descriptor, identifier, size or record shape, name and compact
/// security attributes: the identifier triple, the descriptor triple
/// (with record length and count for record-organized kinds), the
/// life-cycle triple (created as activated), the size triple for
/// transparent and key files, the security-attribute triple, and for a
/// directory the conventional security-environment file (the directory's
/// identifier plus three) and its name when one was given.
pub open spec fn spec_construct_fci_body(
    fdb: u8,
    id: u16,
    size: u16,
    record_length: u8,
    record_count: u8,
    name: Seq<u8>,
    sac: Seq<u8>,
) -> Seq<u8> {
    let id_part = seq![0x83u8, 0x02, ((id >> 8) & 0xFF) as u8, (id & 0xFF) as u8];
    let type_part = if spec_fdb_record_based(fdb) {
        seq![0x82u8, 0x05, fdb, 0x00, 0x00, record_length, record_count]
    } else {
        seq![0x82u8, 0x02, fdb, 0x00]
    };
    let lcs_part = seq![0x8Au8, 0x01, 0x01];
    let size_part = if fdb == FDB_TRANSPARENT_EF || fdb == FDB_RSA_KEY_EF || fdb
        == FDB_ECC_KEY_EF {
        seq![0x80u8, 0x02, ((size >> 8) & 0xFF) as u8, (size & 0xFF) as u8]
    } else {
        Seq::empty()
    };
    let sac_part = seq![0x8Cu8, 0x08] + sac;
    let df_part = if spec_is_df_mf(fdb) {
        seq![0x8Du8, 0x02, (((id + 3) as u16 >> 8) & 0xFF) as u8, ((id + 3) as u16 & 0xFF) as u8]
            + (if name.len() > 0 {
            seq![0x84u8, name.len() as u8] + name
        } else {
            Seq::empty()
        })
    } else {
        Seq::empty()
    };
    id_part + type_part + lcs_part + size_part + sac_part + df_part
}

/// Assembles the header bytes of a CREATE FILE command (the FCP envelope
/// with the body per `spec_construct_fci_body`, the compact security
/// attributes encoded from the access-control list).  A descriptor of
/// unknown category is refused with -1, as the host's profile layer
/// reports it; a record-organized kind without its record shape, and an
/// access-control entry outside the encodable set, are refused with
/// their errors.
#[verifier::rlimit(60)]
pub fn construct_fci(
    fdb: u8,
    id: u16,
    size: u16,
    record_length: u8,
    record_count: u8,
    name: &Vec<u8>,
    acl: &[AclEntry; SC_MAX_AC_OPS],
) -> (r: Result<Vec<u8>, i32>)
    requires
        spec_is_df_mf(fdb) ==> id <= 0xFFFC,
        name@.len() <= 32,
        (fdb == FDB_TRANSPARENT_EF || fdb == FDB_RSA_KEY_EF || fdb == FDB_ECC_KEY_EF) ==> size
            > 0,
    ensures
        match r {
            Ok(out) => {
                &&& spec_acl_category_of_fdb(fdb) matches Some(category)
                    && spec_acl_encodable(acl@, category) && out@ =~= seq![
                    0x6Fu8,
                    spec_construct_fci_body(
                        fdb,
                        id,
                        size,
                        record_length,
                        record_count,
                        name@,
                        spec_sac_encode(acl@, category),
                    ).len() as u8,
                ] + spec_construct_fci_body(
                    fdb,
                    id,
                    size,
                    record_length,
                    record_count,
                    name@,
                    spec_sac_encode(acl@, category),
                )
                &&& (spec_fdb_record_based(fdb) ==> record_length > 0 && record_count > 0)
            },
            Err(e) => {
                ||| (spec_acl_category_of_fdb(fdb) is None && e == -1)
                ||| (spec_acl_category_of_fdb(fdb) is Some && spec_fdb_record_based(fdb) && (
                record_length == 0 || record_count == 0) && e == SC_ERROR_INVALID_ARGUMENTS)
                ||| (spec_acl_category_of_fdb(fdb) matches Some(category) && !(
                spec_fdb_record_based(fdb) && (record_length == 0 || record_count == 0))
                    && !spec_acl_encodable(acl@, category) && e == crate::rv::SC_ERROR_NOT_ALLOWED)
            },
        },
{
    let acl_category: u8 = if is_df_mf(fdb) {
        ACL_CATEGORY_DF_MF
    } else if fdb == FDB_TRANSPARENT_EF || fdb == FDB_LINEAR_FIXED_EF || fdb
        == FDB_LINEAR_VARIABLE_EF || fdb == FDB_CYCLIC_EF || fdb == FDB_CHV_EF {
        ACL_CATEGORY_EF_CHV
    } else if fdb == FDB_RSA_KEY_EF || fdb == FDB_ECC_KEY_EF || fdb == FDB_SYMMETRIC_KEY_EF {
        ACL_CATEGORY_KEY
    } else if fdb == FDB_SE_FILE {
        ACL_CATEGORY_SE
    } else {
        return Err(-1);
    };
    let record_based: bool = fdb == FDB_LINEAR_FIXED_EF || fdb == FDB_LINEAR_VARIABLE_EF || fdb
        == FDB_CYCLIC_EF || fdb == FDB_CHV_EF || fdb == FDB_SYMMETRIC_KEY_EF || fdb == FDB_PURSE_EF
        || fdb == FDB_SE_FILE;
    if record_based && (record_length == 0 || record_count == 0) {
        return Err(SC_ERROR_INVALID_ARGUMENTS);
    }
    let sac: [u8; 8] = match convert_acl_array_to_bytes_tag_fcp_sac(acl, acl_category) {
        Ok(sac) => sac,
        Err(e) => {
            return Err(e);
        },
    };
    let mut body: Vec<u8> = Vec::new();
    let (id_hi, id_lo) = crate::mirror::id_bytes(id);
    body.push(0x83);
    body.push(0x02);
    body.push(id_hi);
    body.push(id_lo);
    if record_based {
        body.push(0x82);
        body.push(0x05);
        body.push(fdb);
        body.push(0x00);
        body.push(0x00);
        body.push(record_length);
        body.push(record_count);
    } else {
        body.push(0x82);
        body.push(0x02);
        body.push(fdb);
        body.push(0x00);
    }
    body.push(0x8A);
    body.push(0x01);
    body.push(0x01);
    if fdb == FDB_TRANSPARENT_EF || fdb == FDB_RSA_KEY_EF || fdb == FDB_ECC_KEY_EF {
        let (size_hi, size_lo) = crate::mirror::id_bytes(size);
        body.push(0x80);
        body.push(0x02);
        body.push(size_hi);
        body.push(size_lo);
    }
    body.push(0x8C);
    body.push(0x08);
    let mut i: usize = 0;
    let ghost before_sac = body@;
    while i < 8
        invariant
            i <= 8,
            body@ =~= before_sac + sac@.take(i as int),
        decreases 8 - i,
    {
        body.push(sac[i]);
        i = i + 1;
    }
    assert(body@ =~= before_sac + sac@);
    if is_df_mf(fdb) {
        let (se_hi, se_lo) = crate::mirror::id_bytes(id + 3);
        body.push(0x8D);
        body.push(0x02);
        body.push(se_hi);
        body.push(se_lo);
        if name.len() > 0 {
            body.push(0x84);
            body.push(name.len() as u8);
            let mut i: usize = 0;
            let ghost before_name = body@;
            while i < name.len()
                invariant
                    i <= name@.len(),
                    body@ =~= before_name + name@.take(i as int),
                decreases name@.len() - i,
            {
                body.push(name[i]);
                i = i + 1;
            }
            assert(body@ =~= before_name + name@);
        }
    }
    assert(body@ =~= spec_construct_fci_body(
        fdb,
        id,
        size,
        record_length,
        record_count,
        name@,
        spec_sac_encode(acl@, acl_category),
    ));
    let mut out: Vec<u8> = Vec::new();
    out.push(0x6F);
    out.push(body.len() as u8);
    let mut i: usize = 0;
    let ghost envelope = out@;
    while i < body.len()
        invariant
            i <= body@.len(),
            out@ =~= envelope + body@.take(i as int),
        decreases body@.len() - i,
    {
        out.push(body[i]);
        i = i + 1;
    }
    assert(out@ =~= envelope + body@);
    Ok(out)
}


} // verus!
