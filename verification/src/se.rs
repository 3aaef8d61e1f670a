//! Security-environment (SE) records.
//!
//! Each record of a directory's SE file names one security environment:
//! a reference byte followed by Control-Reference Templates (CRTs), each a
//! TLV whose value again holds TLVs for the algorithm reference (tag 0x80),
//! the key or PIN reference (tag 0x83) and the usage qualifier (tag 0x95).
//! The access decision engine consults these records to decide whether a
//! secure-messaging-protected exchange is possible under a given SCB.

use vstd::prelude::*;
use crate::rv::SC_ERROR_INVALID_ARGUMENTS;
use crate::tlv::{spec_tlv_find, spec_tlv_list, tlv_find};

verus! {

/// CRT tags the driver knows: authentication, hash, cryptographic
/// checksum, digital signature and confidentiality templates.
pub const CRT_TAG_AT: u8 = 0xA4;
pub const CRT_TAG_HT: u8 = 0xAA;
pub const CRT_TAG_CCT: u8 = 0xB4;
pub const CRT_TAG_DST: u8 = 0xB6;
pub const CRT_TAG_CT: u8 = 0xB8;

/// The usage-qualifier value that marks a template as usable for secure
/// messaging.
pub const SM_USAGE: u8 = 0x30;

/// One Control-Reference Template of a security-environment record.
/// A field whose tag is absent from the template (or whose value is not a
/// single byte) is zero.
#[derive(Clone, Copy, Debug, PartialEq, Eq, Structural)]
pub struct SacCrt {
    pub tag: u8,
    pub algo: u8,
    pub key_ref: u8,
    pub usage: u8,
}

/// One security-environment record: its reference byte and its templates.
#[derive(Clone, Debug, PartialEq, Eq)]
pub struct SacRecord {
    pub reference: u8,
    pub crts: Vec<SacCrt>,
}

/// The single-byte value of the first inner triple with `tag`, or zero.
pub open spec fn spec_crt_field(v: Seq<u8>, tag: u8) -> u8 {
    match spec_tlv_find(v, tag) {
        Some(x) => if x.len() == 1 {
            x[0]
        } else {
            0u8
        },
        None => 0u8,
    }
}

/// The template a {tag, value} triple of a record parses to.
pub open spec fn spec_crt_of_tlv(tag: u8, v: Seq<u8>) -> SacCrt {
    SacCrt {
        tag,
        algo: spec_crt_field(v, 0x80),
        key_ref: spec_crt_field(v, 0x83),
        usage: spec_crt_field(v, 0x95),
    }
}

/// The templates of a record body: one per complete {tag, value} triple.
pub open spec fn spec_crts_of_body(body: Seq<u8>) -> Seq<SacCrt> {
    spec_tlv_list(body).map_values(|tv: (u8, Seq<u8>)| spec_crt_of_tlv(tv.0, tv.1))
}

/// Reads the single-byte value of the first inner triple with `tag`,
/// per `spec_crt_field`.
fn crt_field(v: &[u8], tag: u8) -> (r: u8)
    ensures
        r == spec_crt_field(v@, tag),
{
    match tlv_find(v, tag) {
        Some((off, len)) => {
            if len == 1 {
                v[off]
            } else {
                0
            }
        },
        None => 0,
    }
}

/// Parses one record of a security-environment file.  The record starts
/// with the triple `80 01 <reference>`; the bytes after it hold the CRTs.
/// A record that does not start so is rejected as invalid; the CRT walk
/// itself is lenient: it stops at a zero tag (record padding) or at a
/// truncated trailing triple.
pub fn se_parse_sac(record: &[u8]) -> (r: Result<SacRecord, i32>)
    ensures
        (record@.len() >= 3 && record@[0] == 0x80 && record@[1] == 0x01) ==> (r matches Ok(rec)
            && rec.reference == record@[2] && rec.crts@ =~= spec_crts_of_body(record@.skip(3))),
        !(record@.len() >= 3 && record@[0] == 0x80 && record@[1] == 0x01) ==> r == Err::<
            SacRecord,
            i32,
        >(SC_ERROR_INVALID_ARGUMENTS),
{
    if record.len() < 3 || record[0] != 0x80 || record[1] != 0x01 {
        return Err(SC_ERROR_INVALID_ARGUMENTS);
    }
    let reference: u8 = record[2];
    let mut crts: Vec<SacCrt> = Vec::new();
    let mut pos: usize = 3;
    assert(record@.skip(3).skip(0) =~= record@.skip(3));
    loop
        invariant
            3 <= pos <= record@.len(),
            crts@ + spec_crts_of_body(record@.skip(pos as int)) =~= spec_crts_of_body(
                record@.skip(3),
            ),
        ensures
            crts@ =~= spec_crts_of_body(record@.skip(3)),
        decreases record@.len() - pos,
    {
        if record.len() - pos < 2 || record[pos] == 0 {
            assert(spec_tlv_list(record@.skip(pos as int)) =~= Seq::<(u8, Seq<u8>)>::empty());
            assert(spec_crts_of_body(record@.skip(pos as int)) =~= Seq::<SacCrt>::empty());
            break;
        }
        let l: usize = record[pos + 1] as usize;
        if 2 + l > record.len() - pos {
            assert(spec_tlv_list(record@.skip(pos as int)) =~= Seq::<(u8, Seq<u8>)>::empty());
            assert(spec_crts_of_body(record@.skip(pos as int)) =~= Seq::<SacCrt>::empty());
            break;
        }
        let tag: u8 = record[pos];
        proof {
            assert(record@.skip(pos as int).subrange(2, 2 + l as int) =~= record@.subrange(
                pos + 2,
                pos + 2 + l,
            ));
            assert(record@.skip(pos as int).skip(2 + l as int) =~= record@.skip(pos + 2 + l));
        }
        let algo: u8 = crt_field(&record[pos + 2..pos + 2 + l], 0x80);
        let key_ref: u8 = crt_field(&record[pos + 2..pos + 2 + l], 0x83);
        let usage: u8 = crt_field(&record[pos + 2..pos + 2 + l], 0x95);
        crts.push(SacCrt { tag, algo, key_ref, usage });
        pos = pos + 2 + l;
    }
    Ok(SacRecord { reference, crts })
}

/// Among the first `n` records there is one with this reference whose
/// templates carry one with the given tag, marked for secure messaging.
pub open spec fn spec_has_sm_crt_upto(records: Seq<SacRecord>, se_ref: u8, tag: u8, n: int) -> bool {
    exists|i: int, j: int|
        0 <= i < n && i < records.len() && records[i].reference == se_ref && 0 <= j
            < (#[trigger] records[i]).crts@.len() && (#[trigger] records[i].crts@[j]).tag == tag
            && records[i].crts@[j].usage == SM_USAGE
}

/// The record list has a record with this reference whose templates
/// carry one with the given tag, marked for secure messaging.
pub open spec fn spec_sac_has_sm_crt(records: Seq<SacRecord>, se_ref: u8, tag: u8) -> bool {
    spec_has_sm_crt_upto(records, se_ref, tag, records.len() as int)
}

/// One record more: what the search among the first `n + 1` records adds
/// over the search among the first `n`.
pub proof fn lemma_has_sm_crt_step(records: Seq<SacRecord>, se_ref: u8, tag: u8, n: int)
    requires
        0 <= n < records.len(),
    ensures
        spec_has_sm_crt_upto(records, se_ref, tag, n + 1) <==> (spec_has_sm_crt_upto(
            records,
            se_ref,
            tag,
            n,
        ) || (records[n].reference == se_ref && exists|j: int|
            0 <= j < records[n].crts@.len() && (#[trigger] records[n].crts@[j]).tag == tag
                && records[n].crts@[j].usage == SM_USAGE)),
{
    if spec_has_sm_crt_upto(records, se_ref, tag, n + 1) {
        let (i, j) = choose|i: int, j: int|
            0 <= i < n + 1 && i < records.len() && records[i].reference == se_ref && 0 <= j
                < (#[trigger] records[i]).crts@.len() && (#[trigger] records[i].crts@[j]).tag == tag
                && records[i].crts@[j].usage == SM_USAGE;
        if i < n {
            assert(spec_has_sm_crt_upto(records, se_ref, tag, n));
        } else {
            assert(records[n].crts@[j].tag == tag && records[n].crts@[j].usage == SM_USAGE);
        }
    }
}

/// Decides from a directory's security-environment records whether the
/// low nibble of an SCB that demands secure messaging can be satisfied:
/// the first component is true when the named environment offers a
/// cryptographic-checksum template marked for secure messaging, the second
/// when it also offers a confidentiality template so marked (the exchange
/// is then enciphered, not only authenticated).
pub fn se_get_is_scb_suitable_for_sm_has_ct(records: &Vec<SacRecord>, se_ref: u8) -> (r: (
    bool,
    bool,
))
    ensures
        r.0 == spec_sac_has_sm_crt(records@, se_ref, CRT_TAG_CCT),
        r.1 == spec_sac_has_sm_crt(records@, se_ref, CRT_TAG_CT),
{
    let mut has_cct: bool = false;
    let mut has_ct: bool = false;
    let mut i: usize = 0;
    while i < records.len()
        invariant
            i <= records@.len(),
            has_cct == spec_has_sm_crt_upto(records@, se_ref, CRT_TAG_CCT, i as int),
            has_ct == spec_has_sm_crt_upto(records@, se_ref, CRT_TAG_CT, i as int),
        decreases records@.len() - i,
    {
        if records[i].reference == se_ref {
            let crts: &Vec<SacCrt> = &records[i].crts;
            let mut rec_cct: bool = false;
            let mut rec_ct: bool = false;
            let mut j: usize = 0;
            while j < crts.len()
                invariant
                    j <= crts@.len(),
                    rec_cct == exists|jj: int|
                        0 <= jj < j && (#[trigger] crts@[jj]).tag == CRT_TAG_CCT && crts@[jj].usage
                            == SM_USAGE,
                    rec_ct == exists|jj: int|
                        0 <= jj < j && (#[trigger] crts@[jj]).tag == CRT_TAG_CT && crts@[jj].usage
                            == SM_USAGE,
                decreases crts@.len() - j,
            {
                if crts[j].usage == SM_USAGE {
                    if crts[j].tag == CRT_TAG_CCT {
                        rec_cct = true;
                    }
                    if crts[j].tag == CRT_TAG_CT {
                        rec_ct = true;
                    }
                }
                j = j + 1;
            }
            proof {
                lemma_has_sm_crt_step(records@, se_ref, CRT_TAG_CCT, i as int);
                lemma_has_sm_crt_step(records@, se_ref, CRT_TAG_CT, i as int);
            }
            has_cct = has_cct || rec_cct;
            has_ct = has_ct || rec_ct;
        } else {
            proof {
                lemma_has_sm_crt_step(records@, se_ref, CRT_TAG_CCT, i as int);
                lemma_has_sm_crt_step(records@, se_ref, CRT_TAG_CT, i as int);
            }
        }
        i = i + 1;
    }
    (has_cct, has_ct)
}

/// The fixed 33-byte record a FIPS-compliant card of the third
/// generation holds under `(is_local, rec_nr)`: the reference triple,
/// then the authentication, checksum and confidentiality templates that
/// the compliance mode prescribes — key 1 authentication for the first
/// environments, the user PIN for the third and fourth local ones, and
/// secure messaging under key 2 where a template pair B4/B8 appears.
pub open spec fn spec_known_fips_record(is_local: bool, rec_nr: u32) -> Seq<u8> {
    if is_local {
        if rec_nr == 1 {
            seq![0x80u8, 0x01, 0x01, 0xA4, 0x06, 0x83, 0x01, 0x01, 0x95, 0x01, 0x80, 0, 0, 0, 0, 0,
                0, 0, 0, 0, 0, 0, 0, 0, 0, 0, 0, 0, 0, 0, 0, 0, 0]
        } else if rec_nr == 2 {
            seq![0x80u8, 0x01, 0x02, 0xA4, 0x06, 0x83, 0x01, 0x01, 0x95, 0x01, 0x80, 0xB4, 0x09,
                0x80, 0x01, 0x02, 0x83, 0x01, 0x02, 0x95, 0x01, 0x30, 0xB8, 0x09, 0x80, 0x01, 0x02,
                0x83, 0x01, 0x02, 0x95, 0x01, 0x30]
        } else if rec_nr == 3 {
            seq![0x80u8, 0x01, 0x03, 0xA4, 0x06, 0x83, 0x01, 0x81, 0x95, 0x01, 0x08, 0, 0, 0, 0, 0,
                0, 0, 0, 0, 0, 0, 0, 0, 0, 0, 0, 0, 0, 0, 0, 0, 0]
        } else if rec_nr == 4 {
            seq![0x80u8, 0x01, 0x04, 0xA4, 0x06, 0x83, 0x01, 0x81, 0x95, 0x01, 0x08, 0xB4, 0x09,
                0x80, 0x01, 0x02, 0x83, 0x01, 0x02, 0x95, 0x01, 0x30, 0xB8, 0x09, 0x80, 0x01, 0x02,
                0x83, 0x01, 0x02, 0x95, 0x01, 0x30]
        } else {
            seq![0x80u8, 0x01, 0x05, 0xB4, 0x09, 0x80, 0x01, 0x02, 0x83, 0x01, 0x02, 0x95, 0x01,
                0x30, 0xB8, 0x09, 0x80, 0x01, 0x02, 0x83, 0x01, 0x02, 0x95, 0x01, 0x30, 0, 0, 0, 0,
                0, 0, 0, 0]
        }
    } else {
        if rec_nr == 1 {
            seq![0x80u8, 0x01, 0x01, 0xA4, 0x06, 0x83, 0x01, 0x01, 0x95, 0x01, 0x80, 0, 0, 0, 0, 0,
                0, 0, 0, 0, 0, 0, 0, 0, 0, 0, 0, 0, 0, 0, 0, 0, 0]
        } else {
            seq![0x80u8, 0x01, 0x02, 0xA4, 0x06, 0x83, 0x01, 0x01, 0x95, 0x01, 0x80, 0xB4, 0x09,
                0x80, 0x01, 0x02, 0x83, 0x01, 0x02, 0x95, 0x01, 0x30, 0xB8, 0x09, 0x80, 0x01, 0x02,
                0x83, 0x01, 0x02, 0x95, 0x01, 0x30]
        }
    }
}

/// The fixed security-environment records that a FIPS-compliant card of
/// the third generation is known to hold; under that compliance mode the
/// driver substitutes them instead of reading the SE file.  `is_local`
/// selects the records of an application directory rather than those of
/// the root; record numbers run from 1 (to 5 locally, to 2 globally).
/// The buffer is overwritten with the whole record, per
/// `spec_known_fips_record`.
pub fn get_known_sec_env_entry_v3_fips(is_local: bool, rec_nr: u32, buf: &mut [u8])
    requires
        old(buf)@.len() == 33,
        is_local ==> 1 <= rec_nr <= 5,
        !is_local ==> 1 <= rec_nr <= 2,
    ensures
        final(buf)@ =~= spec_known_fips_record(is_local, rec_nr),
{
    if is_local {
        if rec_nr == 1 {
            copy_33(buf, &[0x80, 0x01, 0x01, 0xA4, 0x06, 0x83, 0x01, 0x01, 0x95, 0x01, 0x80, 0, 0,
                0, 0, 0, 0, 0, 0, 0, 0, 0, 0, 0, 0, 0, 0, 0, 0, 0, 0, 0, 0]);
        } else if rec_nr == 2 {
            copy_33(buf, &[0x80, 0x01, 0x02, 0xA4, 0x06, 0x83, 0x01, 0x01, 0x95, 0x01, 0x80, 0xB4,
                0x09, 0x80, 0x01, 0x02, 0x83, 0x01, 0x02, 0x95, 0x01, 0x30, 0xB8, 0x09, 0x80, 0x01,
                0x02, 0x83, 0x01, 0x02, 0x95, 0x01, 0x30]);
        } else if rec_nr == 3 {
            copy_33(buf, &[0x80, 0x01, 0x03, 0xA4, 0x06, 0x83, 0x01, 0x81, 0x95, 0x01, 0x08, 0, 0,
                0, 0, 0, 0, 0, 0, 0, 0, 0, 0, 0, 0, 0, 0, 0, 0, 0, 0, 0, 0]);
        } else if rec_nr == 4 {
            copy_33(buf, &[0x80, 0x01, 0x04, 0xA4, 0x06, 0x83, 0x01, 0x81, 0x95, 0x01, 0x08, 0xB4,
                0x09, 0x80, 0x01, 0x02, 0x83, 0x01, 0x02, 0x95, 0x01, 0x30, 0xB8, 0x09, 0x80, 0x01,
                0x02, 0x83, 0x01, 0x02, 0x95, 0x01, 0x30]);
        } else {
            copy_33(buf, &[0x80, 0x01, 0x05, 0xB4, 0x09, 0x80, 0x01, 0x02, 0x83, 0x01, 0x02, 0x95,
                0x01, 0x30, 0xB8, 0x09, 0x80, 0x01, 0x02, 0x83, 0x01, 0x02, 0x95, 0x01, 0x30, 0, 0,
                0, 0, 0, 0, 0, 0]);
        }
    } else {
        if rec_nr == 1 {
            copy_33(buf, &[0x80, 0x01, 0x01, 0xA4, 0x06, 0x83, 0x01, 0x01, 0x95, 0x01, 0x80, 0, 0,
                0, 0, 0, 0, 0, 0, 0, 0, 0, 0, 0, 0, 0, 0, 0, 0, 0, 0, 0, 0]);
        } else {
            copy_33(buf, &[0x80, 0x01, 0x02, 0xA4, 0x06, 0x83, 0x01, 0x01, 0x95, 0x01, 0x80, 0xB4,
                0x09, 0x80, 0x01, 0x02, 0x83, 0x01, 0x02, 0x95, 0x01, 0x30, 0xB8, 0x09, 0x80, 0x01,
                0x02, 0x83, 0x01, 0x02, 0x95, 0x01, 0x30]);
        }
    }
}

/// Copies a whole 33-byte record into the caller's buffer.
fn copy_33(buf: &mut [u8], src: &[u8; 33])
    requires
        old(buf)@.len() == 33,
    ensures
        final(buf)@ =~= src@,
{
    let mut i: usize = 0;
    while i < 33
        invariant
            i <= 33,
            buf@.len() == 33,
            forall|k: int| 0 <= k < i ==> buf@[k] == src@[k],
        decreases 33 - i,
    {
        buf[i] = src[i];
        i = i + 1;
    }
}

} // verus!
