//! Mirror bookkeeping around the card exchanges: what a parsed header
//! contributes to the mirror, how enumeration and file creation register
//! entries, and how an enumeration visit records the path it walked.

use vstd::prelude::*;
use crate::fci::FCI;
use crate::mirror::{
    spec_id_bytes, id_bytes, spec_is_df_mf, is_df_mf, spec_record_wf, FileRecord, FDB_CYCLIC_EF,
    FDB_CHV_EF, FDB_LINEAR_FIXED_EF, FDB_LINEAR_VARIABLE_EF, FDB_PURSE_EF, FDB_RSA_KEY_EF,
    FDB_SE_FILE, FDB_SYMMETRIC_KEY_EF, MAX_PATH_SEGMENTS,
};
use crate::rv::{SC_SUCCESS, SC_ERROR_FILE_NOT_FOUND, SC_ERROR_NOT_ALLOWED};
use crate::session::Session;

verus! {

/// The PKCS#15 tags the driver notes in a key file's information block
/// once it can tell a public from a private key.
pub const PKCS15_FILE_TYPE_RSAPUBLICKEY: u8 = 9;
pub const PKCS15_FILE_TYPE_RSAPRIVATEKEY: u8 = 10;

/// The information bytes after a parsed header was folded in: the
/// life-cycle status is refreshed; a directory whose security-environment
/// file was still unknown gets its identifier; an RSA key file whose
/// PKCS#15 type was still unknown is tagged public or private by whether
/// its read slot is forbidden.
pub open spec fn spec_info_after_header(info: Seq<u8>, fdb: u8, lcsi: u8, seid: u16, scb0: u8) -> Seq<
    u8,
> {
    let info1 = info.update(7, lcsi);
    let info2 = if spec_is_df_mf(fdb) && info1[4] == 0 && info1[5] == 0 {
        info1.update(4, spec_id_bytes(seid).0).update(5, spec_id_bytes(seid).1)
    } else {
        info1
    };
    if info2[0] == FDB_RSA_KEY_EF && info2[6] == 0xFF {
        info2.update(
            6,
            if scb0 != 0xFF {
                PKCS15_FILE_TYPE_RSAPUBLICKEY
            } else {
                PKCS15_FILE_TYPE_RSAPRIVATEKEY
            },
        )
    } else {
        info2
    }
}

/// Folds a parsed file header into the mirror entry of the selected file:
/// the Security-Condition Bytes are cached exactly once (once `Some`, a
/// later select never changes them), the information bytes are refreshed
/// per `spec_info_after_header`, and a directory's expanded conditions are
/// stored unless some were stored already.  Nothing else changes: not the
/// entry's path, not its security-environment records, and no other entry.
pub fn process_fci_update(card: &mut Session, file_id: u16, fci: FCI) -> (r: i32)
    requires
        old(card).wf(),
    ensures
        final(card).wf(),
        final(card).current_path == old(card).current_path,
        final(card).does_mf_exist == old(card).does_mf_exist,
        final(card).is_running_init == old(card).is_running_init,
        final(card).is_running_cmd_long_response == old(card).is_running_cmd_long_response,
        final(card).is_running_compute_signature == old(card).is_running_compute_signature,
        final(card).sec_env == old(card).sec_env,
        final(card).sec_env_mod_len == old(card).sec_env_mod_len,
        !old(card).mirror@.contains_key(file_id) ==> r == SC_ERROR_FILE_NOT_FOUND && final(card).mirror@ == old(card).mirror@,
        old(card).mirror@.contains_key(file_id) ==> r == SC_SUCCESS && final(card).mirror@
            =~= old(card).mirror@.insert(file_id, final(card).mirror@[file_id]) && {
            let before = old(card).mirror@[file_id];
            let after = final(card).mirror@[file_id];
            &&& after.scb8 == (if before.scb8 is Some {
                before.scb8
            } else {
                Some(fci.scb8)
            })
            &&& after.info@ =~= spec_info_after_header(before.info@, fci.fdb, fci.lcsi, fci.seid, fci.scb8[0])
            &&& after.path == before.path
            &&& after.sac == before.sac
            &&& after.sae == (if spec_is_df_mf(fci.fdb) && before.sae is None && fci.sae@.len()
                > 0 {
                Some(fci.sae)
            } else {
                before.sae
            })
        },
{
    match card.mirror.files.remove(&file_id) {
        None => {
            proof {
                assert(old(card).mirror@.remove(file_id) =~= old(card).mirror@);
            }
            SC_ERROR_FILE_NOT_FOUND
        },
        Some(mut rec) => {
            let ghost before = rec;
            rec.info[7] = fci.lcsi;
            if is_df_mf(fci.fdb) && rec.info[4] == 0 && rec.info[5] == 0 {
                let (hi, lo) = id_bytes(fci.seid);
                rec.info[4] = hi;
                rec.info[5] = lo;
            }
            if rec.info[0] == FDB_RSA_KEY_EF && rec.info[6] == 0xFF {
                rec.info[6] = if fci.scb8[0] != 0xFF {
                    PKCS15_FILE_TYPE_RSAPUBLICKEY
                } else {
                    PKCS15_FILE_TYPE_RSAPRIVATEKEY
                };
            }
            assert(rec.info@ =~= spec_info_after_header(before.info@, fci.fdb, fci.lcsi, fci.seid, fci.scb8[0]));
            if rec.scb8.is_none() {
                rec.scb8 = Some(fci.scb8);
            }
            if is_df_mf(fci.fdb) && rec.sae.is_none() && fci.sae.len() > 0 {
                rec.sae = Some(fci.sae);
            }
            proof {
                assert(spec_record_wf(rec, file_id)) by {
                    assert(spec_record_wf(before, file_id));
                    assert(rec.info@[2] == before.info@[2] && rec.info@[3] == before.info@[3]);
                }
            }
            card.mirror.files.insert(file_id, rec);
            proof {
                assert(final(card).mirror@ =~= old(card).mirror@.insert(
                    file_id,
                    final(card).mirror@[file_id],
                ));
            }
            SC_SUCCESS
        },
    }
}


/// Processes a file header as received from the chip: parses it (per
/// `parse_fci`) and folds it into the selected file's mirror entry (per
/// `process_fci_update`).  A header without the mandatory
/// security-condition value, or with an inconsistent one, leaves the
/// session untouched and hands the decode error to the caller unchanged:
/// errors are not recovered silently.
pub fn process_fci(card: &mut Session, file_id: u16, header: &[u8]) -> (r: i32)
    requires
        old(card).wf(),
    ensures
        final(card).wf(),
        final(card).current_path == old(card).current_path,
        final(card).does_mf_exist == old(card).does_mf_exist,
        final(card).is_running_init == old(card).is_running_init,
        final(card).is_running_cmd_long_response == old(card).is_running_cmd_long_response,
        final(card).is_running_compute_signature == old(card).is_running_compute_signature,
        final(card).sec_env == old(card).sec_env,
        final(card).sec_env_mod_len == old(card).sec_env_mod_len,
        match crate::tlv::spec_tlv_find(header@, 0x8C) {
            None => r == crate::rv::SC_ERROR_UNKNOWN_DATA_RECEIVED && final(card).mirror@ == old(
                card,
            ).mirror@,
            Some(v) => if !(v.len() <= 8 && crate::sac::spec_sac_consistent(v)) {
                r == crate::rv::SC_ERROR_KEYPAD_MSG_TOO_LONG && final(card).mirror@ == old(
                    card,
                ).mirror@
            } else if !old(card).mirror@.contains_key(file_id) {
                r == SC_ERROR_FILE_NOT_FOUND && final(card).mirror@ == old(card).mirror@
            } else {
                r == SC_SUCCESS && final(card).mirror@ =~= old(card).mirror@.insert(
                    file_id,
                    final(card).mirror@[file_id],
                ) && {
                    let b = header@;
                    let before = old(card).mirror@[file_id];
                    let after = final(card).mirror@[file_id];
                    &&& (after.scb8 matches Some(scb8) && scb8@ =~= (if before.scb8 is Some {
                        before.scb8->Some_0@
                    } else {
                        crate::sac::spec_scb8(v)
                    }))
                    &&& after.info@ =~= spec_info_after_header(
                        before.info@,
                        crate::fci::spec_fci_fdb(b),
                        crate::fci::spec_fci_lcsi(b),
                        crate::fci::spec_fci_seid(b),
                        crate::sac::spec_scb8(v)[0],
                    )
                    &&& after.path == before.path
                    &&& after.sac == before.sac
                    &&& (if spec_is_df_mf(crate::fci::spec_fci_fdb(b)) && before.sae is None
                        && crate::fci::spec_fci_sae(b).len() > 0 {
                        after.sae matches Some(entries) && entries@ =~= crate::fci::spec_fci_sae(b)
                    } else {
                        after.sae == before.sae
                    })
                }
            },
        },
{
    let fci = match crate::fci::parse_fci(header) {
        Ok(fci) => fci,
        Err(e) => {
            return e;
        },
    };
    let ghost v = crate::tlv::spec_tlv_find(header@, 0x8C)->Some_0;
    assert(fci.scb8@ =~= crate::sac::spec_scb8(v));
    process_fci_update(card, file_id, fci)
}

/// Registers one file that a directory listing reported, under the eight
/// file-information bytes from the card (which carry the identifier in
/// their third and fourth byte).  A duplicate identifier is fatal to
/// initialization: the mirror stays as it is and `SC_ERROR_NOT_ALLOWED`
/// comes back.
pub fn register_enumerated_file(card: &mut Session, info: [u8; 8]) -> (r: i32)
    requires
        old(card).wf(),
    ensures
        final(card).wf(),
        final(card).current_path == old(card).current_path,
        final(card).does_mf_exist == old(card).does_mf_exist,
        final(card).is_running_init == old(card).is_running_init,
        final(card).is_running_cmd_long_response == old(card).is_running_cmd_long_response,
        final(card).is_running_compute_signature == old(card).is_running_compute_signature,
        final(card).sec_env == old(card).sec_env,
        final(card).sec_env_mod_len == old(card).sec_env_mod_len,
        ({
            let id = (((info[2] as u16) << 8) | (info[3] as u16)) as u16;
            &&& old(card).mirror@.contains_key(id) ==> r == SC_ERROR_NOT_ALLOWED && final(card).mirror@ == old(card).mirror@
            &&& !old(card).mirror@.contains_key(id) ==> r == SC_SUCCESS && final(card).mirror@
                == old(card).mirror@.insert(id, final(card).mirror@[id]) && final(card).mirror@[id].info == info && final(card).mirror@[id].scb8 is None
        }),
{
    let id: u16 = ((info[2] as u16) << 8) | (info[3] as u16);
    proof {
        let hi = info[2];
        let lo = info[3];
        assert(((((hi as u16) << 8) | (lo as u16)) >> 8) & 0xFF == hi as u16 && (((hi as u16) << 8)
            | (lo as u16)) & 0xFF == lo as u16) by (bit_vector);
    }
    card.mirror.insert_from_enumeration(id, info)
}

/// Records the path under which an enumeration visit reached a file, in
/// the entry's path field and its path-length byte (the card counts the
/// path in bytes, two per component).
pub fn enum_dir_visit(card: &mut Session, path: Vec<u16>) -> (r: i32)
    requires
        old(card).wf(),
        0 < path@.len() <= MAX_PATH_SEGMENTS,
    ensures
        final(card).wf(),
        final(card).current_path == old(card).current_path,
        final(card).does_mf_exist == old(card).does_mf_exist,
        final(card).is_running_init == old(card).is_running_init,
        final(card).is_running_cmd_long_response == old(card).is_running_cmd_long_response,
        final(card).is_running_compute_signature == old(card).is_running_compute_signature,
        final(card).sec_env == old(card).sec_env,
        final(card).sec_env_mod_len == old(card).sec_env_mod_len,
        ({
            let id = path@.last();
            &&& !old(card).mirror@.contains_key(id) ==> r == SC_ERROR_FILE_NOT_FOUND && final(card).mirror@ == old(card).mirror@
            &&& old(card).mirror@.contains_key(id) ==> r == SC_SUCCESS && final(card).mirror@
                =~= old(card).mirror@.insert(id, final(card).mirror@[id]) && final(card).mirror@[id].path == path && final(card).mirror@[id].info@ =~= old(card).mirror@[id].info@.update(1, (2 * path@.len()) as u8) && final(card).mirror@[id].scb8
                == old(card).mirror@[id].scb8 && final(card).mirror@[id].sac == old(card).mirror@[id].sac && final(card).mirror@[id].sae == old(card).mirror@[id].sae
        }),
{
    let id: u16 = path[path.len() - 1];
    match card.mirror.files.remove(&id) {
        None => {
            proof {
                assert(old(card).mirror@.remove(id) =~= old(card).mirror@);
            }
            SC_ERROR_FILE_NOT_FOUND
        },
        Some(mut rec) => {
            let ghost before = rec;
            let path_len: usize = path.len();
            rec.path = path;
            rec.info[1] = (2 * path_len) as u8;
            proof {
                assert(spec_record_wf(rec, id)) by {
                    assert(spec_record_wf(before, id));
                }
                assert(rec.info@ =~= before.info@.update(1, (2 * path@.len()) as u8));
            }
            card.mirror.files.insert(id, rec);
            proof {
                assert(final(card).mirror@ =~= old(card).mirror@.insert(
                    id,
                    final(card).mirror@[id],
                ));
            }
            SC_SUCCESS
        },
    }
}

/// Whether a file-descriptor byte names a record-organized file kind.
pub open spec fn spec_is_record_based(fdb: u8) -> bool {
    fdb == FDB_LINEAR_FIXED_EF || fdb == FDB_LINEAR_VARIABLE_EF || fdb == FDB_CYCLIC_EF || fdb
        == FDB_CHV_EF || fdb == FDB_SYMMETRIC_KEY_EF || fdb == FDB_PURSE_EF || fdb == FDB_SE_FILE
}

/// The two size bytes a freshly created file's information block carries:
/// record length and count for a record-organized kind, the size for a
/// transparent or key file, and for a directory the identifier of its
/// conventional security-environment file (the directory's own identifier
/// plus three).
pub open spec fn spec_create_size_bytes(fdb: u8, id: u16, record_length: u8, record_count: u8, size: u16) -> (
    u8,
    u8,
) {
    if spec_is_record_based(fdb) {
        (record_length, record_count)
    } else if spec_is_df_mf(fdb) {
        spec_id_bytes((id + 3) as u16)
    } else {
        spec_id_bytes(size)
    }
}

/// After the chip confirmed a CREATE FILE: registers the new file in the
/// mirror, under the directory the cursor stands in, with the information
/// block a fresh file gets ({descriptor, path bytes, identifier, size
/// bytes per `spec_create_size_bytes`, no PKCS#15 type, created status}).
/// A duplicate identifier is refused with `SC_ERROR_NOT_ALLOWED` and
/// leaves the mirror exactly as it was; so is a file that would lie
/// deeper than the card supports.
pub fn create_file_commit(
    card: &mut Session,
    file_id: u16,
    fdb: u8,
    record_length: u8,
    record_count: u8,
    size: u16,
) -> (r: i32)
    requires
        old(card).wf(),
        spec_is_df_mf(fdb) ==> file_id <= 0xFFFC,
    ensures
        final(card).wf(),
        final(card).current_path == old(card).current_path,
        final(card).does_mf_exist == old(card).does_mf_exist,
        final(card).is_running_init == old(card).is_running_init,
        final(card).is_running_cmd_long_response == old(card).is_running_cmd_long_response,
        final(card).is_running_compute_signature == old(card).is_running_compute_signature,
        final(card).sec_env == old(card).sec_env,
        final(card).sec_env_mod_len == old(card).sec_env_mod_len,
        file_id == 0 ==> r == crate::rv::SC_ERROR_INVALID_ARGUMENTS && final(card).mirror@ == old(
            card,
        ).mirror@,
        file_id != 0 && old(card).mirror@.contains_key(file_id) ==> r == SC_ERROR_NOT_ALLOWED
            && final(card).mirror@ == old(card).mirror@,
        file_id != 0 && !old(card).mirror@.contains_key(file_id) && crate::select::spec_current_path_df(
            *old(card),
        ).len() >= MAX_PATH_SEGMENTS ==> r == SC_ERROR_NOT_ALLOWED && final(card).mirror@ == old(
            card,
        ).mirror@,
        file_id != 0 && !old(card).mirror@.contains_key(file_id) && crate::select::spec_current_path_df(
            *old(card),
        ).len() < MAX_PATH_SEGMENTS ==> r == SC_SUCCESS && final(card).mirror@ == old(card).mirror@.insert(file_id, final(card).mirror@[file_id]) && {
            let rec = final(card).mirror@[file_id];
            let df = crate::select::spec_current_path_df(*old(card));
            &&& rec.path@ =~= df.push(file_id)
            &&& rec.scb8 is None
            &&& rec.info@[0] == fdb
            &&& rec.info@[1] == 2 * (df.len() + 1)
            &&& rec.info@[2] == spec_id_bytes(file_id).0
            &&& rec.info@[3] == spec_id_bytes(file_id).1
            &&& (rec.info@[4], rec.info@[5]) == spec_create_size_bytes(
                fdb,
                file_id,
                record_length,
                record_count,
                size,
            )
            &&& rec.info@[6] == 0xFF
            &&& rec.info@[7] == 1
        },
{
    if file_id == 0 {
        return crate::rv::SC_ERROR_INVALID_ARGUMENTS;
    }
    if card.mirror.contains(file_id) {
        return SC_ERROR_NOT_ALLOWED;
    }
    let mut path: Vec<u16> = crate::select::current_path_df(card);
    if path.len() >= MAX_PATH_SEGMENTS {
        return SC_ERROR_NOT_ALLOWED;
    }
    path.push(file_id);
    let (id_hi, id_lo) = id_bytes(file_id);
    let (b4, b5): (u8, u8) = if fdb == FDB_LINEAR_FIXED_EF || fdb == FDB_LINEAR_VARIABLE_EF || fdb
        == FDB_CYCLIC_EF || fdb == FDB_CHV_EF || fdb == FDB_SYMMETRIC_KEY_EF || fdb == FDB_PURSE_EF
        || fdb == FDB_SE_FILE {
        (record_length, record_count)
    } else if is_df_mf(fdb) {
        id_bytes(file_id + 3)
    } else {
        id_bytes(size)
    };
    let info: [u8; 8] = [fdb, (2 * path.len()) as u8, id_hi, id_lo, b4, b5, 0xFF, 1];
    card.mirror.insert_from_creation(file_id, path, info)
}


} // verus!
