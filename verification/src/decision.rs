//! The access decision engine: for each file operation, whether to execute
//! it plainly, to escalate it to a secure-messaging-protected exchange, or
//! to refuse it — decided afresh per operation from the target's cached
//! Security-Condition Byte and the applicable security-environment
//! records.  No transport exchange is involved in a decision; a refused
//! operation never reaches the card.

use vstd::prelude::*;
use crate::mirror::{
    FileRecord, spec_is_df_mf, is_df_mf, FDB_CYCLIC_EF, FDB_LINEAR_VARIABLE_EF, FDB_RSA_KEY_EF,
    FDB_SE_FILE, FDB_SYMMETRIC_KEY_EF, FDB_TRANSPARENT_EF,
};
use crate::rv::{
    SC_ERROR_INVALID_ARGUMENTS, SC_ERROR_NOT_ALLOWED, SC_ERROR_NO_CARD_SUPPORT,
    SC_ERROR_SECURITY_STATUS_NOT_SATISFIED,
};
use crate::se::{se_get_is_scb_suitable_for_sm_has_ct, spec_sac_has_sm_crt, SacRecord, CRT_TAG_CCT,
    CRT_TAG_CT};
use crate::fci::{sae_scb_for_command, spec_sae_scb, SaeEntry};
use crate::session::Session;

verus! {

/// The SCB value that forbids an operation outright.
pub const SCB_NEVER: u8 = 0xFF;

/// The SCB bit that demands a secure-messaging-protected exchange.
pub const SCB_SM_BIT: u8 = 0x40;

/// What the engine decides for one operation on one file.
#[derive(Clone, Copy, Debug, PartialEq, Eq, Structural)]
pub enum AccessDecision {
    /// Execute the plain exchange (PIN-gated conditions, if any, are
    /// enforced by the chip itself).
    Execute,
    /// Execute, but through the GET DATA route a key file requires for a
    /// transparent read.
    ExecuteKeyFile,
    /// Execute through the secure-messaging sub-protocol; `enciphered`
    /// says whether the named environment also provides confidentiality.
    ExecuteViaSecureChannel { enciphered: bool },
    /// Refuse, with the error the caller reports.
    Deny { rv: i32 },
}

/// The security-environment records that govern an operation on `id`: a
/// directory is governed by its own records, any other file by those of
/// the directory it stands in; no records when none are cached.
pub open spec fn spec_sac_records_for(m: Map<u16, FileRecord>, id: u16) -> Seq<SacRecord> {
    if !m.contains_key(id) {
        Seq::empty()
    } else {
        let rec = m[id];
        if spec_is_df_mf(rec.info@[0]) {
            spec_sac_of(rec)
        } else if rec.path@.len() >= 2 {
            let df = rec.path@[rec.path@.len() - 2];
            if m.contains_key(df) {
                spec_sac_of(m[df])
            } else {
                Seq::empty()
            }
        } else {
            Seq::empty()
        }
    }
}

pub open spec fn spec_sac_of(rec: FileRecord) -> Seq<SacRecord> {
    match rec.sac {
        Some(v) => v@,
        None => Seq::empty(),
    }
}

/// What a Security-Condition Byte decides, given the governing records:
/// the forbidden sentinel denies; the secure-messaging bit escalates when
/// the environment named by the low nibble offers an authenticating
/// template (enciphered when it offers a confidentiality template too)
/// and denies otherwise; anything else executes plainly.
pub open spec fn spec_decide_by_scb(scb: u8, records: Seq<SacRecord>) -> AccessDecision {
    if scb == SCB_NEVER {
        AccessDecision::Deny { rv: SC_ERROR_SECURITY_STATUS_NOT_SATISFIED }
    } else if scb & SCB_SM_BIT == SCB_SM_BIT {
        if spec_sac_has_sm_crt(records, scb & 0x0F, CRT_TAG_CCT) {
            AccessDecision::ExecuteViaSecureChannel {
                enciphered: spec_sac_has_sm_crt(records, scb & 0x0F, CRT_TAG_CT),
            }
        } else {
            AccessDecision::Deny { rv: SC_ERROR_SECURITY_STATUS_NOT_SATISFIED }
        }
    } else {
        AccessDecision::Execute
    }
}

/// Looks up the governing records of the file at the cursor and decides
/// for the given SCB, per `spec_decide_by_scb` over
/// `spec_sac_records_for`.
fn decide_by_scb_at(card: &Session, file_id: u16, scb: u8) -> (r: AccessDecision)
    requires
        card.wf(),
        card.mirror@.contains_key(file_id),
    ensures
        r == spec_decide_by_scb(scb, spec_sac_records_for(card.mirror@, file_id)),
{
    if scb == SCB_NEVER {
        return AccessDecision::Deny { rv: SC_ERROR_SECURITY_STATUS_NOT_SATISFIED };
    }
    if scb & SCB_SM_BIT != SCB_SM_BIT {
        return AccessDecision::Execute;
    }
    let rec = match card.mirror.lookup(file_id) {
        Some(rec) => rec,
        None => {
            proof {
                assert(false);
            }
            vstd::pervasive::unreached()
        },
    };
    let (suitable, has_ct): (bool, bool) = if is_df_mf(rec.info[0]) {
        match &rec.sac {
            Some(v) => se_get_is_scb_suitable_for_sm_has_ct(v, scb & 0x0F),
            None => {
                proof {
                    lemma_no_sm_crt_in_empty(scb & 0x0F);
                }
                (false, false)
            },
        }
    } else if rec.path.len() >= 2 {
        let df: u16 = rec.path[rec.path.len() - 2];
        match card.mirror.lookup(df) {
            Some(drec) => match &drec.sac {
                Some(v) => se_get_is_scb_suitable_for_sm_has_ct(v, scb & 0x0F),
                None => {
                    proof {
                        lemma_no_sm_crt_in_empty(scb & 0x0F);
                    }
                    (false, false)
                },
            },
            None => {
                proof {
                    lemma_no_sm_crt_in_empty(scb & 0x0F);
                }
                (false, false)
            },
        }
    } else {
        proof {
            lemma_no_sm_crt_in_empty(scb & 0x0F);
        }
        (false, false)
    };
    if suitable {
        AccessDecision::ExecuteViaSecureChannel { enciphered: has_ct }
    } else {
        AccessDecision::Deny { rv: SC_ERROR_SECURITY_STATUS_NOT_SATISFIED }
    }
}

/// An empty record list offers no template at all.
proof fn lemma_no_sm_crt_in_empty(se_ref: u8)
    ensures
        !spec_sac_has_sm_crt(Seq::empty(), se_ref, CRT_TAG_CCT),
        !spec_sac_has_sm_crt(Seq::empty(), se_ref, CRT_TAG_CT),
{
}


/// The expanded (SAE) conditions of the directory the cursor stands in;
/// none when the cursor is unset, the directory is not mirrored, or its
/// header carried no expanded conditions.
pub open spec fn spec_cursor_df_sae(card: Session) -> Seq<SaeEntry> {
    let df = crate::select::spec_current_path_df(card);
    if df.len() == 0 {
        Seq::empty()
    } else if card.mirror@.contains_key(df.last()) {
        match card.mirror@[df.last()].sae {
            Some(v) => v@,
            None => Seq::empty(),
        }
    } else {
        Seq::empty()
    }
}

/// The security-environment records of the directory the cursor stands
/// in; none when the cursor is unset or the directory is not mirrored.
pub open spec fn spec_cursor_df_sac(card: Session) -> Seq<SacRecord> {
    let df = crate::select::spec_current_path_df(card);
    if df.len() == 0 {
        Seq::empty()
    } else if card.mirror@.contains_key(df.last()) {
        spec_sac_of(card.mirror@[df.last()])
    } else {
        Seq::empty()
    }
}

/// Decides a PIN command (verify, change, unblock, get policy) against
/// the cursor directory's expanded conditions: the SCB of the first
/// condition naming the command header `[0x00, INS, P1, reference]`
/// governs — free when none names it — and is evaluated per
/// `spec_decide_by_scb` over the directory's own security-environment
/// records.  This is where the expanded conditions override the compact
/// per-file model: PIN commands address no file, only the directory.
pub fn pin_cmd_decide(card: &Session, ins: u8, p1: u8, pin_reference: u8) -> (r: AccessDecision)
    requires
        card.wf(),
    ensures
        r == spec_decide_by_scb(
            spec_sae_scb(spec_cursor_df_sae(*card), seq![0x00u8, ins, p1, pin_reference]),
            spec_cursor_df_sac(*card),
        ),
{
    let header: [u8; 4] = [0x00, ins, p1, pin_reference];
    assert(header@ =~= seq![0x00u8, ins, p1, pin_reference]);
    let df_path: Vec<u16> = crate::select::current_path_df(card);
    let ghost dfs = crate::select::spec_current_path_df(*card);
    proof {
        assert(dfs =~= df_path@);
    }
    if df_path.len() == 0 {
        proof {
            assert(spec_cursor_df_sae(*card) =~= Seq::<SaeEntry>::empty());
            assert(spec_sae_scb(spec_cursor_df_sae(*card), header@) == 0x00u8);
            assert(spec_cursor_df_sac(*card) =~= Seq::<SacRecord>::empty());
            assert(0x00u8 & 0x40u8 != 0x40u8) by (bit_vector);
        }
        return AccessDecision::Execute;
    }
    let df: u16 = df_path[df_path.len() - 1];
    proof {
        assert(df == dfs.last());
    }
    let rec = match card.mirror.lookup(df) {
        Some(rec) => rec,
        None => {
            proof {
                assert(spec_cursor_df_sae(*card) =~= Seq::<SaeEntry>::empty());
                assert(spec_sae_scb(spec_cursor_df_sae(*card), header@) == 0x00u8);
                assert(spec_cursor_df_sac(*card) =~= Seq::<SacRecord>::empty());
                assert(0x00u8 & 0x40u8 != 0x40u8) by (bit_vector);
            }
            return AccessDecision::Execute;
        },
    };
    let scb: u8 = match &rec.sae {
        Some(entries) => sae_scb_for_command(entries, &header),
        None => {
            proof {
                assert(spec_sae_scb(spec_cursor_df_sae(*card), header@) == 0x00u8);
            }
            0x00
        },
    };
    if scb == SCB_NEVER {
        return AccessDecision::Deny { rv: SC_ERROR_SECURITY_STATUS_NOT_SATISFIED };
    }
    if scb & SCB_SM_BIT != SCB_SM_BIT {
        return AccessDecision::Execute;
    }
    let (suitable, has_ct): (bool, bool) = match &rec.sac {
        Some(records) => se_get_is_scb_suitable_for_sm_has_ct(records, scb & 0x0F),
        None => {
            proof {
                lemma_no_sm_crt_in_empty(scb & 0x0F);
            }
            (false, false)
        },
    };
    if suitable {
        AccessDecision::ExecuteViaSecureChannel { enciphered: has_ct }
    } else {
        AccessDecision::Deny { rv: SC_ERROR_SECURITY_STATUS_NOT_SATISFIED }
    }
}

/// The identifier of the file at the cursor.
pub open spec fn spec_cursor_file_id(card: Session) -> u16 {
    card.current_path@.last()
}

/// A read, an update, an erase or a deletion can only be decided when the
/// cursor stands on a file whose header has been parsed.
pub open spec fn spec_cursor_decidable(card: Session) -> bool {
    &&& card.current_path@.len() > 0
    &&& card.mirror@.contains_key(spec_cursor_file_id(card))
    &&& card.mirror@[spec_cursor_file_id(card)].scb8 is Some
}

/// Decides a binary or record read of the file at the cursor: its read
/// slot (the first SCB) is evaluated per `spec_decide_by_scb`, and a plain
/// read of a transparent RSA key file goes through the GET DATA route.
/// A denial reports missing authorization; no read command is issued for
/// it.
pub fn common_read_decide(card: &Session, bin: bool) -> (r: AccessDecision)
    requires
        card.wf(),
        spec_cursor_decidable(*card),
    ensures
        ({
            let scb = card.mirror@[spec_cursor_file_id(*card)].scb8->Some_0@[0];
            let fdb = card.mirror@[spec_cursor_file_id(*card)].info@[0];
            let base = spec_decide_by_scb(
                scb,
                spec_sac_records_for(card.mirror@, spec_cursor_file_id(*card)),
            );
            r == (if base == AccessDecision::Execute && bin && fdb == FDB_RSA_KEY_EF {
                AccessDecision::ExecuteKeyFile
            } else {
                base
            })
        }),
{
    let file_id: u16 = card.current_path[card.current_path.len() - 1];
    let (scb, fdb): (u8, u8) = match card.mirror.lookup(file_id) {
        Some(rec) => match rec.scb8 {
            Some(scb8) => (scb8[0], rec.info[0]),
            None => {
                proof {
                    assert(false);
                }
                (0, 0)
            },
        },
        None => {
            proof {
                assert(false);
            }
            (0, 0)
        },
    };
    let base = decide_by_scb_at(card, file_id, scb);
    if bin && fdb == FDB_RSA_KEY_EF && base == AccessDecision::Execute {
        AccessDecision::ExecuteKeyFile
    } else {
        base
    }
}

/// Decides a binary or record update of the file at the cursor: appending
/// a record (a record update at index zero) is only allowed for
/// record-organized file kinds; otherwise the update slot (the second SCB)
/// is evaluated per `spec_decide_by_scb`, and a plain update of an RSA key
/// file is refused since the chip takes key material only through its key
/// commands.
pub fn common_update_decide(card: &Session, idx: u16, bin: bool) -> (r: AccessDecision)
    requires
        card.wf(),
        spec_cursor_decidable(*card),
    ensures
        ({
            let scb = card.mirror@[spec_cursor_file_id(*card)].scb8->Some_0@[1];
            let fdb = card.mirror@[spec_cursor_file_id(*card)].info@[0];
            let base = spec_decide_by_scb(
                scb,
                spec_sac_records_for(card.mirror@, spec_cursor_file_id(*card)),
            );
            r == (if !bin && idx == 0 && fdb != FDB_LINEAR_VARIABLE_EF && fdb != FDB_CYCLIC_EF
                && fdb != FDB_SYMMETRIC_KEY_EF && fdb != FDB_SE_FILE {
                AccessDecision::Deny { rv: SC_ERROR_NOT_ALLOWED }
            } else if base == AccessDecision::Execute && bin && fdb == FDB_RSA_KEY_EF {
                AccessDecision::Deny { rv: SC_ERROR_NO_CARD_SUPPORT }
            } else {
                base
            })
        }),
{
    let file_id: u16 = card.current_path[card.current_path.len() - 1];
    let (scb, fdb): (u8, u8) = match card.mirror.lookup(file_id) {
        Some(rec) => match rec.scb8 {
            Some(scb8) => (scb8[1], rec.info[0]),
            None => {
                proof {
                    assert(false);
                }
                (0, 0)
            },
        },
        None => {
            proof {
                assert(false);
            }
            (0, 0)
        },
    };
    if !bin && idx == 0 && fdb != FDB_LINEAR_VARIABLE_EF && fdb != FDB_CYCLIC_EF && fdb
        != FDB_SYMMETRIC_KEY_EF && fdb != FDB_SE_FILE {
        return AccessDecision::Deny { rv: SC_ERROR_NOT_ALLOWED };
    }
    let base = decide_by_scb_at(card, file_id, scb);
    if bin && fdb == FDB_RSA_KEY_EF && base == AccessDecision::Execute {
        AccessDecision::Deny { rv: SC_ERROR_NO_CARD_SUPPORT }
    } else {
        base
    }
}

/// Decides the deletion of the file with this identifier (which a
/// preceding select has made current, so its header is parsed): the
/// delete-self slot (the seventh SCB) is evaluated per
/// `spec_decide_by_scb`.
pub fn delete_file_decide(card: &Session, file_id: u16) -> (r: AccessDecision)
    requires
        card.wf(),
        card.mirror@.contains_key(file_id),
        card.mirror@[file_id].scb8 is Some,
    ensures
        r == spec_decide_by_scb(
            card.mirror@[file_id].scb8->Some_0@[6],
            spec_sac_records_for(card.mirror@, file_id),
        ),
{
    let scb: u8 = match card.mirror.lookup(file_id) {
        Some(rec) => match rec.scb8 {
            Some(scb8) => scb8[6],
            None => {
                proof {
                    assert(false);
                }
                0
            },
        },
        None => {
            proof {
                assert(false);
            }
            0
        },
    };
    decide_by_scb_at(card, file_id, scb)
}

/// After the chip confirmed the deletion: drops the file from the mirror
/// and moves the cursor up to the directory the deleted file stood in.
pub fn delete_file_commit(card: &mut Session, file_id: u16) -> (r: i32)
    requires
        old(card).wf(),
        old(card).current_path@.len() >= 2,
    ensures
        final(card).wf(),
        final(card).mirror@ == old(card).mirror@.remove(file_id),
        final(card).current_path@ =~= old(card).current_path@.take(
            old(card).current_path@.len() - 1,
        ),
        final(card).does_mf_exist == old(card).does_mf_exist,
        final(card).is_running_init == old(card).is_running_init,
        final(card).is_running_cmd_long_response == old(card).is_running_cmd_long_response,
        final(card).is_running_compute_signature == old(card).is_running_compute_signature,
        final(card).sec_env == old(card).sec_env,
        final(card).sec_env_mod_len == old(card).sec_env_mod_len,
{
    let _ = card.mirror.remove(file_id);
    let _ = card.current_path.pop();
    0
}

/// The byte range an ERASE BINARY actually touches, clamped to the file
/// size: `None` when there is nothing to erase (start beyond the file or
/// zero count), otherwise the start offset and — when the range ends
/// before the file does — the exclusive end offset that the command's
/// data bytes carry (a range running to the end carries none).
pub open spec fn spec_erase_range(idx: u16, count: u16, size: u16) -> Option<(u16, Option<u16>)> {
    if idx + count >= size {
        if idx >= size || count == 0 {
            None
        } else {
            Some((idx, None::<u16>))
        }
    } else {
        Some((idx, Some((idx + count) as u16)))
    }
}

/// Clamps an erase request to the file, per `spec_erase_range`.
pub fn build_erase_binary_range(idx: u16, count: u16, size: u16) -> (r: Option<(u16, Option<u16>)>)
    ensures
        r == spec_erase_range(idx, count, size),
{
    if idx as u32 + count as u32 >= size as u32 {
        if idx >= size || count == 0 {
            None
        } else {
            Some((idx, None))
        }
    } else {
        Some((idx, Some(idx + count)))
    }
}

/// Decides an erase of the file at the cursor: only a transparent file
/// or an RSA key file can take one at all; then its update slot (the
/// second SCB) is evaluated per `spec_decide_by_scb`.
pub fn erase_binary_decide(card: &Session) -> (r: AccessDecision)
    requires
        card.wf(),
        spec_cursor_decidable(*card),
    ensures
        ({
            let scb = card.mirror@[spec_cursor_file_id(*card)].scb8->Some_0@[1];
            let fdb = card.mirror@[spec_cursor_file_id(*card)].info@[0];
            r == (if fdb != FDB_TRANSPARENT_EF && fdb != FDB_RSA_KEY_EF {
                AccessDecision::Deny { rv: SC_ERROR_INVALID_ARGUMENTS }
            } else {
                spec_decide_by_scb(
                    scb,
                    spec_sac_records_for(card.mirror@, spec_cursor_file_id(*card)),
                )
            })
        }),
{
    let file_id: u16 = card.current_path[card.current_path.len() - 1];
    let (scb, fdb): (u8, u8) = match card.mirror.lookup(file_id) {
        Some(rec) => match rec.scb8 {
            Some(scb8) => (scb8[1], rec.info[0]),
            None => {
                proof {
                    assert(false);
                }
                (0, 0)
            },
        },
        None => {
            proof {
                assert(false);
            }
            (0, 0)
        },
    };
    if fdb != FDB_TRANSPARENT_EF && fdb != FDB_RSA_KEY_EF {
        return AccessDecision::Deny { rv: SC_ERROR_INVALID_ARGUMENTS };
    }
    decide_by_scb_at(card, file_id, scb)
}


} // verus!
