//! The per-card session: the mirror, the cursor (the path the physical
//! chip has selected), and the session flags the driver keeps between
//! calls.  The original driver kept this state behind the host's opaque
//! per-card pointer; here it is an explicit object the caller owns and
//! passes into every operation.

use vstd::prelude::*;
use crate::mirror::{Mirror, MAX_PATH_SEGMENTS};
use crate::rv::SC_ERROR_FILE_NOT_FOUND;
use crate::secenv::SecurityEnv;

verus! {

/// The driver's session state for one physical card.
pub struct Session {
    pub mirror: Mirror,
    /// The cursor: the absolute path of the file the chip believes is
    /// selected, one identifier per component; empty while nothing is
    /// selected yet.
    pub current_path: Vec<u16>,
    /// False when the card turned out to have no master file.
    pub does_mf_exist: bool,
    /// True while session initialization (the enumeration walk) runs.
    pub is_running_init: bool,
    /// Set by a long-response-producing command (a decipher or signature
    /// over a large modulus) and consumed by the get-response adapter.
    pub is_running_cmd_long_response: bool,
    /// True while a compute-signature call is in flight, so that a
    /// decipher issued on its behalf knows it serves a signature.
    pub is_running_compute_signature: bool,
    /// The security environment the host last set.
    pub sec_env: SecurityEnv,
    /// The RSA modulus length that environment implies, zero while
    /// unknown.
    pub sec_env_mod_len: u16,
}

impl Session {
    pub open spec fn wf(&self) -> bool {
        &&& self.mirror.wf()
        &&& self.current_path@.len() <= MAX_PATH_SEGMENTS
    }

    /// A fresh session: empty mirror, nothing selected, initialization
    /// pending.
    pub fn new() -> (r: Session)
        ensures
            r.wf(),
            r.mirror@ == Map::<u16, crate::mirror::FileRecord>::empty(),
            r.current_path@.len() == 0,
            r.does_mf_exist,
            r.is_running_init,
            !r.is_running_cmd_long_response,
            !r.is_running_compute_signature,
            r.sec_env_mod_len == 0,
    {
        Session {
            mirror: Mirror::new(),
            current_path: Vec::new(),
            does_mf_exist: true,
            is_running_init: true,
            is_running_cmd_long_response: false,
            is_running_compute_signature: false,
            sec_env: SecurityEnv::new(),
            sec_env_mod_len: 0,
        }
    }
}

pub fn set_is_running_cmd_long_response(card: &mut Session, value: bool)
    ensures
        final(card).is_running_cmd_long_response == value,
        final(card).mirror == old(card).mirror,
        final(card).current_path == old(card).current_path,
        final(card).does_mf_exist == old(card).does_mf_exist,
        final(card).is_running_init == old(card).is_running_init,
        final(card).is_running_compute_signature == old(card).is_running_compute_signature,
        final(card).sec_env == old(card).sec_env,
        final(card).sec_env_mod_len == old(card).sec_env_mod_len,
{
    card.is_running_cmd_long_response = value;
}

pub fn get_is_running_cmd_long_response(card: &Session) -> (r: bool)
    ensures
        r == card.is_running_cmd_long_response,
{
    card.is_running_cmd_long_response
}

pub fn set_is_running_compute_signature(card: &mut Session, value: bool)
    ensures
        final(card).is_running_compute_signature == value,
        final(card).mirror == old(card).mirror,
        final(card).current_path == old(card).current_path,
        final(card).does_mf_exist == old(card).does_mf_exist,
        final(card).is_running_init == old(card).is_running_init,
        final(card).is_running_cmd_long_response == old(card).is_running_cmd_long_response,
{
    card.is_running_compute_signature = value;
}

pub fn get_is_running_compute_signature(card: &Session) -> (r: bool)
    ensures
        r == card.is_running_compute_signature,
{
    card.is_running_compute_signature
}

/// The thirty-two bytes of mirror knowledge about one file, in the layout
/// the driver reports to its management frontend: the eight
/// file-information bytes, the sixteen path bytes (big-endian identifier
/// pairs, with the area behind the path zeroed), and the eight
/// Security-Condition Bytes (zero when the header was never parsed).
pub fn get_files_hashmap_info(card: &Session, key: u16) -> (r: Result<[u8; 32], i32>)
    requires
        card.wf(),
    ensures
        card.mirror@.contains_key(key) ==> (r matches Ok(rbuf) && {
            &&& forall|i: int| 0 <= i < 8 ==> rbuf@[i] == card.mirror@[key].info@[i]
            &&& forall|s: int|
                0 <= s < card.mirror@[key].path@.len() ==> rbuf@[8 + 2 * s] == (
                (#[trigger] card.mirror@[key].path@[s] >> 8) & 0xFF) as u8 && rbuf@[8 + 2 * s + 1]
                    == (card.mirror@[key].path@[s] & 0xFF) as u8
            &&& forall|k: int|
                8 + 2 * card.mirror@[key].path@.len() <= k < 24 ==> #[trigger] rbuf@[k] == 0u8
            &&& forall|i: int|
                0 <= i < 8 ==> #[trigger] rbuf@[24 + i] == (match card.mirror@[key].scb8 {
                    Some(scb8) => scb8@[i],
                    None => 0u8,
                })
        }),
        !card.mirror@.contains_key(key) ==> r == Err::<[u8; 32], i32>(SC_ERROR_FILE_NOT_FOUND),
{
    let mut rbuf: [u8; 32] = [0; 32];
    match card.mirror.lookup(key) {
        None => Err(SC_ERROR_FILE_NOT_FOUND),
        Some(rec) => {
            let mut i: usize = 0;
            while i < 8
                invariant
                    i <= 8,
                    rec == card.mirror@[key],
                    card.mirror@.contains_key(key),
                    forall|k: int| 0 <= k < i ==> rbuf@[k] == rec.info@[k],
                    forall|k: int| i <= k < 32 ==> rbuf@[k] == 0u8,
                decreases 8 - i,
            {
                rbuf[i] = rec.info[i];
                i = i + 1;
            }
            let mut s: usize = 0;
            while s < rec.path.len()
                invariant
                    s <= rec.path@.len(),
                    rec == card.mirror@[key],
                    card.mirror@.contains_key(key),
                    card.wf(),
                    rec.path@.len() <= MAX_PATH_SEGMENTS,
                    forall|k: int| 0 <= k < 8 ==> rbuf@[k] == rec.info@[k],
                    forall|k: int|
                        0 <= k < s ==> rbuf@[8 + 2 * k] == ((#[trigger] rec.path@[k] >> 8)
                            & 0xFF) as u8 && rbuf@[8 + 2 * k + 1] == (rec.path@[k] & 0xFF) as u8,
                    forall|k: int| 8 + 2 * s <= k < 32 ==> rbuf@[k] == 0u8,
                decreases rec.path@.len() - s,
            {
                proof {
                    assert(card.mirror@[key].path@.len() <= MAX_PATH_SEGMENTS);
                }
                let (hi, lo) = crate::mirror::id_bytes(rec.path[s]);
                rbuf[8 + 2 * s] = hi;
                rbuf[8 + 2 * s + 1] = lo;
                s = s + 1;
            }
            match rec.scb8 {
                Some(scb8) => {
                    let mut i: usize = 0;
                    while i < 8
                        invariant
                            i <= 8,
                            rec == card.mirror@[key],
                            card.mirror@.contains_key(key),
                            rec.scb8 == Some(scb8),
                            rec.path@.len() <= MAX_PATH_SEGMENTS,
                            forall|k: int| 0 <= k < 8 ==> rbuf@[k] == rec.info@[k],
                            forall|k: int|
                                0 <= k < rec.path@.len() ==> rbuf@[8 + 2 * k] == ((
                                #[trigger] rec.path@[k] >> 8) & 0xFF) as u8 && rbuf@[8 + 2 * k + 1]
                                    == (rec.path@[k] & 0xFF) as u8,
                            forall|k: int|
                                8 + 2 * rec.path@.len() <= k < 24 ==> #[trigger] rbuf@[k] == 0u8,
                            forall|k: int| 0 <= k < i ==> rbuf@[24 + k] == scb8@[k],
                            forall|k: int| 24 + i <= k < 32 ==> rbuf@[k] == 0u8,
                        decreases 8 - i,
                    {
                        rbuf[24 + i] = scb8[i];
                        i = i + 1;
                    }
                },
                None => {},
            }
            Ok(rbuf)
        },
    }
}

/// Records that the card has no master file: the root select failed
/// during enumeration.  Every later selection is then refused (see
/// `acos5_select_file_check`) until a session is built afresh.
pub fn mark_mf_absent(card: &mut Session)
    ensures
        !final(card).does_mf_exist,
        final(card).mirror == old(card).mirror,
        final(card).current_path == old(card).current_path,
        final(card).is_running_init == old(card).is_running_init,
        final(card).is_running_cmd_long_response == old(card).is_running_cmd_long_response,
        final(card).is_running_compute_signature == old(card).is_running_compute_signature,
        final(card).sec_env == old(card).sec_env,
        final(card).sec_env_mod_len == old(card).sec_env_mod_len,
{
    card.does_mf_exist = false;
}

/// How PINs are presented to this card family: ASCII digits, four to
/// eight of them; the card pads storage to eight.
pub struct PinPolicy {
    pub min_length: usize,
    pub max_length: usize,
    pub stored_length: usize,
    pub ascii_numeric: bool,
}

/// The PIN policy the driver reports for every PIN of the card: the
/// card family fixes the bounds, only the remaining-tries counter has to
/// be asked of the chip (by the caller, with a zero-length verify).
pub fn pin_get_policy() -> (r: PinPolicy)
    ensures
        r.min_length == 4,
        r.max_length == 8,
        r.stored_length == 8,
        r.ascii_numeric,
{
    PinPolicy { min_length: 4, max_length: 8, stored_length: 8, ascii_numeric: true }
}

} // verus!
