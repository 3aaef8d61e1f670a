//! The response/status adapter for chunked reads.
//!
//! The chip's success word after a GET RESPONSE is overloaded: it usually
//! means "nothing more to fetch", but after specific long-response
//! commands (a decipher or signature over a large modulus) it means
//! "exactly one more full chunk follows".  The adapter disambiguates with
//! the session flag that the long-response-producing caller set, and
//! consumes that flag, rather than guessing from the status word alone.

use vstd::prelude::*;
use crate::rv::spec_check_status;
use crate::session::Session;

verus! {

/// What a GET RESPONSE status word means for the fetch loop.
#[derive(Clone, Copy, Debug, PartialEq, Eq, Structural)]
pub enum FetchOutcome {
    /// This many more bytes wait on the chip.
    MoreDataExpected { next: u16 },
    /// The response is complete.
    NoMoreData,
    /// The chip has no data to hand out.
    NoDataAvailable,
    /// The fetch failed with this error code.
    Error { rv: i32 },
}

/// Interprets the status word of a GET RESPONSE exchange: on success,
/// one more full chunk of 256 bytes is expected exactly when the
/// long-response flag was set — and the flag is consumed; `6A 88` means
/// no data was available; every other word maps through the driver's
/// status table.  Nothing else of the session changes.
pub fn interpret_get_response_status(card: &mut Session, sw1: u8, sw2: u8) -> (r: FetchOutcome)
    ensures
        final(card).mirror == old(card).mirror,
        final(card).current_path == old(card).current_path,
        final(card).does_mf_exist == old(card).does_mf_exist,
        final(card).is_running_init == old(card).is_running_init,
        final(card).is_running_compute_signature == old(card).is_running_compute_signature,
        final(card).sec_env == old(card).sec_env,
        final(card).sec_env_mod_len == old(card).sec_env_mod_len,
        sw1 == 0x90 && sw2 == 0x00 && old(card).is_running_cmd_long_response ==> r
            == (FetchOutcome::MoreDataExpected { next: 256 }) && !final(card).is_running_cmd_long_response,
        sw1 == 0x90 && sw2 == 0x00 && !old(card).is_running_cmd_long_response ==> r
            == FetchOutcome::NoMoreData && !final(card).is_running_cmd_long_response,
        !(sw1 == 0x90 && sw2 == 0x00) ==> final(card).is_running_cmd_long_response == old(card).is_running_cmd_long_response,
        sw1 == 0x6A && sw2 == 0x88 ==> r == FetchOutcome::NoDataAvailable,
        !(sw1 == 0x90 && sw2 == 0x00) && !(sw1 == 0x6A && sw2 == 0x88) ==> r
            == (FetchOutcome::Error { rv: spec_check_status(sw1, sw2) }),
{
    if sw1 == 0x90 && sw2 == 0x00 {
        if card.is_running_cmd_long_response {
            card.is_running_cmd_long_response = false;
            FetchOutcome::MoreDataExpected { next: 256 }
        } else {
            FetchOutcome::NoMoreData
        }
    } else if sw1 == 0x6A && sw2 == 0x88 {
        FetchOutcome::NoDataAvailable
    } else {
        FetchOutcome::Error { rv: crate::rv::check_status(sw1, sw2) }
    }
}

} // verus!
