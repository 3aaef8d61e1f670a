//! Return values of the driver: the OpenSC-style status codes every public
//! operation reports, and the mapping from chip status words to those codes.

use vstd::prelude::*;

verus! {

pub const SC_SUCCESS: i32 = 0;

pub const SC_ERROR_NOT_SUPPORTED: i32 = -1002;

pub const SC_ERROR_KEYPAD_MSG_TOO_LONG: i32 = -1112;

pub const SC_ERROR_CARD_CMD_FAILED: i32 = -1201;
pub const SC_ERROR_FILE_NOT_FOUND: i32 = -1202;
pub const SC_ERROR_RECORD_NOT_FOUND: i32 = -1203;
pub const SC_ERROR_CLASS_NOT_SUPPORTED: i32 = -1204;
pub const SC_ERROR_INS_NOT_SUPPORTED: i32 = -1205;
pub const SC_ERROR_INCORRECT_PARAMETERS: i32 = -1206;
pub const SC_ERROR_WRONG_LENGTH: i32 = -1207;
pub const SC_ERROR_NO_CARD_SUPPORT: i32 = -1209;
pub const SC_ERROR_NOT_ALLOWED: i32 = -1210;
pub const SC_ERROR_SECURITY_STATUS_NOT_SATISFIED: i32 = -1212;
pub const SC_ERROR_AUTH_METHOD_BLOCKED: i32 = -1213;
pub const SC_ERROR_UNKNOWN_DATA_RECEIVED: i32 = -1214;

pub const SC_ERROR_INVALID_ARGUMENTS: i32 = -1301;
pub const SC_ERROR_WRONG_PADDING: i32 = -1313;

/// The driver's fixed status-word table: what error code a `(sw1, sw2)`
/// pair reported by the chip stands for.
///
/// The chip's semantics, as the driver relies on them:
/// `90 00` and `61 xx` report success (`61 xx`: more response bytes wait),
/// `62 83` reports "selected file invalidated" (the selection moved),
/// `67 00` a wrong length, `69 82` missing authorization, `69 83` a blocked
/// authentication method, `69 86` a command not allowed (no current EF),
/// `6A 82` file not found, `6A 86`/`6A 87`/`6B 00` bad parameters,
/// `6D 00`/`6E 00` an unsupported instruction or class; everything else is
/// a plain command failure.
pub open spec fn spec_check_status(sw1: u8, sw2: u8) -> i32 {
    if sw1 == 0x90 && sw2 == 0x00 {
        SC_SUCCESS
    } else if sw1 == 0x61 {
        SC_SUCCESS
    } else if sw1 == 0x62 && sw2 == 0x83 {
        SC_ERROR_CARD_CMD_FAILED
    } else if sw1 == 0x67 && sw2 == 0x00 {
        SC_ERROR_WRONG_LENGTH
    } else if sw1 == 0x69 && sw2 == 0x82 {
        SC_ERROR_SECURITY_STATUS_NOT_SATISFIED
    } else if sw1 == 0x69 && sw2 == 0x83 {
        SC_ERROR_AUTH_METHOD_BLOCKED
    } else if sw1 == 0x69 && sw2 == 0x86 {
        SC_ERROR_NOT_ALLOWED
    } else if sw1 == 0x6A && sw2 == 0x82 {
        SC_ERROR_FILE_NOT_FOUND
    } else if sw1 == 0x6A && (sw2 == 0x86 || sw2 == 0x87) {
        SC_ERROR_INCORRECT_PARAMETERS
    } else if sw1 == 0x6A && sw2 == 0x80 {
        SC_ERROR_INCORRECT_PARAMETERS
    } else if sw1 == 0x6B && sw2 == 0x00 {
        SC_ERROR_INCORRECT_PARAMETERS
    } else if sw1 == 0x6D && sw2 == 0x00 {
        SC_ERROR_INS_NOT_SUPPORTED
    } else if sw1 == 0x6E && sw2 == 0x00 {
        SC_ERROR_CLASS_NOT_SUPPORTED
    } else {
        SC_ERROR_CARD_CMD_FAILED
    }
}

/// Maps a status word to the driver's error code, per `spec_check_status`.
pub fn check_status(sw1: u8, sw2: u8) -> (r: i32)
    ensures
        r == spec_check_status(sw1, sw2),
{
    if sw1 == 0x90 && sw2 == 0x00 {
        SC_SUCCESS
    } else if sw1 == 0x61 {
        SC_SUCCESS
    } else if sw1 == 0x62 && sw2 == 0x83 {
        SC_ERROR_CARD_CMD_FAILED
    } else if sw1 == 0x67 && sw2 == 0x00 {
        SC_ERROR_WRONG_LENGTH
    } else if sw1 == 0x69 && sw2 == 0x82 {
        SC_ERROR_SECURITY_STATUS_NOT_SATISFIED
    } else if sw1 == 0x69 && sw2 == 0x83 {
        SC_ERROR_AUTH_METHOD_BLOCKED
    } else if sw1 == 0x69 && sw2 == 0x86 {
        SC_ERROR_NOT_ALLOWED
    } else if sw1 == 0x6A && sw2 == 0x82 {
        SC_ERROR_FILE_NOT_FOUND
    } else if sw1 == 0x6A && (sw2 == 0x86 || sw2 == 0x87) {
        SC_ERROR_INCORRECT_PARAMETERS
    } else if sw1 == 0x6A && sw2 == 0x80 {
        SC_ERROR_INCORRECT_PARAMETERS
    } else if sw1 == 0x6B && sw2 == 0x00 {
        SC_ERROR_INCORRECT_PARAMETERS
    } else if sw1 == 0x6D && sw2 == 0x00 {
        SC_ERROR_INS_NOT_SUPPORTED
    } else if sw1 == 0x6E && sw2 == 0x00 {
        SC_ERROR_CLASS_NOT_SUPPORTED
    } else {
        SC_ERROR_CARD_CMD_FAILED
    }
}

} // verus!
