//! Card-side driver core for the ACOS5 smart-card operating system family:
//! the file-system mirror, the security-condition-byte (SCB) codec, the
//! SELECT-FILE tracking state machine, the per-operation access decision
//! engine and the chip status-word adapter.
//!
//! All card I/O is left to the caller: the functions here either compute
//! plain values (codecs, reference tables) or take the outcome of a card
//! exchange as an argument and update the session state accordingly.

pub mod algos;
pub mod cards;
pub mod decision;
pub mod fci;
pub mod mirror;
pub mod ops;
pub mod padding;
pub mod rv;
pub mod sac;
pub mod se;
pub mod secenv;
pub mod select;
pub mod session;
pub mod sign;
pub mod status;
pub mod tlv;
