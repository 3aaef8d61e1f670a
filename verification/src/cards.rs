//! The card generations the driver announces to the host: the ATR
//! patterns it matches and the elliptic curves the newest generation
//! offers.

use vstd::prelude::*;
use crate::algos::{SC_CARD_TYPE_ACOS5_64_V2, SC_CARD_TYPE_ACOS5_64_V3, SC_CARD_TYPE_ACOS5_EVO_V4};

verus! {

/// One row of the host's ATR matching table: the answer-to-reset pattern
/// in the host's colon-separated hex notation, the mask applied before
/// comparing, a display name, and the card type the match assigns.
pub struct AtrTableEntry {
    pub atr: &'static str,
    pub atrmask: &'static str,
    pub name: &'static str,
    pub card_type: i32,
    pub flags: u32,
}

/// One elliptic curve of the fourth generation: its name, its object
/// identifier (terminated by -1, as the host stores object identifiers),
/// and its field size in bits.
pub struct EcCurve {
    pub curve_name: &'static str,
    pub curve_oid: [i32; 16],
    pub size: u32,
}

/// The ATR table the driver registers: the second and third generation
/// with the common mask, the fourth with the mask that covers the check
/// byte, and the empty row that terminates the table.
pub fn acos5_supported_atrs() -> (r: [AtrTableEntry; 4])
    ensures
        r@[0].card_type == SC_CARD_TYPE_ACOS5_64_V2,
        r@[0].atr@ == "3b:be:96:00:00:41:05:20:00:00:00:00:00:00:00:00:00:90:00"@,
        r@[0].atrmask@ == "ff:ff:ff:ff:ff:ff:ff:ff:00:00:00:00:00:00:00:00:00:ff:ff"@,
        r@[1].card_type == SC_CARD_TYPE_ACOS5_64_V3,
        r@[1].atr@ == "3b:be:96:00:00:41:05:30:00:00:00:00:00:00:00:00:00:90:00"@,
        r@[1].atrmask@ == "ff:ff:ff:ff:ff:ff:ff:ff:00:00:00:00:00:00:00:00:00:ff:ff"@,
        r@[2].card_type == SC_CARD_TYPE_ACOS5_EVO_V4,
        r@[2].atr@ == "3b:9e:96:80:01:41:05:40:00:00:00:00:00:00:00:00:00:90:00:1f"@,
        r@[2].atrmask@ == "ff:ff:ff:ff:ff:ff:ff:ff:00:00:00:00:00:00:00:00:00:ff:ff:ff"@,
        r@[3].card_type == 0,
        r@[3].atr@ == ""@,
        forall|i: int| 0 <= i < 4 ==> (#[trigger] r@[i]).flags == 0,
{
    proof {
        reveal_strlit("3b:be:96:00:00:41:05:20:00:00:00:00:00:00:00:00:00:90:00");
        reveal_strlit("ff:ff:ff:ff:ff:ff:ff:ff:00:00:00:00:00:00:00:00:00:ff:ff");
        reveal_strlit("3b:be:96:00:00:41:05:30:00:00:00:00:00:00:00:00:00:90:00");
        reveal_strlit("3b:9e:96:80:01:41:05:40:00:00:00:00:00:00:00:00:00:90:00:1f");
        reveal_strlit("ff:ff:ff:ff:ff:ff:ff:ff:00:00:00:00:00:00:00:00:00:ff:ff:ff");
        reveal_strlit("");
    }
    [
        AtrTableEntry {
            atr: "3b:be:96:00:00:41:05:20:00:00:00:00:00:00:00:00:00:90:00",
            atrmask: "ff:ff:ff:ff:ff:ff:ff:ff:00:00:00:00:00:00:00:00:00:ff:ff",
            name: "ACOS5-64 v2.00: Smart Card or CryptoMate64 USB token",
            card_type: SC_CARD_TYPE_ACOS5_64_V2,
            flags: 0,
        },
        AtrTableEntry {
            atr: "3b:be:96:00:00:41:05:30:00:00:00:00:00:00:00:00:00:90:00",
            atrmask: "ff:ff:ff:ff:ff:ff:ff:ff:00:00:00:00:00:00:00:00:00:ff:ff",
            name: "ACOS5-64 v3.00: Smart Card Nano or CryptoMate Nano USB token",
            card_type: SC_CARD_TYPE_ACOS5_64_V3,
            flags: 0,
        },
        AtrTableEntry {
            atr: "3b:9e:96:80:01:41:05:40:00:00:00:00:00:00:00:00:00:90:00:1f",
            atrmask: "ff:ff:ff:ff:ff:ff:ff:ff:00:00:00:00:00:00:00:00:00:ff:ff:ff",
            name: "ACOS5-EVO v4: Smart Card EVO or CryptoMate EVO USB token",
            card_type: SC_CARD_TYPE_ACOS5_EVO_V4,
            flags: 0,
        },
        AtrTableEntry { atr: "", atrmask: "", name: "", card_type: 0, flags: 0 },
    ]
}

/// The NIST prime curves P-224, P-256, P-384 and P-521, which the fourth
/// generation supports for its elliptic-curve keys.
pub fn acos5_supported_ec_curves() -> (r: [EcCurve; 4])
    ensures
        r@[0].size == 224,
        r@[0].curve_name@ == "nistp224"@,
        r@[0].curve_oid@ =~= seq![1i32, 3, 132, 0, 33, -1i32, 0, 0, 0, 0, 0, 0, 0, 0, 0, 0],
        r@[1].size == 256,
        r@[1].curve_name@ == "nistp256"@,
        r@[1].curve_oid@ =~= seq![1i32, 2, 840, 10045, 3, 1, 7, -1i32, 0, 0, 0, 0, 0, 0, 0, 0],
        r@[2].size == 384,
        r@[2].curve_name@ == "nistp384"@,
        r@[2].curve_oid@ =~= seq![1i32, 3, 132, 0, 34, -1i32, 0, 0, 0, 0, 0, 0, 0, 0, 0, 0],
        r@[3].size == 521,
        r@[3].curve_name@ == "nistp521"@,
        r@[3].curve_oid@ =~= seq![1i32, 3, 132, 0, 35, -1i32, 0, 0, 0, 0, 0, 0, 0, 0, 0, 0],
{
    proof {
        reveal_strlit("nistp224");
        reveal_strlit("nistp256");
        reveal_strlit("nistp384");
        reveal_strlit("nistp521");
    }
    [
        EcCurve {
            curve_name: "nistp224",
            curve_oid: [1, 3, 132, 0, 33, -1, 0, 0, 0, 0, 0, 0, 0, 0, 0, 0],
            size: 224,
        },
        EcCurve {
            curve_name: "nistp256",
            curve_oid: [1, 2, 840, 10045, 3, 1, 7, -1, 0, 0, 0, 0, 0, 0, 0, 0],
            size: 256,
        },
        EcCurve {
            curve_name: "nistp384",
            curve_oid: [1, 3, 132, 0, 34, -1, 0, 0, 0, 0, 0, 0, 0, 0, 0, 0],
            size: 384,
        },
        EcCurve {
            curve_name: "nistp521",
            curve_oid: [1, 3, 132, 0, 35, -1, 0, 0, 0, 0, 0, 0, 0, 0, 0, 0],
            size: 521,
        },
    ]
}

} // verus!
