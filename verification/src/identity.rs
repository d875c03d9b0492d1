//! Physical key identity: the platform-independent notion of "which key"
//! that both identity spaces describe redundantly.
//!
//! A curated physical key is named twice — by a hardware scancode and by a
//! symbolic keysym — and both names must resolve to the same virtual code.
//! The pairing below records, for each curated scancode, the canonical
//! keysym of the same physical key. The four arrow keys appear only in the
//! scancode table and so have no keysym counterpart.

use vstd::prelude::*;

use crate::keysym::keysym_vk;
use crate::scancode::scancode_vk;
use crate::translator::SENTINEL;

verus! {

/// The canonical keysym naming the same physical key as a curated scancode,
/// or `None` for scancodes with no keysym counterpart (the arrow keys and
/// everything outside the curated set).
pub open spec fn keysym_of_scancode(code: u32) -> Option<u32> {
    if code == 38 {  // A
        Some(0x0061u32)
    } else if code == 56 {  // B
        Some(0x0062u32)
    } else if code == 54 {  // C
        Some(0x0063u32)
    } else if code == 40 {  // D
        Some(0x0064u32)
    } else if code == 26 {  // E
        Some(0x0065u32)
    } else if code == 41 {  // F
        Some(0x0066u32)
    } else if code == 42 {  // G
        Some(0x0067u32)
    } else if code == 43 {  // H
        Some(0x0068u32)
    } else if code == 31 {  // I
        Some(0x0069u32)
    } else if code == 44 {  // J
        Some(0x006au32)
    } else if code == 45 {  // K
        Some(0x006bu32)
    } else if code == 46 {  // L
        Some(0x006cu32)
    } else if code == 58 {  // M
        Some(0x006du32)
    } else if code == 57 {  // N
        Some(0x006eu32)
    } else if code == 32 {  // O
        Some(0x006fu32)
    } else if code == 33 {  // P
        Some(0x0070u32)
    } else if code == 24 {  // Q
        Some(0x0071u32)
    } else if code == 27 {  // R
        Some(0x0072u32)
    } else if code == 39 {  // S
        Some(0x0073u32)
    } else if code == 28 {  // T
        Some(0x0074u32)
    } else if code == 30 {  // U
        Some(0x0075u32)
    } else if code == 55 {  // V
        Some(0x0076u32)
    } else if code == 25 {  // W
        Some(0x0077u32)
    } else if code == 53 {  // X
        Some(0x0078u32)
    } else if code == 29 {  // Y
        Some(0x0079u32)
    } else if code == 52 {  // Z
        Some(0x007au32)
    } else if code == 10 {  // 1
        Some(0x0031u32)
    } else if code == 11 {  // 2
        Some(0x0032u32)
    } else if code == 12 {  // 3
        Some(0x0033u32)
    } else if code == 13 {  // 4
        Some(0x0034u32)
    } else if code == 14 {  // 5
        Some(0x0035u32)
    } else if code == 15 {  // 6
        Some(0x0036u32)
    } else if code == 16 {  // 7
        Some(0x0037u32)
    } else if code == 17 {  // 8
        Some(0x0038u32)
    } else if code == 18 {  // 9
        Some(0x0039u32)
    } else if code == 19 {  // 0
        Some(0x0030u32)
    } else if code == 65 {  // space
        Some(0x0020u32)
    } else if code == 22 {  // backspace
        Some(0xff08u32)
    } else if code == 23 {  // tab
        Some(0xff09u32)
    } else if code == 36 {  // return
        Some(0xff0du32)
    } else if code == 9 {  // escape
        Some(0xff1bu32)
    } else if code == 60 {  // period
        Some(0x002eu32)
    } else if code == 59 {  // comma
        Some(0x002cu32)
    } else if code == 61 {  // slash
        Some(0x002fu32)
    } else if code == 47 {  // semicolon
        Some(0x003bu32)
    } else if code == 48 {  // apostrophe
        Some(0x0027u32)
    } else if code == 34 {  // left bracket
        Some(0x005bu32)
    } else if code == 35 {  // right bracket
        Some(0x005du32)
    } else if code == 51 {  // backslash
        Some(0x005cu32)
    } else if code == 20 {  // minus
        Some(0x002du32)
    } else if code == 21 {  // equals
        Some(0x003du32)
    } else if code == 49 {  // grave
        Some(0x0060u32)
    } else {
        None
    }
}

/// Cross-table consistency: for every physical key present in both tables,
/// the scancode-keyed and the keysym-keyed lookups agree on the virtual
/// code, and both yield a real mapping.
pub proof fn lemma_cross_table_consistency(code: u32, sym: u32)
    requires
        keysym_of_scancode(code) == Some(sym),
    ensures
        keysym_vk(sym) == scancode_vk(code),
        scancode_vk(code) != SENTINEL,
{
}

/// Injectivity: across the curated physical keys, no two distinct keys share
/// a virtual code. Keys are named here by their scancode, which identifies a
/// curated physical key uniquely.
pub proof fn lemma_scancode_injective(a: u32, b: u32)
    requires
        scancode_vk(a) != SENTINEL,
        scancode_vk(b) != SENTINEL,
        scancode_vk(a) == scancode_vk(b),
    ensures
        a == b,
{
}

} // verus!
