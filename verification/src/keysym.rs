//! The keysym-keyed translator: X11 symbolic keycaps to virtual keycodes.
//!
//! Keysyms are locale- and layout-stable symbolic identifiers for a keycap's
//! printed glyph, independent of the hardware scancode numbering a given
//! keyboard uses. Because physical key identity does not depend on shift
//! state, the uppercase and the lowercase keysym of each Latin letter alias
//! to the same virtual code.

use vstd::prelude::*;

use crate::translator::Translator;
use crate::translator::MAX_VIRTUAL_CODE;
use crate::translator::SENTINEL;

verus! {

/// The canonical keysym of a physical key: uppercase Latin letters fold to
/// their lowercase counterpart, every other keysym is already canonical.
pub open spec fn canonical_keysym(sym: u32) -> u32 {
    if 0x0041 <= sym <= 0x005a {
        (sym + 0x20) as u32
    } else {
        sym
    }
}

/// The virtual code documented for a canonical keysym, or [`SENTINEL`] for
/// every keysym outside the curated set.
///
/// The curated set keyed by keysym holds 52 physical keys: the 26 letters
/// (by their lowercase keysym), the 10 digits, five control keys (space,
/// backspace, tab, return, escape) and 11 punctuation marks. The four arrow
/// keys carry no keysym entry.
pub open spec fn canonical_keysym_vk(sym: u32) -> u16 {
    if sym == 0x0061 {  // a
        0
    } else if sym == 0x0062 {  // b
        11
    } else if sym == 0x0063 {  // c
        8
    } else if sym == 0x0064 {  // d
        2
    } else if sym == 0x0065 {  // e
        14
    } else if sym == 0x0066 {  // f
        3
    } else if sym == 0x0067 {  // g
        5
    } else if sym == 0x0068 {  // h
        4
    } else if sym == 0x0069 {  // i
        34
    } else if sym == 0x006a {  // j
        38
    } else if sym == 0x006b {  // k
        40
    } else if sym == 0x006c {  // l
        37
    } else if sym == 0x006d {  // m
        46
    } else if sym == 0x006e {  // n
        45
    } else if sym == 0x006f {  // o
        31
    } else if sym == 0x0070 {  // p
        35
    } else if sym == 0x0071 {  // q
        12
    } else if sym == 0x0072 {  // r
        15
    } else if sym == 0x0073 {  // s
        1
    } else if sym == 0x0074 {  // t
        17
    } else if sym == 0x0075 {  // u
        32
    } else if sym == 0x0076 {  // v
        9
    } else if sym == 0x0077 {  // w
        13
    } else if sym == 0x0078 {  // x
        7
    } else if sym == 0x0079 {  // y
        16
    } else if sym == 0x007a {  // z
        6
    } else if sym == 0x0031 {  // 1
        18
    } else if sym == 0x0032 {  // 2
        19
    } else if sym == 0x0033 {  // 3
        20
    } else if sym == 0x0034 {  // 4
        21
    } else if sym == 0x0035 {  // 5
        23
    } else if sym == 0x0036 {  // 6
        22
    } else if sym == 0x0037 {  // 7
        26
    } else if sym == 0x0038 {  // 8
        28
    } else if sym == 0x0039 {  // 9
        25
    } else if sym == 0x0030 {  // 0
        29
    } else if sym == 0x0020 {  // space
        49
    } else if sym == 0xff08 {  // backspace
        51
    } else if sym == 0xff09 {  // tab
        48
    } else if sym == 0xff0d {  // return
        36
    } else if sym == 0xff1b {  // escape
        53
    } else if sym == 0x002e {  // period
        47
    } else if sym == 0x002c {  // comma
        43
    } else if sym == 0x002f {  // slash
        44
    } else if sym == 0x003b {  // semicolon
        41
    } else if sym == 0x0027 {  // apostrophe
        39
    } else if sym == 0x005b {  // left bracket
        33
    } else if sym == 0x005d {  // right bracket
        30
    } else if sym == 0x005c {  // backslash
        42
    } else if sym == 0x002d {  // minus
        27
    } else if sym == 0x003d {  // equals
        24
    } else if sym == 0x0060 {  // grave
        50
    } else {
        SENTINEL
    }
}

/// The virtual code documented for a keysym: case folding first, then the
/// canonical table. Uppercase and lowercase letter keysyms therefore agree.
pub open spec fn keysym_vk(sym: u32) -> u16 {
    canonical_keysym_vk(canonical_keysym(sym))
}

/// Every table entry carries exactly the virtual code that
/// [`canonical_keysym_vk`] documents for its keysym, and no entry carries the
/// sentinel.
pub open spec fn keysym_entries_sound(entries: Seq<(u32, u16)>) -> bool {
    forall|i: int|
        0 <= i < entries.len() ==> (#[trigger] entries[i]).1 == canonical_keysym_vk(
            entries[i].0,
        ) && entries[i].1 != SENTINEL
}

/// Maps an X11 keysym to a virtual keycode through an immutable table built
/// once at construction.
pub struct KeysymTranslator {
    table: Vec<(u32, u16)>,
}

/// Appends one `(keysym, virtual code)` pair, keeping the table sound with
/// respect to [`canonical_keysym_vk`].
fn push_keysym_entry(table: &mut Vec<(u32, u16)>, sym: u32, vk: u16)
    requires
        vk == canonical_keysym_vk(sym),
        vk != SENTINEL,
        keysym_entries_sound(old(table)@),
    ensures
        final(table)@ == old(table)@.push((sym, vk)),
        keysym_entries_sound(final(table)@),
{
    table.push((sym, vk));
}

impl KeysymTranslator {
    /// Builds the full curated keysym table, keyed by canonical keysyms.
    #[verifier::rlimit(100)]
    pub fn new() -> (t: KeysymTranslator)
        ensures
            t.wf(),
    {
        let mut table: Vec<(u32, u16)> = Vec::new();
        push_keysym_entry(&mut table, 0x0061, 0);  // a
        push_keysym_entry(&mut table, 0x0062, 11);  // b
        push_keysym_entry(&mut table, 0x0063, 8);  // c
        push_keysym_entry(&mut table, 0x0064, 2);  // d
        push_keysym_entry(&mut table, 0x0065, 14);  // e
        push_keysym_entry(&mut table, 0x0066, 3);  // f
        push_keysym_entry(&mut table, 0x0067, 5);  // g
        push_keysym_entry(&mut table, 0x0068, 4);  // h
        push_keysym_entry(&mut table, 0x0069, 34);  // i
        push_keysym_entry(&mut table, 0x006a, 38);  // j
        push_keysym_entry(&mut table, 0x006b, 40);  // k
        push_keysym_entry(&mut table, 0x006c, 37);  // l
        push_keysym_entry(&mut table, 0x006d, 46);  // m
        push_keysym_entry(&mut table, 0x006e, 45);  // n
        push_keysym_entry(&mut table, 0x006f, 31);  // o
        push_keysym_entry(&mut table, 0x0070, 35);  // p
        push_keysym_entry(&mut table, 0x0071, 12);  // q
        push_keysym_entry(&mut table, 0x0072, 15);  // r
        push_keysym_entry(&mut table, 0x0073, 1);  // s
        push_keysym_entry(&mut table, 0x0074, 17);  // t
        push_keysym_entry(&mut table, 0x0075, 32);  // u
        push_keysym_entry(&mut table, 0x0076, 9);  // v
        push_keysym_entry(&mut table, 0x0077, 13);  // w
        push_keysym_entry(&mut table, 0x0078, 7);  // x
        push_keysym_entry(&mut table, 0x0079, 16);  // y
        push_keysym_entry(&mut table, 0x007a, 6);  // z
        push_keysym_entry(&mut table, 0x0031, 18);  // 1
        push_keysym_entry(&mut table, 0x0032, 19);  // 2
        push_keysym_entry(&mut table, 0x0033, 20);  // 3
        push_keysym_entry(&mut table, 0x0034, 21);  // 4
        push_keysym_entry(&mut table, 0x0035, 23);  // 5
        push_keysym_entry(&mut table, 0x0036, 22);  // 6
        push_keysym_entry(&mut table, 0x0037, 26);  // 7
        push_keysym_entry(&mut table, 0x0038, 28);  // 8
        push_keysym_entry(&mut table, 0x0039, 25);  // 9
        push_keysym_entry(&mut table, 0x0030, 29);  // 0
        push_keysym_entry(&mut table, 0x0020, 49);  // space
        push_keysym_entry(&mut table, 0xff08, 51);  // backspace
        push_keysym_entry(&mut table, 0xff09, 48);  // tab
        push_keysym_entry(&mut table, 0xff0d, 36);  // return
        push_keysym_entry(&mut table, 0xff1b, 53);  // escape
        push_keysym_entry(&mut table, 0x002e, 47);  // period
        push_keysym_entry(&mut table, 0x002c, 43);  // comma
        push_keysym_entry(&mut table, 0x002f, 44);  // slash
        push_keysym_entry(&mut table, 0x003b, 41);  // semicolon
        push_keysym_entry(&mut table, 0x0027, 39);  // apostrophe
        push_keysym_entry(&mut table, 0x005b, 33);  // left bracket
        push_keysym_entry(&mut table, 0x005d, 30);  // right bracket
        push_keysym_entry(&mut table, 0x005c, 42);  // backslash
        push_keysym_entry(&mut table, 0x002d, 27);  // minus
        push_keysym_entry(&mut table, 0x003d, 24);  // equals
        push_keysym_entry(&mut table, 0x0060, 50);  // grave
        let t = KeysymTranslator { table };
        proof {
            assert forall|sym: u32|
                canonical_keysym_vk(sym) != SENTINEL implies exists|i: int|
                    0 <= i < t.table@.len() && (#[trigger] t.table@[i]).0 == sym by {
                if sym == 0x0061 {
                    assert(t.table@[0].0 == 0x0061);
                } else if sym == 0x0062 {
                    assert(t.table@[1].0 == 0x0062);
                } else if sym == 0x0063 {
                    assert(t.table@[2].0 == 0x0063);
                } else if sym == 0x0064 {
                    assert(t.table@[3].0 == 0x0064);
                } else if sym == 0x0065 {
                    assert(t.table@[4].0 == 0x0065);
                } else if sym == 0x0066 {
                    assert(t.table@[5].0 == 0x0066);
                } else if sym == 0x0067 {
                    assert(t.table@[6].0 == 0x0067);
                } else if sym == 0x0068 {
                    assert(t.table@[7].0 == 0x0068);
                } else if sym == 0x0069 {
                    assert(t.table@[8].0 == 0x0069);
                } else if sym == 0x006a {
                    assert(t.table@[9].0 == 0x006a);
                } else if sym == 0x006b {
                    assert(t.table@[10].0 == 0x006b);
                } else if sym == 0x006c {
                    assert(t.table@[11].0 == 0x006c);
                } else if sym == 0x006d {
                    assert(t.table@[12].0 == 0x006d);
                } else if sym == 0x006e {
                    assert(t.table@[13].0 == 0x006e);
                } else if sym == 0x006f {
                    assert(t.table@[14].0 == 0x006f);
                } else if sym == 0x0070 {
                    assert(t.table@[15].0 == 0x0070);
                } else if sym == 0x0071 {
                    assert(t.table@[16].0 == 0x0071);
                } else if sym == 0x0072 {
                    assert(t.table@[17].0 == 0x0072);
                } else if sym == 0x0073 {
                    assert(t.table@[18].0 == 0x0073);
                } else if sym == 0x0074 {
                    assert(t.table@[19].0 == 0x0074);
                } else if sym == 0x0075 {
                    assert(t.table@[20].0 == 0x0075);
                } else if sym == 0x0076 {
                    assert(t.table@[21].0 == 0x0076);
                } else if sym == 0x0077 {
                    assert(t.table@[22].0 == 0x0077);
                } else if sym == 0x0078 {
                    assert(t.table@[23].0 == 0x0078);
                } else if sym == 0x0079 {
                    assert(t.table@[24].0 == 0x0079);
                } else if sym == 0x007a {
                    assert(t.table@[25].0 == 0x007a);
                } else if sym == 0x0031 {
                    assert(t.table@[26].0 == 0x0031);
                } else if sym == 0x0032 {
                    assert(t.table@[27].0 == 0x0032);
                } else if sym == 0x0033 {
                    assert(t.table@[28].0 == 0x0033);
                } else if sym == 0x0034 {
                    assert(t.table@[29].0 == 0x0034);
                } else if sym == 0x0035 {
                    assert(t.table@[30].0 == 0x0035);
                } else if sym == 0x0036 {
                    assert(t.table@[31].0 == 0x0036);
                } else if sym == 0x0037 {
                    assert(t.table@[32].0 == 0x0037);
                } else if sym == 0x0038 {
                    assert(t.table@[33].0 == 0x0038);
                } else if sym == 0x0039 {
                    assert(t.table@[34].0 == 0x0039);
                } else if sym == 0x0030 {
                    assert(t.table@[35].0 == 0x0030);
                } else if sym == 0x0020 {
                    assert(t.table@[36].0 == 0x0020);
                } else if sym == 0xff08 {
                    assert(t.table@[37].0 == 0xff08);
                } else if sym == 0xff09 {
                    assert(t.table@[38].0 == 0xff09);
                } else if sym == 0xff0d {
                    assert(t.table@[39].0 == 0xff0d);
                } else if sym == 0xff1b {
                    assert(t.table@[40].0 == 0xff1b);
                } else if sym == 0x002e {
                    assert(t.table@[41].0 == 0x002e);
                } else if sym == 0x002c {
                    assert(t.table@[42].0 == 0x002c);
                } else if sym == 0x002f {
                    assert(t.table@[43].0 == 0x002f);
                } else if sym == 0x003b {
                    assert(t.table@[44].0 == 0x003b);
                } else if sym == 0x0027 {
                    assert(t.table@[45].0 == 0x0027);
                } else if sym == 0x005b {
                    assert(t.table@[46].0 == 0x005b);
                } else if sym == 0x005d {
                    assert(t.table@[47].0 == 0x005d);
                } else if sym == 0x005c {
                    assert(t.table@[48].0 == 0x005c);
                } else if sym == 0x002d {
                    assert(t.table@[49].0 == 0x002d);
                } else if sym == 0x003d {
                    assert(t.table@[50].0 == 0x003d);
                } else if sym == 0x0060 {
                    assert(t.table@[51].0 == 0x0060);
                } else {
                    assert(canonical_keysym_vk(sym) == SENTINEL);
                }
            }
        }
        t
    }
}

impl Translator for KeysymTranslator {
    /// The table is sound (every entry agrees with [`canonical_keysym_vk`])
    /// and complete (every curated canonical keysym appears in it).
    closed spec fn wf(&self) -> bool {
        &&& keysym_entries_sound(self.table@)
        &&& forall|sym: u32|
            canonical_keysym_vk(sym) != SENTINEL ==> exists|i: int|
                0 <= i < self.table@.len() && (#[trigger] self.table@[i]).0 == sym
    }

    open spec fn spec_translate(&self, code: u32) -> u16 {
        keysym_vk(code)
    }

    fn translate(&self, code: u32) -> (vk: u16) {
        let folded: u32 = if 0x0041 <= code && code <= 0x005a {
            code + 0x20
        } else {
            code
        };
        let mut i: usize = 0;
        while i < self.table.len()
            invariant
                self.wf(),
                folded == canonical_keysym(code),
                i <= self.table.len(),
                forall|j: int| 0 <= j < i ==> (#[trigger] self.table@[j]).0 != folded,
            decreases self.table.len() - i,
        {
            let (entry_sym, entry_vk): (u32, u16) = self.table[i];
            if entry_sym == folded {
                return entry_vk;
            }
            i = i + 1;
        }
        SENTINEL
    }
}

/// Convert an X11 keysym to a virtual keycode; yields [`SENTINEL`] (`0xFF`)
/// for every keysym outside the curated set. Used when no scancode is
/// available.
pub fn keysym_to_mac(keysym: u32) -> (vk: u16)
    ensures
        vk == keysym_vk(keysym),
        vk == SENTINEL || vk <= MAX_VIRTUAL_CODE,
{
    let t = KeysymTranslator::new();
    proof {
        lemma_keysym_totality(keysym);
    }
    t.translate(keysym)
}

/// Totality: every unsigned 32-bit keysym yields either a documented virtual
/// code (at most [`MAX_VIRTUAL_CODE`]) or the sentinel — never an
/// out-of-domain value.
pub proof fn lemma_keysym_totality(sym: u32)
    ensures
        keysym_vk(sym) == SENTINEL || keysym_vk(sym) <= MAX_VIRTUAL_CODE,
{
}

/// Case aliasing: the uppercase and the lowercase keysym of the same Latin
/// letter yield identical virtual codes, because physical key identity is
/// shift-independent.
pub proof fn lemma_case_aliasing(upper: u32, lower: u32)
    requires
        0x0041 <= upper <= 0x005a,
        lower == upper + 0x20,
    ensures
        keysym_vk(upper) == keysym_vk(lower),
{
}

} // verus!
