//! The scancode-keyed translator: Linux evdev hardware scancodes to virtual
//! keycodes.

use vstd::prelude::*;

use crate::translator::Translator;
use crate::translator::MAX_VIRTUAL_CODE;
use crate::translator::SENTINEL;

verus! {

/// The virtual code documented for a Linux evdev scancode, or [`SENTINEL`]
/// for every scancode outside the curated set.
///
/// The curated set holds 56 keys: the 26 letters, the 10 digits, five control
/// keys (space, backspace, tab, return, escape), the four arrow keys, and 11
/// punctuation marks.
pub open spec fn scancode_vk(code: u32) -> u16 {
    if code == 38 {  // A
        0
    } else if code == 56 {  // B
        11
    } else if code == 54 {  // C
        8
    } else if code == 40 {  // D
        2
    } else if code == 26 {  // E
        14
    } else if code == 41 {  // F
        3
    } else if code == 42 {  // G
        5
    } else if code == 43 {  // H
        4
    } else if code == 31 {  // I
        34
    } else if code == 44 {  // J
        38
    } else if code == 45 {  // K
        40
    } else if code == 46 {  // L
        37
    } else if code == 58 {  // M
        46
    } else if code == 57 {  // N
        45
    } else if code == 32 {  // O
        31
    } else if code == 33 {  // P
        35
    } else if code == 24 {  // Q
        12
    } else if code == 27 {  // R
        15
    } else if code == 39 {  // S
        1
    } else if code == 28 {  // T
        17
    } else if code == 30 {  // U
        32
    } else if code == 55 {  // V
        9
    } else if code == 25 {  // W
        13
    } else if code == 53 {  // X
        7
    } else if code == 29 {  // Y
        16
    } else if code == 52 {  // Z
        6
    } else if code == 10 {  // 1
        18
    } else if code == 11 {  // 2
        19
    } else if code == 12 {  // 3
        20
    } else if code == 13 {  // 4
        21
    } else if code == 14 {  // 5
        23
    } else if code == 15 {  // 6
        22
    } else if code == 16 {  // 7
        26
    } else if code == 17 {  // 8
        28
    } else if code == 18 {  // 9
        25
    } else if code == 19 {  // 0
        29
    } else if code == 65 {  // space
        49
    } else if code == 22 {  // backspace
        51
    } else if code == 23 {  // tab
        48
    } else if code == 36 {  // return
        36
    } else if code == 9 {  // escape
        53
    } else if code == 113 {  // left arrow
        123
    } else if code == 114 {  // right arrow
        124
    } else if code == 116 {  // down arrow
        125
    } else if code == 111 {  // up arrow
        126
    } else if code == 60 {  // period
        47
    } else if code == 59 {  // comma
        43
    } else if code == 61 {  // slash
        44
    } else if code == 47 {  // semicolon
        41
    } else if code == 48 {  // apostrophe
        39
    } else if code == 34 {  // left bracket
        33
    } else if code == 35 {  // right bracket
        30
    } else if code == 51 {  // backslash
        42
    } else if code == 20 {  // minus
        27
    } else if code == 21 {  // equals
        24
    } else if code == 49 {  // grave
        50
    } else {
        SENTINEL
    }
}

/// Every table entry carries exactly the virtual code that [`scancode_vk`]
/// documents for its scancode, and no entry carries the sentinel.
pub open spec fn scancode_entries_sound(entries: Seq<(u32, u16)>) -> bool {
    forall|i: int|
        0 <= i < entries.len() ==> (#[trigger] entries[i]).1 == scancode_vk(entries[i].0)
            && entries[i].1 != SENTINEL
}

/// Maps a hardware scancode to a virtual keycode through an immutable table
/// built once at construction.
pub struct ScancodeTranslator {
    table: Vec<(u32, u16)>,
}

/// Appends one `(scancode, virtual code)` pair, keeping the table sound with
/// respect to [`scancode_vk`].
fn push_scancode_entry(table: &mut Vec<(u32, u16)>, code: u32, vk: u16)
    requires
        vk == scancode_vk(code),
        vk != SENTINEL,
        scancode_entries_sound(old(table)@),
    ensures
        final(table)@ == old(table)@.push((code, vk)),
        scancode_entries_sound(final(table)@),
{
    table.push((code, vk));
}

impl ScancodeTranslator {
    /// Builds the full curated scancode table.
    #[verifier::rlimit(100)]
    pub fn new() -> (t: ScancodeTranslator)
        ensures
            t.wf(),
    {
        let mut table: Vec<(u32, u16)> = Vec::new();
        push_scancode_entry(&mut table, 38, 0);  // A
        push_scancode_entry(&mut table, 56, 11);  // B
        push_scancode_entry(&mut table, 54, 8);  // C
        push_scancode_entry(&mut table, 40, 2);  // D
        push_scancode_entry(&mut table, 26, 14);  // E
        push_scancode_entry(&mut table, 41, 3);  // F
        push_scancode_entry(&mut table, 42, 5);  // G
        push_scancode_entry(&mut table, 43, 4);  // H
        push_scancode_entry(&mut table, 31, 34);  // I
        push_scancode_entry(&mut table, 44, 38);  // J
        push_scancode_entry(&mut table, 45, 40);  // K
        push_scancode_entry(&mut table, 46, 37);  // L
        push_scancode_entry(&mut table, 58, 46);  // M
        push_scancode_entry(&mut table, 57, 45);  // N
        push_scancode_entry(&mut table, 32, 31);  // O
        push_scancode_entry(&mut table, 33, 35);  // P
        push_scancode_entry(&mut table, 24, 12);  // Q
        push_scancode_entry(&mut table, 27, 15);  // R
        push_scancode_entry(&mut table, 39, 1);  // S
        push_scancode_entry(&mut table, 28, 17);  // T
        push_scancode_entry(&mut table, 30, 32);  // U
        push_scancode_entry(&mut table, 55, 9);  // V
        push_scancode_entry(&mut table, 25, 13);  // W
        push_scancode_entry(&mut table, 53, 7);  // X
        push_scancode_entry(&mut table, 29, 16);  // Y
        push_scancode_entry(&mut table, 52, 6);  // Z
        push_scancode_entry(&mut table, 10, 18);  // 1
        push_scancode_entry(&mut table, 11, 19);  // 2
        push_scancode_entry(&mut table, 12, 20);  // 3
        push_scancode_entry(&mut table, 13, 21);  // 4
        push_scancode_entry(&mut table, 14, 23);  // 5
        push_scancode_entry(&mut table, 15, 22);  // 6
        push_scancode_entry(&mut table, 16, 26);  // 7
        push_scancode_entry(&mut table, 17, 28);  // 8
        push_scancode_entry(&mut table, 18, 25);  // 9
        push_scancode_entry(&mut table, 19, 29);  // 0
        push_scancode_entry(&mut table, 65, 49);  // space
        push_scancode_entry(&mut table, 22, 51);  // backspace
        push_scancode_entry(&mut table, 23, 48);  // tab
        push_scancode_entry(&mut table, 36, 36);  // return
        push_scancode_entry(&mut table, 9, 53);  // escape
        push_scancode_entry(&mut table, 113, 123);  // left arrow
        push_scancode_entry(&mut table, 114, 124);  // right arrow
        push_scancode_entry(&mut table, 116, 125);  // down arrow
        push_scancode_entry(&mut table, 111, 126);  // up arrow
        push_scancode_entry(&mut table, 60, 47);  // period
        push_scancode_entry(&mut table, 59, 43);  // comma
        push_scancode_entry(&mut table, 61, 44);  // slash
        push_scancode_entry(&mut table, 47, 41);  // semicolon
        push_scancode_entry(&mut table, 48, 39);  // apostrophe
        push_scancode_entry(&mut table, 34, 33);  // left bracket
        push_scancode_entry(&mut table, 35, 30);  // right bracket
        push_scancode_entry(&mut table, 51, 42);  // backslash
        push_scancode_entry(&mut table, 20, 27);  // minus
        push_scancode_entry(&mut table, 21, 24);  // equals
        push_scancode_entry(&mut table, 49, 50);  // grave
        let t = ScancodeTranslator { table };
        proof {
            assert forall|code: u32|
                scancode_vk(code) != SENTINEL implies exists|i: int|
                    0 <= i < t.table@.len() && (#[trigger] t.table@[i]).0 == code by {
                if code == 38 {
                    assert(t.table@[0].0 == 38);
                } else if code == 56 {
                    assert(t.table@[1].0 == 56);
                } else if code == 54 {
                    assert(t.table@[2].0 == 54);
                } else if code == 40 {
                    assert(t.table@[3].0 == 40);
                } else if code == 26 {
                    assert(t.table@[4].0 == 26);
                } else if code == 41 {
                    assert(t.table@[5].0 == 41);
                } else if code == 42 {
                    assert(t.table@[6].0 == 42);
                } else if code == 43 {
                    assert(t.table@[7].0 == 43);
                } else if code == 31 {
                    assert(t.table@[8].0 == 31);
                } else if code == 44 {
                    assert(t.table@[9].0 == 44);
                } else if code == 45 {
                    assert(t.table@[10].0 == 45);
                } else if code == 46 {
                    assert(t.table@[11].0 == 46);
                } else if code == 58 {
                    assert(t.table@[12].0 == 58);
                } else if code == 57 {
                    assert(t.table@[13].0 == 57);
                } else if code == 32 {
                    assert(t.table@[14].0 == 32);
                } else if code == 33 {
                    assert(t.table@[15].0 == 33);
                } else if code == 24 {
                    assert(t.table@[16].0 == 24);
                } else if code == 27 {
                    assert(t.table@[17].0 == 27);
                } else if code == 39 {
                    assert(t.table@[18].0 == 39);
                } else if code == 28 {
                    assert(t.table@[19].0 == 28);
                } else if code == 30 {
                    assert(t.table@[20].0 == 30);
                } else if code == 55 {
                    assert(t.table@[21].0 == 55);
                } else if code == 25 {
                    assert(t.table@[22].0 == 25);
                } else if code == 53 {
                    assert(t.table@[23].0 == 53);
                } else if code == 29 {
                    assert(t.table@[24].0 == 29);
                } else if code == 52 {
                    assert(t.table@[25].0 == 52);
                } else if code == 10 {
                    assert(t.table@[26].0 == 10);
                } else if code == 11 {
                    assert(t.table@[27].0 == 11);
                } else if code == 12 {
                    assert(t.table@[28].0 == 12);
                } else if code == 13 {
                    assert(t.table@[29].0 == 13);
                } else if code == 14 {
                    assert(t.table@[30].0 == 14);
                } else if code == 15 {
                    assert(t.table@[31].0 == 15);
                } else if code == 16 {
                    assert(t.table@[32].0 == 16);
                } else if code == 17 {
                    assert(t.table@[33].0 == 17);
                } else if code == 18 {
                    assert(t.table@[34].0 == 18);
                } else if code == 19 {
                    assert(t.table@[35].0 == 19);
                } else if code == 65 {
                    assert(t.table@[36].0 == 65);
                } else if code == 22 {
                    assert(t.table@[37].0 == 22);
                } else if code == 23 {
                    assert(t.table@[38].0 == 23);
                } else if code == 36 {
                    assert(t.table@[39].0 == 36);
                } else if code == 9 {
                    assert(t.table@[40].0 == 9);
                } else if code == 113 {
                    assert(t.table@[41].0 == 113);
                } else if code == 114 {
                    assert(t.table@[42].0 == 114);
                } else if code == 116 {
                    assert(t.table@[43].0 == 116);
                } else if code == 111 {
                    assert(t.table@[44].0 == 111);
                } else if code == 60 {
                    assert(t.table@[45].0 == 60);
                } else if code == 59 {
                    assert(t.table@[46].0 == 59);
                } else if code == 61 {
                    assert(t.table@[47].0 == 61);
                } else if code == 47 {
                    assert(t.table@[48].0 == 47);
                } else if code == 48 {
                    assert(t.table@[49].0 == 48);
                } else if code == 34 {
                    assert(t.table@[50].0 == 34);
                } else if code == 35 {
                    assert(t.table@[51].0 == 35);
                } else if code == 51 {
                    assert(t.table@[52].0 == 51);
                } else if code == 20 {
                    assert(t.table@[53].0 == 20);
                } else if code == 21 {
                    assert(t.table@[54].0 == 21);
                } else if code == 49 {
                    assert(t.table@[55].0 == 49);
                } else {
                    assert(scancode_vk(code) == SENTINEL);
                }
            }
        }
        t
    }
}

impl Translator for ScancodeTranslator {
    /// The table is sound (every entry agrees with [`scancode_vk`]) and
    /// complete (every curated scancode appears in it).
    closed spec fn wf(&self) -> bool {
        &&& scancode_entries_sound(self.table@)
        &&& forall|code: u32|
            scancode_vk(code) != SENTINEL ==> exists|i: int|
                0 <= i < self.table@.len() && (#[trigger] self.table@[i]).0 == code
    }

    open spec fn spec_translate(&self, code: u32) -> u16 {
        scancode_vk(code)
    }

    fn translate(&self, code: u32) -> (vk: u16) {
        let mut i: usize = 0;
        while i < self.table.len()
            invariant
                self.wf(),
                i <= self.table.len(),
                forall|j: int| 0 <= j < i ==> (#[trigger] self.table@[j]).0 != code,
            decreases self.table.len() - i,
        {
            let (entry_code, entry_vk): (u32, u16) = self.table[i];
            if entry_code == code {
                return entry_vk;
            }
            i = i + 1;
        }
        SENTINEL
    }
}

/// Convert a Linux evdev scancode to a virtual keycode; yields [`SENTINEL`]
/// (`0xFF`) for every key outside the curated set.
pub fn linux_to_mac(keycode: u32) -> (vk: u16)
    ensures
        vk == scancode_vk(keycode),
        vk == SENTINEL || vk <= MAX_VIRTUAL_CODE,
{
    let t = ScancodeTranslator::new();
    proof {
        lemma_scancode_totality(keycode);
    }
    t.translate(keycode)
}

/// Totality: every unsigned 32-bit scancode yields either a documented
/// virtual code (at most [`MAX_VIRTUAL_CODE`]) or the sentinel — never an
/// out-of-domain value.
pub proof fn lemma_scancode_totality(code: u32)
    ensures
        scancode_vk(code) == SENTINEL || scancode_vk(code) <= MAX_VIRTUAL_CODE,
{
}

} // verus!
