//! The shared capability implemented by every keycode translator: a total
//! code-to-code mapping with a reserved not-found sentinel.

use vstd::prelude::*;

verus! {

/// Reserved output value meaning "no mapping known". It lies outside the
/// documented virtual-code range, so it is distinguishable from every real
/// mapping.
pub const SENTINEL: u16 = 0xFF;

/// Largest virtual code appearing in the curated tables; every documented
/// virtual code lies in `0 ..= MAX_VIRTUAL_CODE`.
pub const MAX_VIRTUAL_CODE: u16 = 126;

/// A translator from one keyboard identity space into the fixed
/// virtual-keycode space.
///
/// Each implementation is a pure, deterministic, total function over the full
/// unsigned 32-bit input domain: codes inside its curated table yield their
/// documented virtual code, and every other code yields [`SENTINEL`].
pub trait Translator: Sized {
    /// The translator's internal table is well formed: it agrees with the
    /// translator's mathematical mapping and misses none of its entries.
    spec fn wf(&self) -> bool;

    /// The mathematical mapping this translator implements.
    spec fn spec_translate(&self, code: u32) -> u16;

    /// Look up `code`, returning its documented virtual code, or [`SENTINEL`]
    /// when the code is outside the curated table.
    fn translate(&self, code: u32) -> (vk: u16)
        requires
            self.wf(),
        ensures
            vk == self.spec_translate(code),
    ;
}

} // verus!
