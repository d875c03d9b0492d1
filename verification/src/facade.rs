//! The translation facade: a stateless two-tier lookup policy across a
//! scancode-keyed and a keysym-keyed translator.
//!
//! A keyboard event carries an optional scancode and/or an optional keysym.
//! The scancode path is authoritative: when it is supplied and yields a real
//! mapping, its result is returned at once. Otherwise the keysym path
//! answers, and when neither input is supplied the sentinel is returned.
//! At most one translator's output is returned per call — this is a
//! fallback, not a merge — and the facade never raises an error: the
//! sentinel is the sole failure signal.

use vstd::prelude::*;

use crate::keysym::KeysymTranslator;
use crate::scancode::ScancodeTranslator;
use crate::translator::Translator;
use crate::translator::SENTINEL;

verus! {

/// Composes two translators under the scancode-first precedence policy.
///
/// The facade is generic in its two tiers, so a further platform's key space
/// can be added as a new [`Translator`] without touching the precedence
/// rule.
pub struct TranslationFacade<S: Translator, K: Translator> {
    /// The authoritative first tier, keyed by hardware scancode.
    pub scancode: S,
    /// The fallback second tier, keyed by symbolic keysym.
    pub keysym: K,
}

impl<S: Translator, K: Translator> TranslationFacade<S, K> {
    /// Both tiers are well formed.
    pub open spec fn wf(&self) -> bool {
        self.scancode.wf() && self.keysym.wf()
    }

    /// The two-tier policy: the scancode tier answers when it is supplied
    /// and yields a real mapping; otherwise the keysym tier answers when
    /// supplied; otherwise the result is the sentinel.
    pub open spec fn spec_translate_event(
        &self,
        scancode: Option<u32>,
        keysym: Option<u32>,
    ) -> u16 {
        let first = match scancode {
            Some(code) => self.scancode.spec_translate(code),
            None => SENTINEL,
        };
        if first != SENTINEL {
            first
        } else {
            match keysym {
                Some(sym) => self.keysym.spec_translate(sym),
                None => SENTINEL,
            }
        }
    }

    /// Composes two well-formed translators into a facade.
    pub fn new(scancode: S, keysym: K) -> (f: TranslationFacade<S, K>)
        requires
            scancode.wf(),
            keysym.wf(),
        ensures
            f.wf(),
            f.scancode == scancode,
            f.keysym == keysym,
    {
        TranslationFacade { scancode, keysym }
    }

    /// Translates one keyboard event. Every call is independent and
    /// referentially transparent; an untranslatable event yields
    /// [`SENTINEL`], never an error.
    pub fn translate_event(&self, scancode: Option<u32>, keysym: Option<u32>) -> (vk: u16)
        requires
            self.wf(),
        ensures
            vk == self.spec_translate_event(scancode, keysym),
    {
        if let Some(code) = scancode {
            let first = self.scancode.translate(code);
            if first != SENTINEL {
                return first;
            }
        }
        match keysym {
            Some(sym) => self.keysym.translate(sym),
            None => SENTINEL,
        }
    }
}

/// Builds the facade over the two curated tables: scancodes first, keysyms
/// as the fallback.
pub fn default_facade() -> (f: TranslationFacade<ScancodeTranslator, KeysymTranslator>)
    ensures
        f.wf(),
{
    TranslationFacade::new(ScancodeTranslator::new(), KeysymTranslator::new())
}

/// Facade precedence: when a scancode is supplied and maps successfully, the
/// facade's result equals the scancode-only result, whatever keysym
/// accompanies it — even one that would map to a different value.
pub proof fn lemma_facade_precedence<S: Translator, K: Translator>(
    f: TranslationFacade<S, K>,
    code: u32,
    keysym: Option<u32>,
)
    requires
        f.scancode.spec_translate(code) != SENTINEL,
    ensures
        f.spec_translate_event(Some(code), keysym) == f.spec_translate_event(Some(code), None),
        f.spec_translate_event(Some(code), keysym) == f.scancode.spec_translate(code),
{
}

/// Facade fallback: when the scancode is absent or unmapped, the facade's
/// result equals the keysym-only result.
pub proof fn lemma_facade_fallback<S: Translator, K: Translator>(
    f: TranslationFacade<S, K>,
    scancode: Option<u32>,
    sym: u32,
)
    requires
        match scancode {
            Some(code) => f.scancode.spec_translate(code) == SENTINEL,
            None => true,
        },
    ensures
        f.spec_translate_event(scancode, Some(sym)) == f.spec_translate_event(None, Some(sym)),
        f.spec_translate_event(scancode, Some(sym)) == f.keysym.spec_translate(sym),
{
}

/// With no input at all the facade yields the sentinel.
pub proof fn lemma_facade_empty<S: Translator, K: Translator>(f: TranslationFacade<S, K>)
    ensures
        f.spec_translate_event(None, None) == SENTINEL,
{
}

} // verus!
