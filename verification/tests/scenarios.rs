//! Concrete scenarios: documented lookups, sentinel outcomes, facade
//! precedence and fallback, and totality of both translators.

use keymap::default_facade;
use keymap::keysym_to_mac;
use keymap::linux_to_mac;
use keymap::KeysymTranslator;
use keymap::ScancodeTranslator;
use keymap::TranslationFacade;
use keymap::Translator;
use keymap::MAX_VIRTUAL_CODE;
use keymap::SENTINEL;

#[test]
fn scancode_letter_a() {
    assert_eq!(linux_to_mac(38), 0);
}

#[test]
fn keysym_letter_a_both_cases() {
    assert_eq!(keysym_to_mac(0x0061), 0);
    assert_eq!(keysym_to_mac(0x0041), 0);
}

#[test]
fn scancode_space() {
    assert_eq!(linux_to_mac(65), 49);
}

#[test]
fn scancode_left_arrow() {
    assert_eq!(linux_to_mac(113), 123);
}

#[test]
fn unrecognized_scancode_yields_sentinel() {
    assert_eq!(linux_to_mac(999999), SENTINEL);
}

#[test]
fn facade_falls_back_to_keysym_on_unmapped_scancode() {
    let facade = default_facade();
    assert_eq!(facade.translate_event(Some(999999), Some(0x0061)), 0);
}

#[test]
fn facade_prefers_scancode_over_a_divergent_keysym() {
    // Scancode 38 (the A key) maps to 0; keysym 0x0062 ("b") would map to 11.
    let facade = default_facade();
    assert_eq!(facade.translate_event(Some(38), Some(0x0062)), 0);
    assert_eq!(facade.translate_event(Some(38), None), 0);
}

#[test]
fn facade_uses_keysym_when_scancode_is_absent() {
    let facade = default_facade();
    assert_eq!(facade.translate_event(None, Some(0x0062)), 11);
}

#[test]
fn facade_with_no_usable_input_yields_sentinel() {
    let facade = default_facade();
    assert_eq!(facade.translate_event(None, None), SENTINEL);
    assert_eq!(facade.translate_event(Some(999999), None), SENTINEL);
    assert_eq!(facade.translate_event(None, Some(0xffe1)), SENTINEL);
    assert_eq!(facade.translate_event(Some(999999), Some(0xffe1)), SENTINEL);
}

#[test]
fn facade_composes_explicit_translators() {
    let facade = TranslationFacade::new(ScancodeTranslator::new(), KeysymTranslator::new());
    assert_eq!(facade.translate_event(Some(52), Some(0x007a)), 6);
}

#[test]
fn translators_answer_directly() {
    let scancodes = ScancodeTranslator::new();
    let keysyms = KeysymTranslator::new();
    assert_eq!(scancodes.translate(24), 12);
    assert_eq!(keysyms.translate(0x0071), 12);
}

#[test]
fn modifier_and_function_keys_are_unmapped() {
    // Left Shift, Left Ctrl, Caps Lock, F1 and Enter on the keypad all lie
    // outside the curated set.
    for code in [50u32, 37, 66, 67, 104] {
        assert_eq!(linux_to_mac(code), SENTINEL);
    }
    // Shift_L, Control_L and F1 keysyms likewise.
    for sym in [0xffe1u32, 0xffe3, 0xffbe] {
        assert_eq!(keysym_to_mac(sym), SENTINEL);
    }
}

#[test]
fn every_result_is_documented_or_sentinel() {
    for code in 0u32..2048u32 {
        let vk = linux_to_mac(code);
        assert!(vk == SENTINEL || vk <= MAX_VIRTUAL_CODE);
        let vk = keysym_to_mac(code);
        assert!(vk == SENTINEL || vk <= MAX_VIRTUAL_CODE);
    }
    assert_eq!(linux_to_mac(u32::MAX), SENTINEL);
    assert_eq!(keysym_to_mac(u32::MAX), SENTINEL);
}

#[test]
fn sentinel_is_distinct_from_every_documented_code() {
    assert!(SENTINEL > MAX_VIRTUAL_CODE);
}
