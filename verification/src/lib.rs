//! Keycode translation between keyboard identity spaces.
//!
//! The library bridges two incompatible ways of naming a physical key — the
//! Linux input stack's hardware scancodes (evdev) and locale-independent
//! symbolic keycaps (X11 keysyms) — by translating both into a third, fixed
//! virtual-keycode space used to synthesize keystrokes on a remote target.
//!
//! Every lookup is a pure, total function: a key inside the curated set
//! (letters, digits, a handful of control, navigation and punctuation keys)
//! yields its documented virtual code, and every other input yields the
//! reserved sentinel `0xFF`. Absence of a mapping is an ordinary outcome,
//! never an error.

pub mod facade;
pub mod identity;
pub mod keysym;
pub mod scancode;
pub mod translator;

pub use facade::default_facade;
pub use facade::TranslationFacade;
pub use keysym::keysym_to_mac;
pub use keysym::KeysymTranslator;
pub use scancode::linux_to_mac;
pub use scancode::ScancodeTranslator;
pub use translator::Translator;
pub use translator::MAX_VIRTUAL_CODE;
pub use translator::SENTINEL;
