//! Keys decoded from the keyboard, as the terminal sees them.

use vstd::prelude::*;
use pc_keyboard::{DecodedKey, KeyCode};
use crate::term::Key;

verus! {

#[verifier::external_type_specification]
pub struct ExKeyCode(KeyCode);

#[verifier::external_type_specification]
pub struct ExDecodedKey(DecodedKey);

/// Relies on `KeyCode` being `repr(u8)`: the key code's discriminant.
#[verifier::external_body]
fn key_code_byte(code: KeyCode) -> (r: u8) {
    code as u8
}

/// The keys with a meaning of their own to the terminal.
pub open spec fn is_terminal_key(code: KeyCode) -> bool {
    code == KeyCode::ArrowUp || code == KeyCode::ArrowDown || code == KeyCode::Home || code == KeyCode::End
        || code == KeyCode::ArrowRight || code == KeyCode::ArrowLeft || code == KeyCode::F1 || code
        == KeyCode::F2 || code == KeyCode::F3 || code == KeyCode::F12
}

/// The terminal's view of a decoded key.
pub fn key_from_decoded(key: DecodedKey) -> (r: Key)
    ensures
        key == DecodedKey::RawKey(KeyCode::ArrowUp) ==> r == Key::ArrowUp,
        key == DecodedKey::RawKey(KeyCode::ArrowDown) ==> r == Key::ArrowDown,
        key == DecodedKey::RawKey(KeyCode::Home) ==> r == Key::Home,
        key == DecodedKey::RawKey(KeyCode::End) ==> r == Key::End,
        key == DecodedKey::RawKey(KeyCode::ArrowRight) ==> r == Key::ArrowRight,
        key == DecodedKey::RawKey(KeyCode::ArrowLeft) ==> r == Key::ArrowLeft,
        key == DecodedKey::RawKey(KeyCode::F1) ==> r == Key::F1,
        key == DecodedKey::RawKey(KeyCode::F2) ==> r == Key::F2,
        key == DecodedKey::RawKey(KeyCode::F3) ==> r == Key::F3,
        key == DecodedKey::RawKey(KeyCode::F12) ==> r == Key::F12,
        forall|c: char| key == DecodedKey::Unicode(c) ==> r == Key::Unicode(c),
        forall|code: KeyCode| key == DecodedKey::RawKey(code) && !is_terminal_key(code) ==> r is Raw,
{
    match key {
        DecodedKey::RawKey(KeyCode::ArrowUp) => Key::ArrowUp,
        DecodedKey::RawKey(KeyCode::ArrowDown) => Key::ArrowDown,
        DecodedKey::RawKey(KeyCode::Home) => Key::Home,
        DecodedKey::RawKey(KeyCode::End) => Key::End,
        DecodedKey::RawKey(KeyCode::ArrowRight) => Key::ArrowRight,
        DecodedKey::RawKey(KeyCode::ArrowLeft) => Key::ArrowLeft,
        DecodedKey::RawKey(KeyCode::F1) => Key::F1,
        DecodedKey::RawKey(KeyCode::F2) => Key::F2,
        DecodedKey::RawKey(KeyCode::F3) => Key::F3,
        DecodedKey::RawKey(KeyCode::F12) => Key::F12,
        DecodedKey::RawKey(code) => Key::Raw(key_code_byte(code)),
        DecodedKey::Unicode(c) => Key::Unicode(c),
    }
}

} // verus!
