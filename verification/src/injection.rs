//! The synthetic key events that cancel a click.

use vstd::prelude::*;

verus! {

/// Flag of a key event that releases the key.
pub const KEY_UP: u32 = 0x0002;

/// The key code that no key has.
pub const KEY_NONE: u16 = 0;

/// One synthetic key event.
#[derive(Clone, Copy, Debug, PartialEq, Eq, Structural)]
pub struct KeyInput {
    pub virtual_key: u16,
    pub scan_code: u16,
    pub flags: u32,
}

/// The pair of key events that cancels a click: a key without meaning is
/// pressed and then released.
pub open spec fn cancel_keys_of() -> Seq<KeyInput> {
    seq![
        KeyInput { virtual_key: KEY_NONE, scan_code: 0, flags: 0 },
        KeyInput { virtual_key: KEY_NONE, scan_code: 0, flags: KEY_UP },
    ]
}

/// Lists the key events that are injected when a gesture ends, so that no
/// receiver acts on the click that the filter kept from it.
pub fn cancel_keys() -> (keys: Vec<KeyInput>)
    ensures
        keys@ == cancel_keys_of(),
{
    let mut keys: Vec<KeyInput> = Vec::new();
    keys.push(KeyInput { virtual_key: KEY_NONE, scan_code: 0, flags: 0 });
    keys.push(KeyInput { virtual_key: KEY_NONE, scan_code: 0, flags: KEY_UP });
    assert(keys@ =~= cancel_keys_of());
    keys
}

} // verus!
