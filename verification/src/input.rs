//! The decoded key events the game recognizes.  The caller decodes hardware
//! input into these plain values before handing them to the controller.

use vstd::prelude::*;

verus! {

/// A raw (non-printable) key the game cares about.
#[derive(Copy, Clone, PartialEq, Eq, Structural, Debug)]
pub enum KeyCode {
    ArrowUp,
    ArrowDown,
    /// Any other raw key; the game ignores it.
    Other,
}

/// One decoded input event: either a printable character or a raw key.
#[derive(Copy, Clone, PartialEq, Eq, Structural, Debug)]
pub enum DecodedKey {
    RawKey(KeyCode),
    Unicode(char),
}

} // verus!
