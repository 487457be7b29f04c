//! Keyboard shortcuts of the editor window.

use vstd::prelude::*;

verus! {

/// What a key press asks for.
#[derive(PartialEq, Eq, Structural, Clone, Copy, Debug)]
pub enum KeyAction {
    /// Ctrl+S: save.
    Save,
    /// Ctrl+O: open a file.
    Open,
    /// Ctrl+F: show the find bar.
    ShowSearch,
    /// Escape: hide the find bar.
    HideSearch,
    /// Anything else.
    Nothing,
}

/// The action for a key with symbol `keyval` (for a letter, its code point),
/// pressed with or without Control; `escape` tells whether it is Escape.
pub fn key_action(keyval: u32, control: bool, escape: bool) -> (r: KeyAction)
    ensures
        r == (if control && keyval == 's' as u32 {
            KeyAction::Save
        } else if control && keyval == 'o' as u32 {
            KeyAction::Open
        } else if control && keyval == 'f' as u32 {
            KeyAction::ShowSearch
        } else if escape {
            KeyAction::HideSearch
        } else {
            KeyAction::Nothing
        }),
{
    if control && keyval == 's' as u32 {
        KeyAction::Save
    } else if control && keyval == 'o' as u32 {
        KeyAction::Open
    } else if control && keyval == 'f' as u32 {
        KeyAction::ShowSearch
    } else if escape {
        KeyAction::HideSearch
    } else {
        KeyAction::Nothing
    }
}

} // verus!
