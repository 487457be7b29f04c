//! Stored preferences and how the window applies them: line wrapping, the
//! colour scheme, and where a new window goes.

use vstd::prelude::*;

verus! {

/// How the text view wraps long lines.
#[derive(PartialEq, Eq, Structural, Clone, Copy, Debug)]
pub enum WrapMode {
    /// No wrapping.
    Off,
    /// Wrap between words.
    Word,
    /// Wrap between characters.
    Char,
}

/// The wrap mode from the stored "wrap words" and "wrap characters" flags:
/// characters where both are set, words where only the first is, else none.
pub fn initial_wrap_mode(word: bool, char: bool) -> (r: WrapMode)
    ensures
        r == (if word && char {
            WrapMode::Char
        } else if word {
            WrapMode::Word
        } else {
            WrapMode::Off
        }),
{
    if word && char {
        WrapMode::Char
    } else if word {
        WrapMode::Word
    } else {
        WrapMode::Off
    }
}

/// What toggling the "wrap words" box does.
#[derive(PartialEq, Eq, Structural, Clone, Copy, Debug)]
pub struct WordToggle {
    /// The new wrap mode.
    pub mode: WrapMode,
    /// Whether the "wrap characters" box is to be cleared.
    pub clear_char: bool,
}

/// "Wrap words" became `active`: on, words wrap; off, wrapping stops and the
/// "wrap characters" box is cleared with it.
pub fn wrap_on_word_toggled(active: bool) -> (r: WordToggle)
    ensures
        r.mode == (if active { WrapMode::Word } else { WrapMode::Off }),
        r.clear_char == !active,
{
    if active {
        WordToggle { mode: WrapMode::Word, clear_char: false }
    } else {
        WordToggle { mode: WrapMode::Off, clear_char: true }
    }
}

/// "Wrap characters" was toggled: characters wrap where it is on, else words
/// where "wrap words" is on; otherwise the mode stays (`None`).
pub fn wrap_on_char_toggled(word_active: bool, char_active: bool) -> (r: Option<WrapMode>)
    ensures
        r == (if char_active {
            Some(WrapMode::Char)
        } else if word_active {
            Some(WrapMode::Word)
        } else {
            None
        }),
{
    if char_active {
        Some(WrapMode::Char)
    } else if word_active {
        Some(WrapMode::Word)
    } else {
        None
    }
}

/// The colour scheme tried first for the dark or the light theme.
pub fn preferred_scheme(dark: bool) -> (r: &'static str)
    ensures
        r@ == (if dark { "eddit-dark"@ } else { "eddit-light"@ }),
{
    if dark {
        "eddit-dark"
    } else {
        "eddit-light"
    }
}

/// The colour scheme used where the preferred one is not installed.
pub fn fallback_scheme() -> (r: &'static str)
    ensures
        r@ == "Classic"@,
{
    "Classic"
}

/// The colour scheme to apply for the dark or the light theme: the preferred
/// one where it is installed, else the fallback where that one is, else none.
pub fn scheme_choice(dark: bool, preferred_installed: bool, fallback_installed: bool) -> (r: Option<&'static str>)
    ensures
        match r {
            Some(name) => if preferred_installed {
                name@ == (if dark { "eddit-dark"@ } else { "eddit-light"@ })
            } else {
                fallback_installed && name@ == "Classic"@
            },
            None => !preferred_installed && !fallback_installed,
        },
{
    if preferred_installed {
        Some(preferred_scheme(dark))
    } else if fallback_installed {
        Some(fallback_scheme())
    } else {
        None
    }
}

/// Where a new window is placed.
#[derive(PartialEq, Eq, Structural, Clone, Copy, Debug)]
pub enum Placement {
    /// In the middle of the screen.
    Center,
    /// With its corner at the given position.
    At(i32, i32),
}

/// The stored position `(-1, -1)` means "none yet": centre the window.
/// Any other stored position is used as it is.
pub fn initial_placement(pos_x: i32, pos_y: i32) -> (r: Placement)
    ensures
        r == (if pos_x == -1 && pos_y == -1 {
            Placement::Center
        } else {
            Placement::At(pos_x, pos_y)
        }),
{
    if pos_x == -1 && pos_y == -1 {
        Placement::Center
    } else {
        Placement::At(pos_x, pos_y)
    }
}

/// How far each new window is moved from the last stored position.
pub const CASCADE_STEP: i32 = 20;

/// The position stored for the next window: this one's, moved by
/// `CASCADE_STEP`, held at the largest `i32`.
pub fn cascaded(pos: i32) -> (r: i32)
    ensures
        r == (if pos <= i32::MAX - CASCADE_STEP { pos + CASCADE_STEP } else { i32::MAX as int }),
{
    if pos <= i32::MAX - CASCADE_STEP {
        pos + CASCADE_STEP
    } else {
        i32::MAX
    }
}

} // verus!
