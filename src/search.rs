//! Decisions of the find-and-replace bar. Buffer positions are character
//! offsets; the matching itself is done by the text buffer.

use vstd::prelude::*;

verus! {

/// Which of the find bar's controls are live after a search.
#[derive(PartialEq, Eq, Structural, Clone, Copy, Debug)]
pub struct SearchIndicators {
    /// "Previous match" is offered.
    pub up: bool,
    /// "Next match" is offered.
    pub down: bool,
    /// The query is marked as matching nothing.
    pub error: bool,
}

/// The find bar's controls for `query`, given whether it occurs after and
/// before the current position. An empty query offers nothing and is no
/// error; otherwise each direction is offered where the query occurs that
/// way, and the query is marked when it occurs neither way.
pub fn search_sensitivity(query: &str, found_after: bool, found_before: bool) -> (r: SearchIndicators)
    ensures
        r.down == (query@.len() > 0 && found_after),
        r.up == (query@.len() > 0 && found_before),
        r.error == (query@.len() > 0 && !found_after && !found_before),
{
    if query.is_empty() {
        SearchIndicators { up: false, down: false, error: false }
    } else {
        SearchIndicators {
            up: found_before,
            down: found_after,
            error: !found_after && !found_before,
        }
    }
}

/// Whether "Replace" and "Replace All" are offered: there is replacement text
/// and a selection to replace.
pub fn replace_enabled(replacement: &str, has_selection: bool) -> (r: bool)
    ensures
        r == (replacement@.len() > 0 && has_selection),
{
    !replacement.is_empty() && has_selection
}

/// Where a search for the next (`forward`) or previous match starts: the end
/// or the start of the selection `(start, end)`, or the cursor when nothing
/// is selected.
pub fn search_origin(selection: Option<(i32, i32)>, cursor: i32, forward: bool) -> (r: i32)
    ensures
        r == match selection {
            Some((start, end)) => if forward { end } else { start },
            None => cursor,
        },
{
    match selection {
        Some((start, end)) => if forward { end } else { start },
        None => cursor,
    }
}

/// The position from which the controls are judged after a search from
/// `origin`: past a match found going forward, before one found going
/// backward, or `origin` when nothing was found.
pub fn position_after_search(origin: i32, found: Option<(i32, i32)>, forward: bool) -> (r: i32)
    ensures
        r == match found {
            Some((start, end)) => if forward { end } else { start },
            None => origin,
        },
{
    match found {
        Some((start, end)) => if forward { end } else { start },
        None => origin,
    }
}

} // verus!
