//! Verified core of a small text editor: the open file's path and content
//! digest, the dirty tracking built on it, and the decisions that the window
//! takes on edits, saves, searches, key presses and close requests.

pub mod digest;
pub mod paths;
pub mod state;
pub mod session;
pub mod search;
pub mod keys;
pub mod prefs;
