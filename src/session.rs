//! What the editor window knows between events: the open file, whether the
//! save action is offered, and the path and file name it shows. Each handler
//! takes the outcome of the outside work (a dialog, a read, a write) as an
//! argument and decides the next state.

use vstd::prelude::*;
use vstd::string::StringExecFns;
use crate::digest::keccak512_of;
use crate::paths::{file_name_of, file_name_text, opt_chars, parent_of};
use crate::state::ActiveMetadata;

verus! {

/// The text shown in place of a path while no file is open.
pub open spec fn unsaved_label() -> Seq<char> {
    "Unsaved file"@
}

/// How a save ended, as reported by whoever wrote the file.
pub enum SaveAction {
    /// The text went to a path chosen in the save dialog; the record holds
    /// that path and the digest of what was written.
    New(ActiveMetadata),
    /// The text went to the open file's own path.
    Saved,
    /// The dialog was dismissed and nothing was written.
    Canceled,
}

/// Where a save writes.
pub enum SaveTarget {
    /// The open file's path.
    Existing(String),
    /// A path that the user picks in the save dialog.
    AskUser,
}

/// What a request to close the window leads to.
#[derive(PartialEq, Eq, Structural, Clone, Copy, Debug)]
pub enum CloseStep {
    /// Close the window.
    Quit,
    /// Keep the window open.
    Stay,
    /// Ask whether to save the unsaved edits first.
    AskToSave,
    /// Save, then close only if the save went through.
    SaveFirst,
}

/// The answer given in the dialog about unsaved edits.
#[derive(PartialEq, Eq, Structural, Clone, Copy, Debug)]
pub enum UnsavedAnswer {
    /// Save before closing.
    Save,
    /// Close without saving.
    Discard,
    /// The dialog was dismissed.
    Dismiss,
}

/// The state of an editor window.
pub struct Session {
    current: Option<ActiveMetadata>,
    save_enabled: bool,
    path_label: String,
    subtitle: Option<String>,
}

impl Session {
    /// The open file, if any.
    pub closed spec fn current_view(&self) -> Option<ActiveMetadata> {
        self.current
    }

    /// Whether the save action is offered.
    pub closed spec fn save_enabled_view(&self) -> bool {
        self.save_enabled
    }

    /// The path shown at the foot of the window.
    pub closed spec fn label_view(&self) -> Seq<char> {
        self.path_label@
    }

    /// The file name shown as the header's subtitle, if any.
    pub closed spec fn subtitle_view(&self) -> Option<Seq<char>> {
        opt_chars(self.subtitle)
    }

    /// The subtitle after showing `path`: its file name where it has one,
    /// else the one shown before.
    pub open spec fn subtitle_after(&self, path: Seq<char>) -> Option<Seq<char>> {
        match file_name_of(path) {
            Some(n) => Some(n),
            None => self.subtitle_view(),
        }
    }

    /// A window with no file open: saving is offered, and the foot reads
    /// "Unsaved file".
    pub fn new() -> (r: Session)
        ensures
            r.current_view() is None,
            r.save_enabled_view(),
            r.label_view() == unsaved_label(),
            r.subtitle_view() is None,
    {
        Session {
            current: None,
            save_enabled: true,
            path_label: String::from_str("Unsaved file"),
            subtitle: None,
        }
    }

    /// The open file, if any.
    pub fn current_file(&self) -> (r: Option<&ActiveMetadata>)
        ensures
            match r {
                Some(f) => self.current_view() == Some(*f),
                None => self.current_view() is None,
            },
    {
        match &self.current {
            Some(f) => Some(f),
            None => None,
        }
    }

    /// Whether the save action is offered.
    pub fn save_enabled(&self) -> (r: bool)
        ensures
            r == self.save_enabled_view(),
    {
        self.save_enabled
    }

    /// The path shown at the foot of the window.
    pub fn path_label(&self) -> (r: &str)
        ensures
            r@ == self.label_view(),
    {
        self.path_label.as_str()
    }

    /// The file name shown as the header's subtitle, if any.
    pub fn subtitle(&self) -> (r: Option<&str>)
        ensures
            match r {
                Some(s) => self.subtitle_view() == Some(s@),
                None => self.subtitle_view() is None,
            },
    {
        match &self.subtitle {
            Some(s) => Some(s.as_str()),
            None => None,
        }
    }

    /// Shows `path` at the foot and its file name, where it has one, as the
    /// subtitle.
    fn show_path(&mut self, path: &str)
        ensures
            final(self).current_view() == old(self).current_view(),
            final(self).save_enabled_view() == old(self).save_enabled_view(),
            final(self).label_view() == path@,
            final(self).subtitle_view() == old(self).subtitle_after(path@),
    {
        self.path_label = path.to_owned();
        match file_name_text(path) {
            Some(n) => {
                self.subtitle = Some(n);
            },
            None => {},
        }
    }

    /// The buffer's text became `text`: with a file open, saving is offered
    /// exactly when the text does not hash to the file's recorded digest.
    /// With none open nothing changes.
    pub fn on_text_changed(&mut self, text: &[u8])
        ensures
            final(self).current_view() == old(self).current_view(),
            final(self).label_view() == old(self).label_view(),
            final(self).subtitle_view() == old(self).subtitle_view(),
            final(self).save_enabled_view() == match old(self).current_view() {
                Some(f) => !f.reports_unchanged(text@),
                None => old(self).save_enabled_view(),
            },
    {
        match &self.current {
            Some(f) => {
                self.save_enabled = !f.is_same_as(text);
            },
            None => {},
        }
    }

    /// The folder in which the open dialog starts: the one holding the open
    /// file, if any.
    pub fn open_dir(&self) -> (r: Option<String>)
        ensures
            opt_chars(r) == match self.current_view() {
                Some(f) => parent_of(f.path_view()),
                None => None,
            },
    {
        match &self.current {
            Some(f) => f.get_dir(),
            None => None,
        }
    }

    /// The file at `path` was read and holds `contents`: it becomes the open
    /// file, recorded with the digest of `contents`, and its path is shown.
    pub fn on_opened(&mut self, path: String, contents: &[u8])
        ensures
            final(self).current_view() matches Some(f) && f.path_view() == path@
                && f.digest_view() == keccak512_of(contents@),
            final(self).save_enabled_view() == old(self).save_enabled_view(),
            final(self).label_view() == path@,
            final(self).subtitle_view() == old(self).subtitle_after(path@),
    {
        self.show_path(path.as_str());
        self.current = Some(ActiveMetadata::new(path, contents));
    }

    /// Where a save writes: "Save As", or a save with no file open, asks for
    /// a path; any other save goes to the open file's path.
    pub fn save_target(&self, save_as: bool) -> (r: SaveTarget)
        ensures
            match r {
                SaveTarget::Existing(p) => !save_as && (self.current_view() matches Some(f)
                    && p@ == f.path_view()),
                SaveTarget::AskUser => save_as || self.current_view() is None,
            },
    {
        if save_as {
            return SaveTarget::AskUser;
        }
        match &self.current {
            Some(f) => SaveTarget::Existing(f.get_path().to_owned()),
            None => SaveTarget::AskUser,
        }
    }

    /// A save of `data` ended with `action`. A new path replaces the open file
    /// and is shown; a save to the open file records the digest of `data`.
    /// Either way the save action is no longer offered, except after a save
    /// to the open file while none is open. Returns whether anything was
    /// written.
    pub fn on_saved(&mut self, action: SaveAction, data: &[u8]) -> (saved: bool)
        ensures
            saved == !(action is Canceled),
            match action {
                SaveAction::New(f) => {
                    &&& final(self).current_view() == Some(f)
                    &&& !final(self).save_enabled_view()
                    &&& final(self).label_view() == f.path_view()
                    &&& final(self).subtitle_view() == old(self).subtitle_after(f.path_view())
                },
                SaveAction::Saved => {
                    &&& final(self).label_view() == old(self).label_view()
                    &&& final(self).subtitle_view() == old(self).subtitle_view()
                    &&& match old(self).current_view() {
                        Some(f) => {
                            &&& final(self).current_view() matches Some(g)
                                && g.path_view() == f.path_view()
                                && g.digest_view() == keccak512_of(data@)
                            &&& !final(self).save_enabled_view()
                        },
                        None => {
                            &&& final(self).current_view() is None
                            &&& final(self).save_enabled_view() == old(self).save_enabled_view()
                        },
                    }
                },
                SaveAction::Canceled => *final(self) == *old(self),
            },
    {
        match action {
            SaveAction::New(f) => {
                self.show_path(f.get_path());
                self.current = Some(f);
                self.save_enabled = false;
                true
            },
            SaveAction::Saved => {
                match &mut self.current {
                    Some(f) => {
                        f.set_sum(data);
                        self.save_enabled = false;
                    },
                    None => {},
                }
                true
            },
            SaveAction::Canceled => false,
        }
    }

    /// A save of `data` made while the window closes ended with `action`.
    /// The open file and the save action change as after any save, but the
    /// shown path and file name stay as they were. Returns whether anything
    /// was written.
    pub fn on_saved_before_close(&mut self, action: SaveAction, data: &[u8]) -> (saved: bool)
        ensures
            saved == !(action is Canceled),
            final(self).label_view() == old(self).label_view(),
            final(self).subtitle_view() == old(self).subtitle_view(),
            match action {
                SaveAction::New(f) => {
                    &&& final(self).current_view() == Some(f)
                    &&& !final(self).save_enabled_view()
                },
                SaveAction::Saved => match old(self).current_view() {
                    Some(f) => {
                        &&& final(self).current_view() matches Some(g)
                            && g.path_view() == f.path_view()
                            && g.digest_view() == keccak512_of(data@)
                        &&& !final(self).save_enabled_view()
                    },
                    None => {
                        &&& final(self).current_view() is None
                        &&& final(self).save_enabled_view() == old(self).save_enabled_view()
                    },
                },
                SaveAction::Canceled => *final(self) == *old(self),
            },
    {
        match action {
            SaveAction::New(f) => {
                self.current = Some(f);
                self.save_enabled = false;
                true
            },
            SaveAction::Saved => {
                match &mut self.current {
                    Some(f) => {
                        f.set_sum(data);
                        self.save_enabled = false;
                    },
                    None => {},
                }
                true
            },
            SaveAction::Canceled => false,
        }
    }

    /// A request to close the window: with the save action offered, ask
    /// first; otherwise close.
    pub fn on_close_requested(&self) -> (r: CloseStep)
        ensures
            r == (if self.save_enabled_view() { CloseStep::AskToSave } else { CloseStep::Quit }),
    {
        if self.save_enabled {
            CloseStep::AskToSave
        } else {
            CloseStep::Quit
        }
    }
}

/// The step after the unsaved-edits dialog was answered.
pub fn after_unsaved_answer(answer: UnsavedAnswer) -> (r: CloseStep)
    ensures
        r == match answer {
            UnsavedAnswer::Save => CloseStep::SaveFirst,
            UnsavedAnswer::Discard => CloseStep::Quit,
            UnsavedAnswer::Dismiss => CloseStep::Stay,
        },
{
    match answer {
        UnsavedAnswer::Save => CloseStep::SaveFirst,
        UnsavedAnswer::Discard => CloseStep::Quit,
        UnsavedAnswer::Dismiss => CloseStep::Stay,
    }
}

/// The step after saving on the way out: close only if the save went through.
pub fn after_closing_save(saved: bool) -> (r: CloseStep)
    ensures
        r == (if saved { CloseStep::Quit } else { CloseStep::Stay }),
{
    if saved {
        CloseStep::Quit
    } else {
        CloseStep::Stay
    }
}

} // verus!
