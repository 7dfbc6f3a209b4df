//! The file browser widget's navigation state.
//!
//! The browser holds the current directory as a list of path components and
//! the entries of that directory; reading a directory from disk is the
//! application's job, which hands the entries in when the browser decides to
//! move.

use crate::state::Key;
use vstd::prelude::*;

verus! {

/// One directory entry as the application read it: its file name and
/// whether it is a directory.
#[derive(Clone, Debug)]
pub struct DirEntry {
    pub name: Vec<char>,
    pub is_dir: bool,
}

/// Whether `name` ends with `suffix`.
pub open spec fn ends_with(name: Seq<char>, suffix: Seq<char>) -> bool {
    name.len() >= suffix.len() && name.subrange(name.len() - suffix.len(), name.len() as int)
        == suffix
}

/// Whether a file name carries one of the playable audio extensions: a stem
/// followed by `.mp3`, `.wav` or `.ogg`.
pub open spec fn is_audio_name(name: Seq<char>) -> bool {
    name.len() > 4 && (ends_with(name, seq!['.', 'm', 'p', '3']) || ends_with(
        name,
        seq!['.', 'w', 'a', 'v'],
    ) || ends_with(name, seq!['.', 'o', 'g', 'g']))
}

/// What the application must do after a key reached the browser.
#[derive(Clone, Copy, Debug, PartialEq, Eq)]
pub enum BrowserAction {
    /// Nothing: the browser handled the key by itself.
    Stay,
    /// Read the directory of the entry at this index and hand the entries
    /// to `traverse_into`.
    EnterDir(usize),
    /// When this index is zero: read the parent directory and hand the
    /// entries to `backtrack`.
    Parent(usize),
}

/// A file browser: the current directory as path components, the entries of
/// that directory, and which entry is selected.
#[derive(Clone, Debug)]
pub struct FileBrowser {
    pub current_path: Vec<Vec<char>>,
    pub selected_index: usize,
    pub entries: Vec<DirEntry>,
}

impl FileBrowser {
    /// A browser showing the given directory, with the first entry selected.
    pub fn new(current_path: Vec<Vec<char>>, entries: Vec<DirEntry>) -> (r: FileBrowser)
        ensures
            r.current_path == current_path,
            r.entries == entries,
            r.selected_index == 0,
    {
        FileBrowser { current_path, selected_index: 0, entries }
    }

    /// Moves the selection one entry up, stopping at the first.
    pub fn up(&mut self)
        ensures
            final(self).selected_index == if old(self).selected_index > 0 {
                old(self).selected_index - 1
            } else {
                0int
            },
            final(self).entries == old(self).entries,
            final(self).current_path == old(self).current_path,
    {
        if self.selected_index > 0 {
            self.selected_index = self.selected_index - 1;
        }
    }

    /// Moves the selection one entry down, stopping at the last.
    pub fn down(&mut self)
        requires
            old(self).entries@.len() >= 1,
        ensures
            final(self).selected_index == if old(self).selected_index + 1 < old(self).entries@.len() {
                old(self).selected_index + 1
            } else {
                old(self).selected_index as int
            },
            final(self).entries == old(self).entries,
            final(self).current_path == old(self).current_path,
    {
        if self.selected_index < self.entries.len() - 1 {
            self.selected_index = self.selected_index + 1;
        }
    }

    /// Descends into the entry at `index` when it is a directory: its name
    /// joins the current path and `new_entries`, the contents the
    /// application read for it, replace the listing. A plain file changes
    /// nothing.
    pub fn traverse_into(&mut self, index: usize, new_entries: Vec<DirEntry>)
        requires
            index < old(self).entries@.len(),
        ensures
            final(self).selected_index == old(self).selected_index,
            if old(self).entries@[index as int].is_dir {
                final(self).current_path.deep_view() == old(self).current_path.deep_view().push(
                    old(self).entries@[index as int].name@,
                ) && final(self).entries == new_entries
            } else {
                final(self).current_path == old(self).current_path && final(self).entries == old(self).entries
            },
    {
        if self.entries[index].is_dir {
            let name = self.entries[index].name.clone();
            proof {
                assert(name@ == self.entries@[index as int].name@);
            }
            self.current_path.push(name);
            proof {
                assert(self.current_path.deep_view() =~~= old(
                    self,
                ).current_path.deep_view().push(old(self).entries@[index as int].name@));
            }
            self.entries = new_entries;
        }
    }

    /// Steps back to the parent directory when `index` is zero: the last
    /// path component is dropped and `parent_entries`, the parent's contents
    /// as the application read them, replace the listing.
    pub fn backtrack(&mut self, index: usize, parent_entries: Vec<DirEntry>)
        requires
            index == 0 ==> old(self).current_path@.len() >= 1,
        ensures
            final(self).selected_index == old(self).selected_index,
            if index == 0 {
                final(self).current_path.deep_view() == old(
                    self,
                ).current_path.deep_view().drop_last() && final(self).entries == parent_entries
            } else {
                final(self).current_path == old(self).current_path && final(self).entries == old(self).entries
            },
    {
        if index == 0 {
            self.current_path.pop();
            proof {
                assert(self.current_path.deep_view() =~~= old(
                    self,
                ).current_path.deep_view().drop_last());
            }
            self.entries = parent_entries;
        }
    }

    /// The selected entry, when there is one.
    pub fn selected_path(&self) -> (r: Option<&DirEntry>)
        ensures
            match r {
                Some(e) => self.selected_index < self.entries@.len() && e == &self.entries@[self.selected_index as int],
                None => self.selected_index >= self.entries@.len(),
            },
    {
        if self.selected_index < self.entries.len() {
            Some(&self.entries[self.selected_index])
        } else {
            None
        }
    }

    /// Whether the selected entry's name carries an audio extension.
    pub fn selected_is_audio(&self) -> (r: bool)
        requires
            self.selected_index < self.entries@.len(),
        ensures
            r == is_audio_name(self.entries@[self.selected_index as int].name@),
    {
        let name = &self.entries[self.selected_index].name;
        let n = name.len();
        if n <= 4 {
            return false;
        }
        let c1 = name[n - 4];
        let c2 = name[n - 3];
        let c3 = name[n - 2];
        let c4 = name[n - 1];
        let r = (c1 == '.' && c2 == 'm' && c3 == 'p' && c4 == '3') || (c1 == '.' && c2 == 'w' && c3
            == 'a' && c4 == 'v') || (c1 == '.' && c2 == 'o' && c3 == 'g' && c4 == 'g');
        proof {
            let s = name@;
            let tail = s.subrange(s.len() - 4, s.len() as int);
            assert(tail[0] == c1 && tail[1] == c2 && tail[2] == c3 && tail[3] == c4);
            if c1 == '.' && c2 == 'm' && c3 == 'p' && c4 == '3' {
                assert(tail =~= seq!['.', 'm', 'p', '3']);
            }
            if c1 == '.' && c2 == 'w' && c3 == 'a' && c4 == 'v' {
                assert(tail =~= seq!['.', 'w', 'a', 'v']);
            }
            if c1 == '.' && c2 == 'o' && c3 == 'g' && c4 == 'g' {
                assert(tail =~= seq!['.', 'o', 'g', 'g']);
            }
            assert(ends_with(s, seq!['.', 'm', 'p', '3']) ==> tail =~= seq!['.', 'm', 'p', '3']);
            assert(ends_with(s, seq!['.', 'w', 'a', 'v']) ==> tail =~= seq!['.', 'w', 'a', 'v']);
            assert(ends_with(s, seq!['.', 'o', 'g', 'g']) ==> tail =~= seq!['.', 'o', 'g', 'g']);
        }
        r
    }

    /// The name of the selected entry.
    pub fn selected_file(&self) -> (r: &Vec<char>)
        requires
            self.selected_index < self.entries@.len(),
        ensures
            r@ == self.entries@[self.selected_index as int].name@,
    {
        &self.entries[self.selected_index].name
    }

    /// Applies one key press: up and down move the selection; enter on a
    /// non-audio entry resets the selection and asks the application to
    /// descend into it; tab resets the selection and asks for the parent.
    pub fn handle_event(&mut self, key: Key) -> (act: BrowserAction)
        requires
            old(self).entries@.len() >= 1,
            old(self).selected_index < old(self).entries@.len(),
        ensures
            final(self).entries == old(self).entries,
            final(self).current_path == old(self).current_path,
            match key {
                Key::Up => act == BrowserAction::Stay && final(self).selected_index == if old(self).selected_index > 0 {
                    old(self).selected_index - 1
                } else {
                    0int
                },
                Key::Down => act == BrowserAction::Stay && final(self).selected_index == if old(self).selected_index + 1 < old(self).entries@.len() {
                    old(self).selected_index + 1
                } else {
                    old(self).selected_index as int
                },
                Key::Enter => if is_audio_name(
                    old(self).entries@[old(self).selected_index as int].name@,
                ) {
                    act == BrowserAction::Stay && final(self).selected_index == old(self).selected_index
                } else {
                    act == BrowserAction::EnterDir(old(self).selected_index) && final(self).selected_index == 0
                },
                Key::Tab => act == BrowserAction::Parent(old(self).selected_index) && final(self).selected_index == 0,
                _ => act == BrowserAction::Stay && final(self).selected_index == old(self).selected_index,
            },
    {
        match key {
            Key::Up => {
                self.up();
                BrowserAction::Stay
            },
            Key::Down => {
                self.down();
                BrowserAction::Stay
            },
            Key::Enter => {
                if self.selected_is_audio() {
                    BrowserAction::Stay
                } else {
                    let idx = self.selected_index;
                    self.selected_index = 0;
                    BrowserAction::EnterDir(idx)
                }
            },
            Key::Tab => {
                let idx = self.selected_index;
                self.selected_index = 0;
                BrowserAction::Parent(idx)
            },
            _ => BrowserAction::Stay,
        }
    }
}

} // verus!
