//! The single-line text input widget.

use crate::state::Key;
use vstd::prelude::*;

verus! {

/// A single-line text input: its content, the cursor position within it,
/// and whether it currently has focus.
#[derive(Clone, Debug)]
pub struct TextInput {
    pub content: Vec<char>,
    pub cursor: usize,
    pub focused: bool,
}

impl TextInput {
    /// The cursor always sits within the content, at most one past its end.
    pub open spec fn wf(&self) -> bool {
        self.cursor <= self.content@.len()
    }
}

impl Default for TextInput {
    /// An empty, unfocused input with the cursor at the start.
    fn default() -> (r: TextInput)
        ensures
            r.content@ == Seq::<char>::empty(),
            r.cursor == 0,
            !r.focused,
            r.wf(),
    {
        TextInput { content: Vec::new(), cursor: 0, focused: false }
    }
}

impl TextInput {
    /// Applies one key press to the input: characters are inserted at the
    /// cursor, backspace and delete remove around it, and the arrow keys
    /// move it; every edit keeps the cursor inside the content.
    pub fn handle_event(&mut self, key: Key)
        requires
            old(self).wf(),
            old(self).content@.len() < usize::MAX,
        ensures
            final(self).wf(),
            final(self).focused == old(self).focused,
            match key {
                Key::Char(c) => final(self).content@ == old(self).content@.insert(
                    old(self).cursor as int,
                    c,
                ) && final(self).cursor == old(self).cursor + 1,
                Key::Backspace => if old(self).cursor > 0 {
                    final(self).content@ == old(self).content@.remove(old(self).cursor - 1)
                        && final(self).cursor == old(self).cursor - 1
                } else {
                    final(self).content@ == old(self).content@ && final(self).cursor == 0
                },
                Key::Delete => final(self).cursor == old(self).cursor && if old(self).cursor < old(self).content@.len() {
                    final(self).content@ == old(self).content@.remove(old(self).cursor as int)
                } else {
                    final(self).content@ == old(self).content@
                },
                Key::Left => final(self).content@ == old(self).content@ && final(self).cursor == if old(self).cursor > 0 {
                    old(self).cursor - 1
                } else {
                    0int
                },
                Key::Right => final(self).content@ == old(self).content@ && final(self).cursor
                    == if old(self).cursor < old(self).content@.len() {
                    old(self).cursor + 1
                } else {
                    old(self).cursor as int
                },
                _ => final(self).content@ == old(self).content@ && final(self).cursor == old(self).cursor,
            },
    {
        match key {
            Key::Char(c) => {
                self.content.insert(self.cursor, c);
                self.cursor = self.cursor + 1;
            },
            Key::Backspace => {
                if self.cursor > 0 {
                    self.content.remove(self.cursor - 1);
                    self.cursor = self.cursor - 1;
                }
            },
            Key::Delete => {
                if self.cursor < self.content.len() {
                    self.content.remove(self.cursor);
                }
            },
            Key::Left => {
                if self.cursor > 0 {
                    self.cursor = self.cursor - 1;
                }
            },
            Key::Right => {
                if self.cursor < self.content.len() {
                    self.cursor = self.cursor + 1;
                }
            },
            _ => {},
        }
    }

    /// The line the widget shows: the content up to the cursor, then an
    /// underscore cursor mark when focused and a space otherwise.
    #[verifier::loop_isolation(false)]
    pub fn rendered_line(&self) -> (v: Vec<char>)
        requires
            self.wf(),
        ensures
            v@ == self.content@.take(self.cursor as int).push(
                if self.focused {
                    '_'
                } else {
                    ' '
                },
            ),
    {
        let mut v: Vec<char> = Vec::new();
        let mut i: usize = 0;
        while i < self.cursor
            invariant
                i <= self.cursor,
                v@ == self.content@.take(i as int),
            decreases self.cursor - i,
        {
            v.push(self.content[i]);
            proof {
                assert(v@ =~= self.content@.take(i + 1));
            }
            i = i + 1;
        }
        if self.focused {
            v.push('_');
        } else {
            v.push(' ');
        }
        v
    }
}

} // verus!
