//! The state behind the interactive widgets: a selectable list with a
//! wrapping cursor, and a flat text-input buffer with a cursor.
//!
//! Drawing is not done here; a renderer outside the library reads these
//! values and puts them on the screen.

use vstd::prelude::*;
use vstd::string::*;

verus! {

/// A direction coming from the arrow keys.
#[allow(non_camel_case_types)]
#[derive(PartialEq, Eq, Structural, Clone, Copy, Debug)]
pub enum Direction {
    UP,
    DOWN,
    LEFT,
    RIGHT,
}

/// One editing step against an input widget.
#[derive(PartialEq, Eq, Structural, Clone, Copy, Debug)]
pub enum InputEvent {
    NewChar(char),
    RemovePrevChar,
    RemoveNextChar,
    MoveCursor(Direction),
    Reset,
}

/// A named list with at most one selected item. The cursor wraps at both
/// ends; on an empty list nothing can be selected.
pub struct UIList {
    pub name: String,
    pub items: Vec<String>,
    pub selected: Option<usize>,
    pub focused: bool,
}

impl UIList {
    /// A selected index always points into the item vector.
    pub open spec fn wf(&self) -> bool {
        self.selected matches Some(i) ==> i < self.items@.len()
    }

    pub fn new(name: String, items: Vec<String>) -> (l: UIList)
        ensures
            l.name == name,
            l.items == items,
            l.selected is None,
            !l.focused,
            l.wf(),
    {
        UIList { name, items, selected: None, focused: false }
    }

    pub fn name(&self) -> (r: &str)
        ensures
            r@ == self.name@,
    {
        self.name.as_str()
    }

    /// Replaces the item set and clears the selection.
    pub fn update(&mut self, items: Vec<String>)
        ensures
            final(self).items == items,
            final(self).selected is None,
            final(self).name == old(self).name,
            final(self).focused == old(self).focused,
            final(self).wf(),
    {
        self.items = items;
        self.selected = None;
    }

    /// The text of the selected item, if one is selected.
    pub fn selected_item(&self) -> (r: Option<String>)
        requires
            self.wf(),
        ensures
            match r {
                Some(s) => self.selected matches Some(i) && s@ == self.items@[i as int]@,
                None => self.selected is None,
            },
    {
        match self.selected {
            Some(i) => Some(self.items[i].clone()),
            None => None,
        }
    }

    pub fn is_focused(&self) -> (r: bool)
        ensures
            r == self.focused,
    {
        self.focused
    }

    /// The selected index, if any.
    pub fn state(&self) -> (r: Option<usize>)
        ensures
            r == self.selected,
    {
        self.selected
    }

    /// Moves the cursor for an up or down key; other directions do nothing.
    pub fn handle_navigation(&mut self, direction: &Direction)
        requires
            old(self).wf(),
        ensures
            final(self).wf(),
            final(self).items == old(self).items,
            final(self).name == old(self).name,
            final(self).focused == old(self).focused,
            *direction is UP ==> final(self).selected == spec_up(old(self).selected, old(self).items@.len()),
            *direction is DOWN ==> final(self).selected == spec_down(old(self).selected, old(self).items@.len()),
            !(*direction is UP) && !(*direction is DOWN) ==> final(self).selected == old(self).selected,
    {
        match direction {
            Direction::UP => self.handle_up(),
            Direction::DOWN => self.handle_down(),
            _ => (),
        }
    }

    /// One step down, wrapping from the last item to the first.
    pub fn handle_down(&mut self)
        requires
            old(self).wf(),
        ensures
            final(self).wf(),
            final(self).items == old(self).items,
            final(self).name == old(self).name,
            final(self).focused == old(self).focused,
            final(self).selected == spec_down(old(self).selected, old(self).items@.len()),
    {
        if self.items.len() == 0 {
            self.selected = None;
            return;
        }
        match self.selected {
            Some(i) => {
                if i == self.items.len() - 1 {
                    self.selected = Some(0);
                } else {
                    self.selected = Some(i + 1);
                }
            },
            None => {
                self.selected = Some(0);
            },
        }
    }

    /// One step up, wrapping from the first item to the last.
    pub fn handle_up(&mut self)
        requires
            old(self).wf(),
        ensures
            final(self).wf(),
            final(self).items == old(self).items,
            final(self).name == old(self).name,
            final(self).focused == old(self).focused,
            final(self).selected == spec_up(old(self).selected, old(self).items@.len()),
    {
        if self.items.len() == 0 {
            self.selected = None;
            return;
        }
        match self.selected {
            Some(i) => {
                if i == 0 {
                    self.selected = Some(self.items.len() - 1);
                } else {
                    self.selected = Some(i - 1);
                }
            },
            None => {
                self.selected = Some(0);
            },
        }
    }
}

/// Where the cursor lands for one navigation key: up and down move it,
/// anything else keeps it.
pub open spec fn spec_nav(selected: Option<usize>, len: nat, d: Direction) -> Option<usize> {
    match d {
        Direction::UP => spec_up(selected, len),
        Direction::DOWN => spec_down(selected, len),
        _ => selected,
    }
}

/// Where the cursor lands after one step down a list of `len` items.
pub open spec fn spec_down(selected: Option<usize>, len: nat) -> Option<usize> {
    if len == 0 {
        None
    } else {
        match selected {
            Some(i) => if i == len - 1 {
                Some(0usize)
            } else {
                Some((i + 1) as usize)
            },
            None => Some(0usize),
        }
    }
}

/// Where the cursor lands after one step up a list of `len` items.
pub open spec fn spec_up(selected: Option<usize>, len: nat) -> Option<usize> {
    if len == 0 {
        None
    } else {
        match selected {
            Some(i) => if i == 0 {
                Some((len - 1) as usize)
            } else {
                Some((i - 1) as usize)
            },
            None => Some(0usize),
        }
    }
}

/// Relies on `String`'s `FromIterator<char>`: collecting characters yields
/// the string holding exactly those characters in order.
#[verifier::external_body]
fn string_from_chars(chars: &Vec<char>) -> (s: String)
    ensures
        s@ == chars@,
{
    chars.iter().collect()
}

/// A flat text buffer with a cursor, the model behind every input widget.
/// Line structure is a concern of the renderer; the up and down cursor
/// keys leave the buffer untouched.
pub struct InputBuffer {
    pub chars: Vec<char>,
    pub cursor: usize,
}

impl InputBuffer {
    /// The cursor sits between characters, at worst past the last one.
    pub open spec fn wf(&self) -> bool {
        self.cursor <= self.chars@.len()
    }

    pub fn new() -> (b: InputBuffer)
        ensures
            b.chars@ == Seq::<char>::empty(),
            b.cursor == 0,
            b.wf(),
    {
        let b = InputBuffer { chars: Vec::new(), cursor: 0 };
        proof {
            assert(b.chars@ =~= Seq::<char>::empty());
        }
        b
    }

    /// Applies one editing step at the cursor. A buffer that has grown to
    /// the machine's limit takes no further character.
    pub fn apply(&mut self, event: InputEvent)
        requires
            old(self).wf(),
        ensures
            final(self).wf(),
            spec_applied(*old(self), *final(self), event),
    {
        match event {
            InputEvent::NewChar(c) => {
                if self.chars.len() < usize::MAX {
                    self.chars.insert(self.cursor, c);
                    self.cursor += 1;
                }
            },
            InputEvent::RemovePrevChar => {
                if self.cursor > 0 {
                    self.chars.remove(self.cursor - 1);
                    self.cursor -= 1;
                }
            },
            InputEvent::RemoveNextChar => {
                if self.cursor < self.chars.len() {
                    self.chars.remove(self.cursor);
                }
            },
            InputEvent::MoveCursor(d) => {
                match d {
                    Direction::LEFT => {
                        if self.cursor > 0 {
                            self.cursor -= 1;
                        }
                    },
                    Direction::RIGHT => {
                        if self.cursor < self.chars.len() {
                            self.cursor += 1;
                        }
                    },
                    _ => (),
                }
            },
            InputEvent::Reset => {
                self.chars = Vec::new();
                self.cursor = 0;
                proof {
                    assert(self.chars@ =~= Seq::<char>::empty());
                }
            },
        }
    }

    /// The buffered text.
    pub fn value(&self) -> (s: String)
        ensures
            s@ == self.chars@,
    {
        string_from_chars(&self.chars)
    }
}

/// How one editing step relates the buffer before and after: a character
/// lands at the cursor, the delete keys remove around it, the horizontal
/// keys move it, and a reset empties the buffer.
pub open spec fn spec_applied(pre: InputBuffer, post: InputBuffer, event: InputEvent) -> bool {
    match event {
        InputEvent::NewChar(c) => if pre.chars@.len() < usize::MAX {
            post.chars@ == pre.chars@.insert(pre.cursor as int, c) && post.cursor == pre.cursor
                + 1
        } else {
            post == pre
        },
        InputEvent::RemovePrevChar => if pre.cursor > 0 {
            post.chars@ == pre.chars@.remove(pre.cursor - 1) && post.cursor == pre.cursor - 1
        } else {
            post == pre
        },
        InputEvent::RemoveNextChar => if pre.cursor < pre.chars@.len() {
            post.chars@ == pre.chars@.remove(pre.cursor as int) && post.cursor == pre.cursor
        } else {
            post == pre
        },
        InputEvent::MoveCursor(d) => post.chars == pre.chars && post.cursor == spec_cursor_move(
            pre.cursor,
            pre.chars@.len(),
            d,
        ),
        InputEvent::Reset => post.chars@ == Seq::<char>::empty() && post.cursor == 0,
    }
}

/// Where the cursor lands after a horizontal move; vertical moves keep it.
pub open spec fn spec_cursor_move(cursor: usize, len: nat, d: Direction) -> usize {
    match d {
        Direction::LEFT => if cursor > 0 {
            (cursor - 1) as usize
        } else {
            cursor
        },
        Direction::RIGHT => if cursor < len {
            (cursor + 1) as usize
        } else {
            cursor
        },
        _ => cursor,
    }
}

} // verus!
