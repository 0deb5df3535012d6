//! The address line: one line of text with a cursor, edited a character at
//! a time.

use crate::text::chars_of;
use crate::text::lemma_encode_push;
use crate::text::string_of;
use crate::text::utf8_width;
use vstd::prelude::*;
use vstd::utf8::*;

verus! {

/// Which part of the screen takes the keys.
#[derive(Clone, Copy, Debug, PartialEq, Eq, Structural)]
pub enum InputMode {
    /// The body pane: the keys scroll, and the address is read-only.
    Normal,
    /// The address line: the keys edit it.
    Editing,
}

/// The mathematical state of an [`Input`].
pub struct InputView {
    /// The characters of the line.
    pub text: Seq<char>,
    /// How many characters stand before the cursor.
    pub cursor: nat,
    pub mode: InputMode,
}

/// One step of editing.
pub enum EditOp {
    /// Type a character.
    Insert(char),
    /// Delete the character before the cursor.
    Delete,
    /// Move the cursor one character left.
    Left,
    /// Move the cursor one character right.
    Right,
}

impl InputView {
    /// The cursor stands in the text or right after it.
    pub open spec fn wf(self) -> bool {
        self.cursor <= self.text.len()
    }

    /// `c` is put in at the cursor, and the cursor moves past it.
    pub open spec fn enter_char(self, c: char) -> InputView {
        InputView {
            text: self.text.insert(self.cursor as int, c),
            cursor: self.cursor + 1,
            mode: self.mode,
        }
    }

    /// The character before the cursor goes, and the cursor moves back over
    /// its place; at the start of the line nothing changes.
    pub open spec fn delete_char(self) -> InputView {
        if self.cursor == 0 {
            self
        } else {
            InputView {
                text: self.text.remove(self.cursor - 1),
                cursor: (self.cursor - 1) as nat,
                mode: self.mode,
            }
        }
    }

    /// The cursor moves one character left, and stays at the start of the
    /// line.
    pub open spec fn move_cursor_left(self) -> InputView {
        if self.cursor == 0 {
            self
        } else {
            InputView { text: self.text, cursor: (self.cursor - 1) as nat, mode: self.mode }
        }
    }

    /// The cursor moves one character right, and stays at the end of the
    /// line.
    pub open spec fn move_cursor_right(self) -> InputView {
        if self.cursor >= self.text.len() {
            InputView { text: self.text, cursor: self.text.len(), mode: self.mode }
        } else {
            InputView { text: self.text, cursor: self.cursor + 1, mode: self.mode }
        }
    }

    /// The cursor goes to the end of the line.
    pub open spec fn reset_cursor(self) -> InputView {
        InputView { text: self.text, cursor: self.text.len(), mode: self.mode }
    }

    /// The same line in another mode.
    pub open spec fn with_mode(self, mode: InputMode) -> InputView {
        InputView { text: self.text, cursor: self.cursor, mode }
    }

    /// How many bytes the characters before the cursor take in UTF-8.
    pub open spec fn bytes_before_cursor(self) -> nat {
        encode_utf8(self.text.take(self.cursor as int)).len()
    }

    /// The state after one step of editing.
    pub open spec fn apply(self, op: EditOp) -> InputView {
        match op {
            EditOp::Insert(c) => self.enter_char(c),
            EditOp::Delete => self.delete_char(),
            EditOp::Left => self.move_cursor_left(),
            EditOp::Right => self.move_cursor_right(),
        }
    }

    /// The state after the steps of `ops`, taken in order.
    pub open spec fn apply_all(self, ops: Seq<EditOp>) -> InputView
        decreases ops.len(),
    {
        if ops.len() == 0 {
            self
        } else {
            self.apply(ops[0]).apply_all(ops.drop_first())
        }
    }
}

/// Whatever is typed, deleted or moved over, in whatever order, the cursor
/// stays in the text or right after it, and the mode is as it was.
pub proof fn lemma_cursor_stays_in_text(s: InputView, ops: Seq<EditOp>)
    requires
        s.wf(),
    ensures
        s.apply_all(ops).wf(),
        s.apply_all(ops).mode == s.mode,
    decreases ops.len(),
{
    if ops.len() > 0 {
        lemma_cursor_stays_in_text(s.apply(ops[0]), ops.drop_first());
    }
}

/// Typing a character and deleting it at once gives back the text and the
/// cursor as they were.
pub proof fn lemma_delete_undoes_enter(s: InputView, c: char)
    requires
        s.wf(),
    ensures
        s.enter_char(c).delete_char() == s,
{
    assert(s.text.insert(s.cursor as int, c).remove(s.cursor as int) =~= s.text);
}

/// A longer stretch of a text takes at least as many bytes.
proof fn lemma_encode_grows(text: Seq<char>, shorter: int, longer: int)
    requires
        0 <= shorter <= longer <= text.len(),
    ensures
        encode_utf8(text.take(shorter)).len() <= encode_utf8(text.take(longer)).len(),
    decreases longer - shorter,
{
    if shorter < longer {
        lemma_encode_grows(text, shorter, longer - 1);
        lemma_encode_push(text.take(longer - 1), text[longer - 1]);
        assert(text.take(longer - 1).push(text[longer - 1]) =~= text.take(longer));
    }
}

/// The address that the line holds when the program starts.
pub open spec fn default_url() -> Seq<char> {
    "gemini://geminiprotocol.net/"@
}

/// The address line with its cursor and the mode of the screen.
pub struct Input {
    value: Vec<char>,
    index: usize,
    mode: InputMode,
}

impl View for Input {
    type V = InputView;

    closed spec fn view(&self) -> InputView {
        InputView { text: self.value@, cursor: self.index as nat, mode: self.mode }
    }
}

impl Input {
    #[verifier::type_invariant]
    spec fn inv(self) -> bool {
        self.index <= self.value@.len()
    }

    /// Takes the text out of the line, which is left empty.
    fn take_value(&mut self) -> (value: Vec<char>)
        ensures
            value@ == old(self)@.text,
            final(self)@ == (InputView { text: Seq::empty(), cursor: 0, mode: old(self)@.mode }),
    {
        let mut value: Vec<char> = Vec::new();
        self.index = 0;
        core::mem::swap(&mut self.value, &mut value);
        value
    }

    /// A line that holds `text`, with the cursor at its end, ready to be
    /// edited.
    pub fn new(text: &str) -> (input: Input)
        ensures
            input@ == (InputView {
                text: text@,
                cursor: text@.len(),
                mode: InputMode::Editing,
            }),
            input@.wf(),
    {
        let value = chars_of(text);
        let index: usize = value.len();
        Input { value, index, mode: InputMode::Editing }
    }

    /// The text of the line.
    pub fn value(&self) -> (text: String)
        ensures
            text@ == self@.text,
    {
        let text = string_of(&self.value, 0, self.value.len());
        assert(self.value@.subrange(0, self.value@.len() as int) =~= self.value@);
        text
    }

    /// How many characters the line holds.
    pub fn len(&self) -> (n: usize)
        ensures
            n == self@.text.len(),
    {
        self.value.len()
    }

    /// How many characters stand before the cursor.
    pub fn index(&self) -> (index: usize)
        ensures
            index == self@.cursor,
            index <= self@.text.len(),
    {
        proof {
            use_type_invariant(self);
        }
        self.index
    }

    /// Where the cursor stands in the bytes of the text: how many bytes the
    /// characters before it take in UTF-8, or `None` where that number is
    /// too large to be held.
    pub fn byte_index(&self) -> (offset: Option<usize>)
        ensures
            match offset {
                Some(n) => n == self@.bytes_before_cursor(),
                None => self@.bytes_before_cursor() > usize::MAX,
            },
    {
        proof {
            use_type_invariant(self);
        }
        let mut offset: usize = 0;
        let mut i: usize = 0;
        assert(self.value@.take(0) =~= Seq::<char>::empty());
        while i < self.index
            invariant
                i <= self.index <= self.value@.len(),
                offset == encode_utf8(self.value@.take(i as int)).len(),
            decreases self.index - i,
        {
            proof {
                lemma_encode_push(self.value@.take(i as int), self.value@[i as int]);
                assert(self.value@.take(i as int).push(self.value@[i as int]) =~= self.value@.take(
                    i as int + 1,
                ));
            }
            let width: usize = utf8_width(self.value[i]);
            if offset > usize::MAX - width {
                proof {
                    lemma_encode_grows(self.value@, i as int + 1, self.index as int);
                }
                return None;
            }
            offset = offset + width;
            i = i + 1;
        }
        Some(offset)
    }

    /// The mode of the screen.
    pub fn mode(&self) -> (mode: InputMode)
        ensures
            mode == self@.mode,
    {
        self.mode
    }

    /// Changes the mode and leaves the line as it is.
    pub fn set_mode(&mut self, mode: InputMode)
        ensures
            final(self)@ == old(self)@.with_mode(mode),
            final(self)@.wf(),
    {
        proof {
            use_type_invariant(&*self);
        }
        self.mode = mode;
    }

    /// Puts `c` in at the cursor and moves the cursor past it.
    pub fn enter_char(&mut self, c: char)
        ensures
            final(self)@ == old(self)@.enter_char(c),
            final(self)@.wf(),
    {
        proof {
            use_type_invariant(&*self);
        }
        let index: usize = self.index;
        let mut value = self.take_value();
        value.insert(index, c);
        let moved: usize = if index < value.len() {
            index + 1
        } else {
            value.len()
        };
        *self = Input { value, index: moved, mode: self.mode };
    }

    /// Deletes the character before the cursor and moves the cursor back;
    /// at the start of the line nothing changes.
    pub fn delete_char(&mut self)
        ensures
            final(self)@ == old(self)@.delete_char(),
            final(self)@.wf(),
    {
        proof {
            use_type_invariant(&*self);
        }
        if self.index != 0 {
            let index: usize = self.index - 1;
            let mut value = self.take_value();
            value.remove(index);
            *self = Input { value, index, mode: self.mode };
        }
    }

    /// Moves the cursor one character left, not past the start of the line.
    pub fn move_cursor_left(&mut self)
        ensures
            final(self)@ == old(self)@.move_cursor_left(),
            final(self)@.wf(),
    {
        proof {
            use_type_invariant(&*self);
        }
        if self.index != 0 {
            self.index = self.index - 1;
        }
    }

    /// Moves the cursor one character right, not past the end of the line.
    pub fn move_cursor_right(&mut self)
        ensures
            final(self)@ == old(self)@.move_cursor_right(),
            final(self)@.wf(),
    {
        proof {
            use_type_invariant(&*self);
        }
        if self.index < self.value.len() {
            self.index = self.index + 1;
        }
    }

    /// Moves the cursor to the end of the line.
    pub fn reset_cursor(&mut self)
        ensures
            final(self)@ == old(self)@.reset_cursor(),
            final(self)@.wf(),
    {
        self.index = self.value.len();
    }
}

impl Default for Input {
    /// The line as the program starts with it: the default address, the
    /// cursor at its end, ready to be edited.
    fn default() -> (input: Input)
        ensures
            input@ == (InputView {
                text: default_url(),
                cursor: default_url().len(),
                mode: InputMode::Editing,
            }),
    {
        Input::new("gemini://geminiprotocol.net/")
    }
}

} // verus!
