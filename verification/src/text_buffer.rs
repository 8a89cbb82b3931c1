//! A single line of editable text with a cursor that counts characters.
//!
//! The buffer stores Unicode scalar values, so the cursor is an index into
//! characters and never a byte offset: a multi-byte character moves it by one,
//! like any other.

use vstd::prelude::*;
use vstd::utf8::{
    char_is_scalar, encode_scalar, encode_utf8, encode_utf8_first_scalar, encode_utf8_valid_utf8,
    is_char_boundary, length_of_first_scalar, pop_first_scalar,
};

verus! {

/// The mathematical value of a text buffer: its characters in order and the
/// position of the cursor, counted in characters from the start.
pub struct Line {
    pub text: Seq<char>,
    pub cursor: nat,
}

/// One editing step on a line.
pub enum Edit {
    Insert(char),
    DeleteBefore,
    Left,
    Right,
    Clear,
}

impl Line {
    /// The cursor lies on or between the characters of the text.
    pub open spec fn wf(self) -> bool {
        self.cursor <= self.text.len()
    }

    /// The empty line with the cursor at the start.
    pub open spec fn empty() -> Line {
        Line { text: Seq::empty(), cursor: 0 }
    }

    /// `ch` placed at the cursor, and the cursor moved past it.
    pub open spec fn insert(self, ch: char) -> Line {
        Line { text: self.text.insert(self.cursor as int, ch), cursor: self.cursor + 1 }
    }

    /// The character before the cursor removed and the cursor moved back by
    /// one; nothing changes when the cursor is at the start.
    pub open spec fn delete_before(self) -> Line {
        if self.cursor == 0 {
            self
        } else {
            Line { text: self.text.remove(self.cursor - 1), cursor: (self.cursor - 1) as nat }
        }
    }

    /// The cursor one character to the left, unless it is at the start.
    pub open spec fn left(self) -> Line {
        if self.cursor == 0 {
            self
        } else {
            Line { text: self.text, cursor: (self.cursor - 1) as nat }
        }
    }

    /// The cursor one character to the right, unless it is at the end.
    pub open spec fn right(self) -> Line {
        if self.cursor >= self.text.len() {
            Line { text: self.text, cursor: self.text.len() }
        } else {
            Line { text: self.text, cursor: self.cursor + 1 }
        }
    }

    /// The number of bytes that the text before the cursor takes in UTF-8:
    /// the place of the cursor in the encoded text.
    pub open spec fn byte_index(self) -> nat {
        encode_utf8(self.text.take(self.cursor as int)).len()
    }

    /// The line after one editing step.
    pub open spec fn apply(self, edit: Edit) -> Line {
        match edit {
            Edit::Insert(ch) => self.insert(ch),
            Edit::DeleteBefore => self.delete_before(),
            Edit::Left => self.left(),
            Edit::Right => self.right(),
            Edit::Clear => Line::empty(),
        }
    }

    /// The line after the editing steps `edits`, taken in order.
    pub open spec fn apply_all(self, edits: Seq<Edit>) -> Line
        decreases edits.len(),
    {
        if edits.len() == 0 {
            self
        } else {
            self.apply_all(edits.drop_last()).apply(edits.last())
        }
    }
}

/// An editable line of text. The cursor is a character index and always lies
/// within `0..=len`.
#[derive(Debug)]
pub struct TextBuffer {
    content: Vec<char>,
    cursor: usize,
}

impl View for TextBuffer {
    type V = Line;

    closed spec fn view(&self) -> Line {
        Line { text: self.content@, cursor: self.cursor as nat }
    }
}

impl TextBuffer {
    /// Holds of every buffer at every moment: the cursor lies on or between
    /// the characters of the text.
    #[verifier::type_invariant]
    pub open spec fn cursor_within_text(self) -> bool {
        self@.wf()
    }

    /// An empty buffer with the cursor at the start.
    pub fn new() -> (buffer: TextBuffer)
        ensures
            buffer@ == Line::empty(),
    {
        TextBuffer { content: Vec::new(), cursor: 0 }
    }

    /// Moves the buffer's parts out, leaving it empty until they are put back:
    /// the cursor bound holds of the whole value at every moment, so the parts
    /// are changed outside it.
    fn take_parts(&mut self) -> (parts: (Vec<char>, usize))
        ensures
            parts.0@ == old(self)@.text,
            parts.1 == old(self)@.cursor,
            parts.1 <= parts.0@.len(),
            final(self)@ == Line::empty(),
    {
        let mut taken = TextBuffer::new();
        core::mem::swap(self, &mut taken);
        proof {
            use_type_invariant(&taken);
        }
        let TextBuffer { content, cursor } = taken;
        (content, cursor)
    }

    /// Inserts `ch` at the cursor and advances the cursor past it.
    pub fn insert_at_cursor(&mut self, ch: char)
        ensures
            final(self)@ == old(self)@.insert(ch),
            final(self)@.wf(),
    {
        let (mut content, cursor) = self.take_parts();
        content.insert(cursor, ch);
        assert(cursor < content.len());
        *self = TextBuffer { content, cursor: cursor + 1 };
    }

    /// Removes the character before the cursor and moves the cursor back by
    /// one. With the cursor at the start, and so on an empty buffer, nothing
    /// changes.
    pub fn delete_before_cursor(&mut self)
        ensures
            final(self)@ == old(self)@.delete_before(),
            old(self)@.cursor == 0 ==> final(self)@ == old(self)@,
            final(self)@.wf(),
    {
        let (mut content, cursor) = self.take_parts();
        if cursor == 0 {
            *self = TextBuffer { content, cursor };
        } else {
            content.remove(cursor - 1);
            *self = TextBuffer { content, cursor: cursor - 1 };
        }
    }

    /// Moves the cursor one character to the left; it stays at the start.
    pub fn move_left(&mut self)
        ensures
            final(self)@ == old(self)@.left(),
            final(self)@.wf(),
    {
        let (content, cursor) = self.take_parts();
        let moved: usize = if cursor == 0 { 0 } else { cursor - 1 };
        *self = TextBuffer { content, cursor: moved };
    }

    /// Moves the cursor one character to the right; it stays at the end.
    pub fn move_right(&mut self)
        ensures
            final(self)@ == old(self)@.right(),
            final(self)@.wf(),
    {
        let (content, cursor) = self.take_parts();
        let moved: usize = if cursor < content.len() { cursor + 1 } else { content.len() };
        *self = TextBuffer { content, cursor: moved };
    }

    /// Empties the buffer and puts the cursor at the start, whatever it held.
    pub fn clear(&mut self)
        ensures
            final(self)@ == Line::empty(),
            final(self)@.text.len() == 0,
            final(self)@.cursor == 0,
    {
        *self = TextBuffer::new();
    }

    /// The cursor's position, in characters from the start.
    pub fn cursor(&self) -> (position: usize)
        ensures
            position == self@.cursor,
            position <= self@.text.len(),
    {
        proof {
            use_type_invariant(self);
        }
        self.cursor
    }

    /// The number of characters in the buffer.
    pub fn len(&self) -> (count: usize)
        ensures
            count == self@.text.len(),
    {
        self.content.len()
    }

    /// The place of the cursor in the bytes of the text that [`contents`]
    /// gives: the number of bytes that the characters before the cursor take
    /// in UTF-8. A place beyond `usize::MAX` is given as `usize::MAX`.
    ///
    /// [`contents`]: TextBuffer::contents
    pub fn byte_index(&self) -> (offset: usize)
        ensures
            self@.byte_index() <= usize::MAX ==> offset == self@.byte_index(),
            self@.byte_index() > usize::MAX ==> offset == usize::MAX,
    {
        proof {
            use_type_invariant(self);
        }
        let mut offset: usize = 0;
        let mut at: usize = 0;
        assert(self.content@.take(0) == Seq::<char>::empty());
        while at < self.cursor
            invariant
                at <= self.cursor <= self.content.len(),
                encode_utf8(self.content@.take(at as int)).len() <= usize::MAX ==> offset
                    == encode_utf8(self.content@.take(at as int)).len(),
                encode_utf8(self.content@.take(at as int)).len() > usize::MAX ==> offset
                    == usize::MAX,
            decreases self.cursor - at,
        {
            let width = utf8_width(self.content[at]);
            proof {
                let seen = self.content@.take(at as int);
                assert(self.content@.take(at + 1) == seen + seq![self.content@[at as int]]);
                lemma_encode_utf8_concat(seen, seq![self.content@[at as int]]);
                lemma_encode_utf8_one(self.content@[at as int]);
            }
            offset = if offset > usize::MAX - width {
                usize::MAX
            } else {
                offset + width
            };
            at = at + 1;
        }
        offset
    }

    /// A copy of the text as it stands.
    pub fn contents(&self) -> (text: String)
        ensures
            text@ == self@.text,
    {
        let mut text = String::new();
        let mut i: usize = 0;
        while i < self.content.len()
            invariant
                i <= self.content.len(),
                text@ == self.content@.take(i as int),
            decreases self.content.len() - i,
        {
            text.push(self.content[i]);
            i = i + 1;
        }
        text
    }
}

/// `String::push` of the standard library: the string afterwards is the string
/// before with `ch` added at its end. As in the specifications that vstd gives
/// to `Vec`, running out of memory is left out of account.
pub assume_specification[ String::push ](text: &mut String, ch: char)
    ensures
        final(text)@ == old(text)@.push(ch),
;

/// The number of bytes that `c` takes in UTF-8.
pub fn utf8_width(c: char) -> (width: usize)
    ensures
        width == encode_scalar(c as u32).len(),
        1 <= width <= 4,
{
    proof {
        char_is_scalar(c);
    }
    let code: u32 = c as u32;
    if code < 0x80 {
        1
    } else if code < 0x800 {
        2
    } else if code < 0x10000 {
        3
    } else {
        4
    }
}

/// The encoding of one character is the encoding of its scalar value.
pub proof fn lemma_encode_utf8_one(c: char)
    ensures
        encode_utf8(seq![c]) == encode_scalar(c as u32),
{
    assert(seq![c].drop_first() == Seq::<char>::empty());
    assert(encode_utf8(seq![c]) == encode_scalar(c as u32) + encode_utf8(Seq::<char>::empty()));
}

/// The encoding of two texts put together is their encodings put together.
pub proof fn lemma_encode_utf8_concat(first: Seq<char>, second: Seq<char>)
    ensures
        encode_utf8(first + second) == encode_utf8(first) + encode_utf8(second),
    decreases first.len(),
{
    if first.len() == 0 {
        assert(first + second == second);
    } else {
        lemma_encode_utf8_concat(first.drop_first(), second);
        assert((first + second).drop_first() == first.drop_first() + second);
    }
}

/// The cursor's place in the encoded text is a place in it: it lies within
/// the encoded text, at or after the cursor's count of characters, and the
/// encoded text up to it is the encoding of the characters before the cursor.
pub proof fn lemma_byte_index_splits_encoding(line: Line)
    requires
        line.wf(),
    ensures
        line.cursor <= line.byte_index() <= encode_utf8(line.text).len(),
        encode_utf8(line.text).take(line.byte_index() as int) == encode_utf8(
            line.text.take(line.cursor as int),
        ),
        encode_utf8(line.text).skip(line.byte_index() as int) == encode_utf8(
            line.text.skip(line.cursor as int),
        ),
{
    let before = line.text.take(line.cursor as int);
    let after = line.text.skip(line.cursor as int);
    assert(line.text == before + after);
    lemma_encode_utf8_concat(before, after);
    lemma_encoding_is_no_shorter(before);
}

/// The end of the encoding of any leading part of a text is a character
/// boundary in the encoding of the whole text: it never falls inside the
/// bytes of one character.
pub proof fn lemma_prefix_ends_on_char_boundary(text: Seq<char>, count: int)
    requires
        0 <= count <= text.len(),
    ensures
        is_char_boundary(encode_utf8(text), encode_utf8(text.take(count)).len() as int),
    decreases count,
{
    let bytes = encode_utf8(text);
    encode_utf8_valid_utf8(text);
    if count == 0 {
        assert(text.take(0) == Seq::<char>::empty());
    } else {
        let rest = text.drop_first();
        let head = encode_scalar(text[0] as u32);
        char_is_scalar(text[0]);
        encode_utf8_first_scalar(text);
        assert(pop_first_scalar(bytes) == encode_utf8(rest));
        assert(text.take(count) == seq![text[0]] + rest.take(count - 1));
        lemma_encode_utf8_concat(seq![text[0]], rest.take(count - 1));
        lemma_encode_utf8_one(text[0]);
        assert(text == seq![text[0]] + rest);
        lemma_encode_utf8_concat(seq![text[0]], rest);
        lemma_prefix_ends_on_char_boundary(rest, count - 1);
        lemma_encode_utf8_concat(rest.take(count - 1), rest.skip(count - 1));
        assert(rest == rest.take(count - 1) + rest.skip(count - 1));
        let index = encode_utf8(text.take(count)).len() as int;
        assert(index == head.len() + encode_utf8(rest.take(count - 1)).len());
        assert(length_of_first_scalar(bytes) == head.len());
        assert(0 < index <= bytes.len());
    }
}

/// The cursor's place in the encoded text is a character boundary.
pub proof fn lemma_byte_index_is_char_boundary(line: Line)
    requires
        line.wf(),
    ensures
        is_char_boundary(encode_utf8(line.text), line.byte_index() as int),
{
    lemma_prefix_ends_on_char_boundary(line.text, line.cursor as int);
}

/// A text takes at least as many bytes in UTF-8 as it has characters.
pub proof fn lemma_encoding_is_no_shorter(text: Seq<char>)
    ensures
        text.len() <= encode_utf8(text).len(),
    decreases text.len(),
{
    if text.len() > 0 {
        char_is_scalar(text[0]);
        lemma_encoding_is_no_shorter(text.drop_first());
    }
}

/// Every editing step keeps the cursor within the text.
pub proof fn lemma_edit_keeps_cursor_in_text(line: Line, edit: Edit)
    requires
        line.wf(),
    ensures
        line.apply(edit).wf(),
{
}

/// Whatever sequence of insertions, deletions, cursor moves and clears is
/// applied to a line whose cursor lies within its text, the cursor lies within
/// the text after every step of it.
pub proof fn lemma_edits_keep_cursor_in_text(start: Line, edits: Seq<Edit>, steps: int)
    requires
        start.wf(),
        0 <= steps <= edits.len(),
    ensures
        start.apply_all(edits.take(steps)).wf(),
    decreases steps,
{
    let done = edits.take(steps);
    if steps > 0 {
        lemma_edits_keep_cursor_in_text(start, edits, steps - 1);
        assert(done.drop_last() == edits.take(steps - 1));
        lemma_edit_keeps_cursor_in_text(start.apply_all(done.drop_last()), done.last());
    }
}

/// Deleting before a cursor that stands at the start changes neither the text
/// nor the cursor; an empty line is one such case.
pub proof fn lemma_delete_at_start_changes_nothing(line: Line)
    requires
        line.wf(),
        line.cursor == 0 || line.text.len() == 0,
    ensures
        line.delete_before() == line,
{
}

/// After a character, of whatever encoded width, has been inserted, moving the
/// cursor right and then left leaves the text as it was. It also brings the
/// cursor back to where it stood after the insertion, provided the insertion
/// was made before the end of the text; after an insertion at the end the move
/// to the right has nowhere to go, and the move to the left puts the cursor
/// before the new character.
pub proof fn lemma_right_then_left_after_insert(line: Line, ch: char)
    requires
        line.wf(),
    ensures
        line.insert(ch).right().left().text == line.insert(ch).text,
        line.cursor < line.text.len() ==> line.insert(ch).right().left() == line.insert(ch),
        line.cursor == line.text.len() ==> line.insert(ch).right().left().cursor == line.cursor,
{
}

} // verus!
