use vstd::prelude::*;
use tui_input::{Input, InputRequest as R};
use crate::msg::InputOperation;
use crate::msg::InputOperation as O;
use crate::text::char_count;

verus! {

/// The class of a key, as key bindings group keys.
#[derive(Debug, Clone, Copy, PartialEq, Eq, Hash, Structural)]
pub enum KeyKind {
    Alphabet,
    Number,
    SpecialCharacter,
    Navigation,
    Function,
    Other,
}

/// A key press: the name that key bindings use for it, its class, the
/// character it types (if any) and the edit of the input buffer it stands for
/// (if any).
#[derive(Debug, Clone, PartialEq, Eq, Hash)]
pub struct Key {
    pub name: String,
    pub kind: KeyKind,
    pub character: Option<char>,
    pub input_operation: Option<InputOperation>,
}

impl Key {
    /// The name of the key.
    pub fn to_text(&self) -> (r: String)
        ensures
            r@ == self.name@,
    {
        self.name.clone()
    }

    pub fn is_alphabet(&self) -> (r: bool)
        ensures
            r == (self.kind == KeyKind::Alphabet),
    {
        self.kind == KeyKind::Alphabet
    }

    pub fn is_number(&self) -> (r: bool)
        ensures
            r == (self.kind == KeyKind::Number),
    {
        self.kind == KeyKind::Number
    }

    pub fn is_special_character(&self) -> (r: bool)
        ensures
            r == (self.kind == KeyKind::SpecialCharacter),
    {
        self.kind == KeyKind::SpecialCharacter
    }

    pub fn is_navigation(&self) -> (r: bool)
        ensures
            r == (self.kind == KeyKind::Navigation),
    {
        self.kind == KeyKind::Navigation
    }

    pub fn is_function(&self) -> (r: bool)
        ensures
            r == (self.kind == KeyKind::Function),
    {
        self.kind == KeyKind::Function
    }

    /// A letter or a digit.
    pub fn is_alphanumeric(&self) -> (r: bool)
        ensures
            r == (self.kind == KeyKind::Alphabet || self.kind == KeyKind::Number),
    {
        self.kind == KeyKind::Alphabet || self.kind == KeyKind::Number
    }

    /// A key that types a character.
    pub fn is_character(&self) -> (r: bool)
        ensures
            r == self.character is Some,
    {
        self.character.is_some()
    }

    /// The character the key types.
    pub fn to_char(&self) -> (r: Option<char>)
        ensures
            r == self.character,
    {
        self.character
    }

    /// The edit of the input buffer the key stands for.
    pub fn to_input_operation(&self) -> (r: Option<InputOperation>)
        ensures
            r == self.input_operation,
    {
        self.input_operation
    }

    /// A copy of the key.
    pub fn copy(&self) -> (r: Self)
        ensures
            r.name@ == self.name@,
            r.kind == self.kind,
            r.character == self.character,
            r.input_operation == self.input_operation,
    {
        Key {
            name: self.name.clone(),
            kind: self.kind,
            character: self.character,
            input_operation: self.input_operation,
        }
    }
}

/// The text being typed and the position of the cursor in it, counted in
/// characters.
#[derive(Debug, Clone, PartialEq, Eq)]
pub struct InputBuffer {
    pub value: String,
    pub cursor: usize,
}

/// The text, cursor and change flag after an edit (`tui_input::Input::handle`).
pub uninterp spec fn input_handled(value: Seq<char>, cursor: usize, op: InputOperation) -> (Seq<char>, usize, bool);

/// The outcome of an edit whose effect a few lines state (`None` for the
/// word-wise edits): the new text, the new cursor, and whether anything changed.
/// The cursor is first put at most at the end of the text.
pub open spec fn plain_edit(value: Seq<char>, cursor0: usize, op: InputOperation) -> Option<(Seq<char>, usize, bool)> {
    let n = value.len();
    let cursor = if cursor0 <= n { cursor0 } else { n as usize };
    match op {
        InputOperation::SetCursor(pos) => {
            let p = if pos <= n { pos } else { n as usize };
            Some((value, p, p != cursor))
        },
        InputOperation::InsertCharacter(c) => Some(
            (value.take(cursor as int).push(c) + value.skip(cursor as int), (cursor + 1) as usize, true),
        ),
        InputOperation::GoToPreviousCharacter => if cursor == 0 {
            Some((value, cursor, false))
        } else {
            Some((value, (cursor - 1) as usize, true))
        },
        InputOperation::GoToNextCharacter => if cursor == n {
            Some((value, cursor, false))
        } else {
            Some((value, (cursor + 1) as usize, true))
        },
        InputOperation::GoToStart => Some((value, 0usize, cursor != 0)),
        InputOperation::GoToEnd => Some((value, n as usize, cursor != n)),
        InputOperation::DeletePreviousCharacter => if cursor == 0 {
            Some((value, cursor, false))
        } else {
            Some((value.remove(cursor - 1), (cursor - 1) as usize, true))
        },
        InputOperation::DeleteNextCharacter => if cursor == n {
            Some((value, cursor, false))
        } else {
            Some((value.remove(cursor as int), cursor, true))
        },
        InputOperation::DeleteLine => if n == 0 {
            Some((value, cursor, false))
        } else {
            Some((Seq::<char>::empty(), 0usize, true))
        },
        InputOperation::DeleteTillEnd => Some((value.take(cursor as int), cursor, true)),
        _ => None,
    }
}

/// Applies `op` to the text and cursor with `tui_input::Input::handle` (the
/// cursor is first limited to the text's length by `Input::with_cursor`).
/// The outcome is named [`input_handled`]; for the edits that are not word-wise
/// it is also stated by [`plain_edit`].
#[verifier::external_body]
fn handle_input(value: String, cursor: usize, op: InputOperation) -> (r: (String, usize, bool))
    ensures
        (r.0@, r.1, r.2) == input_handled(value@, cursor, op),
        r.0@.len() <= usize::MAX,
        plain_edit(value@, cursor, op) matches Some(e) ==> (r.0@, r.1, r.2) == e,
{
    let req = match op {
        O::SetCursor(i) => R::SetCursor(i), O::InsertCharacter(c) => R::InsertChar(c),
        O::GoToPreviousCharacter => R::GoToPrevChar, O::GoToNextCharacter => R::GoToNextChar,
        O::GoToPreviousWord => R::GoToPrevWord, O::GoToNextWord => R::GoToNextWord,
        O::GoToStart => R::GoToStart, O::GoToEnd => R::GoToEnd,
        O::DeletePreviousCharacter => R::DeletePrevChar, O::DeleteNextCharacter => R::DeleteNextChar,
        O::DeletePreviousWord => R::DeletePrevWord, O::DeleteNextWord => R::DeleteNextWord,
        O::DeleteLine => R::DeleteLine, O::DeleteTillEnd => R::DeleteTillEnd,
    };
    let mut input = Input::new(value).with_cursor(cursor);
    let changed = input.handle(req).is_some();
    (input.value().to_string(), input.cursor(), changed)
}

impl InputBuffer {
    /// An empty buffer.
    pub fn new() -> (r: Self)
        ensures
            r.value@ == Seq::<char>::empty(),
            r.cursor == 0,
    {
        InputBuffer { value: String::new(), cursor: 0 }
    }

    /// A buffer holding `value`, with the cursor at its end.
    pub fn with_value(value: String) -> (r: Self)
        ensures
            r.value == value,
            r.cursor == value@.len(),
    {
        let n = char_count(value.as_str());
        InputBuffer { value, cursor: n }
    }

    /// The text.
    pub fn value(&self) -> (r: &str)
        ensures
            r@ == self.value@,
    {
        self.value.as_str()
    }

    /// Applies an edit; answers whether anything changed.
    pub fn handle(&mut self, op: InputOperation) -> (changed: bool)
        ensures
            (final(self).value@, final(self).cursor, changed) == input_handled(old(self).value@, old(self).cursor, op),
            final(self).value@.len() <= usize::MAX,
            plain_edit(old(self).value@, old(self).cursor, op) matches Some(e)
                ==> (final(self).value@, final(self).cursor, changed) == e,
    {
        let mut value = String::new();
        std::mem::swap(&mut value, &mut self.value);
        let (v, c, changed) = handle_input(value, self.cursor, op);
        self.value = v;
        self.cursor = c;
        changed
    }
}

} // verus!
