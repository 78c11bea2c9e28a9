//! The document: a text buffer with a cursor, and how one edit changes it.

use vstd::prelude::*;
use vstd::string::StrSliceExecFns;
use vstd::string::StringExecFns;
use crate::operation::Edit;
use crate::operation::Operation;
use crate::operation::Type;

verus! {

/// The mathematical state of a document: its characters and its cursor.
pub struct Buffer {
    pub content: Seq<char>,
    pub pos: int,
}

/// The cursor lies within the text, its end included.
pub open spec fn in_bounds(b: Buffer) -> bool {
    0 <= b.pos <= b.content.len()
}

/// `text` spliced in at the cursor, which ends right behind it.
pub open spec fn inserted(b: Buffer, text: Seq<char>) -> Buffer {
    Buffer {
        content: b.content.subrange(0, b.pos) + text + b.content.subrange(
            b.pos,
            b.content.len() as int,
        ),
        pos: b.pos + text.len(),
    }
}

/// The cursor moved by `count` and clamped to the text.
pub open spec fn skipped(b: Buffer, count: int) -> Buffer {
    let target = b.pos + count;
    Buffer {
        content: b.content,
        pos: if target > b.content.len() {
            b.content.len() as int
        } else if target < 0 {
            0
        } else {
            target
        },
    }
}

/// Whether a delete of `count` at the cursor stays inside the text.
pub open spec fn delete_applies(b: Buffer, count: int) -> bool {
    0 <= b.pos + count <= b.content.len()
}

/// The run between the cursor and `pos + count` removed, in index order,
/// where that target lies inside the text; otherwise nothing changes. The
/// cursor stays where it is unless the shorter text ends before it, in which
/// case it is moved back to the end.
pub open spec fn deleted(b: Buffer, count: int) -> Buffer {
    if delete_applies(b, count) {
        let target = b.pos + count;
        let low = if target < b.pos { target } else { b.pos };
        let high = if target < b.pos { b.pos } else { target };
        let content = b.content.subrange(0, low) + b.content.subrange(
            high,
            b.content.len() as int,
        );
        Buffer { content, pos: if b.pos > content.len() { content.len() as int } else { b.pos } }
    } else {
        b
    }
}

/// One edit applied to a buffer.
pub open spec fn applied(b: Buffer, edit: Edit) -> Buffer {
    match edit {
        Edit::Insert(text) => inserted(b, text),
        Edit::Delete(count) => deleted(b, count),
        Edit::Skip(count) => skipped(b, count),
        Edit::Noop => b,
    }
}

/// A text buffer with a cursor. Positions and counts are in characters,
/// not bytes.
#[derive(Clone, Debug)]
pub struct Document {
    pub pos: usize,
    pub content: String,
}

impl View for Document {
    type V = Buffer;

    open spec fn view(&self) -> Buffer {
        Buffer { content: self.content@, pos: self.pos as int }
    }
}

impl Default for Document {
    fn default() -> (r: Self)
        ensures
            r.pos == 0,
            r.content@ == Seq::<char>::empty(),
            r.well_formed(),
    {
        Document { pos: 0, content: String::new() }
    }
}

impl PartialEq for Document {
    /// Two documents are equal when their texts are; the cursor is not
    /// compared.
    fn eq(&self, other: &Self) -> (r: bool) {
        self.content == other.content
    }
}

impl vstd::std_specs::cmp::PartialEqSpecImpl for Document {
    open spec fn obeys_eq_spec() -> bool {
        true
    }

    open spec fn eq_spec(&self, other: &Self) -> bool {
        self.content@ == other.content@
    }
}

impl Eq for Document {

}

impl From<&str> for Document {
    /// The document that holds `content`, cursor at the start.
    fn from(content: &str) -> (r: Self)
        ensures
            r.pos == 0,
            r.content@ == content@,
            r.well_formed(),
    {
        Document { pos: 0, content: content.to_owned() }
    }
}

impl vstd::std_specs::convert::FromSpecImpl<&str> for Document {
    /// A string is known by its characters only, so the result is stated
    /// by the clauses of `from`, not as a term.
    open spec fn obeys_from_spec() -> bool {
        false
    }

    open spec fn from_spec(content: &str) -> Self {
        arbitrary()
    }
}

impl Document {
    /// The cursor does not lie behind the end of the text.
    pub open spec fn well_formed(&self) -> bool {
        self.pos <= self.content@.len()
    }

    /// The empty document, cursor at the start.
    pub fn new() -> (r: Self)
        ensures
            r.pos == 0,
            r.content@ == Seq::<char>::empty(),
            r.well_formed(),
    {
        Document { pos: 0, content: String::new() }
    }

    /// Applies one operation in place and hands the document back for
    /// chaining. An insert splices its text in at the cursor and moves the
    /// cursor behind it; a delete removes the run between the cursor and
    /// its target, or does nothing where the target lies outside the text;
    /// a skip moves the cursor, clamped to the text; a no-op does nothing.
    /// The document must be well-formed, and stays so.
    pub fn transform(&mut self, operation: &Operation) -> (ret: &mut Self)
        requires
            old(self).well_formed(),
        ensures
            ret@ == applied(old(self)@, operation@),
            ret.well_formed(),
            *final(self) == *final(ret),
    {
        match operation.op {
            Type::Insert => {
                let len: usize = self.content.as_str().unicode_len();
                let before = self.content.as_str().substring_char(0, self.pos);
                let after = self.content.as_str().substring_char(self.pos, len);
                let mut updated = before.to_owned();
                updated.append(operation.chars.as_str());
                updated.append(after);
                let added: usize = operation.chars.as_str().unicode_len();
                let total: usize = updated.as_str().unicode_len();
                assert(total == self.pos + added + (len - self.pos));
                self.content = updated;
                self.pos = self.pos + added;
                self
            },
            Type::Delete => {
                let len: usize = self.content.as_str().unicode_len();
                let target: i128 = self.pos as i128 + operation.count as i128;
                if target >= 0 && target <= len as i128 {
                    let goal: usize = target as usize;
                    let low: usize = if goal < self.pos { goal } else { self.pos };
                    let high: usize = if goal < self.pos { self.pos } else { goal };
                    let before = self.content.as_str().substring_char(0, low);
                    let after = self.content.as_str().substring_char(high, len);
                    let mut updated = before.to_owned();
                    updated.append(after);
                    let total: usize = updated.as_str().unicode_len();
                    self.content = updated;
                    if self.pos > total {
                        self.pos = total;
                    }
                }
                self
            },
            Type::Skip => self.skip(operation.count),
            Type::Noop => self,
        }
    }

    /// Moves the cursor by `count`, clamped to the text. The text is untouched.
    pub fn skip(&mut self, count: isize) -> (ret: &mut Self)
        ensures
            ret@ == skipped(old(self)@, count as int),
            ret.well_formed(),
            *final(self) == *final(ret),
    {
        let len: usize = self.content.as_str().unicode_len();
        let target: i128 = self.pos as i128 + count as i128;
        self.pos = if target > len as i128 {
            len
        } else if target < 0 {
            0
        } else {
            target as usize
        };
        self
    }
}

} // verus!
