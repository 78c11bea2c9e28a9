//! Edit operations: the tag, the record, and what a record means.

use vstd::prelude::*;

verus! {

/// The kind of an edit.
#[derive(Clone, Copy, Debug, PartialEq, Eq, Structural)]
pub enum Type {
    Insert,
    Delete,
    Skip,
    Noop,
}

impl Default for Type {
    fn default() -> (r: Self)
        ensures
            r == Type::Noop,
    {
        Type::Noop
    }
}

/// One edit instruction. Only the fields that its kind reads carry meaning:
/// `chars` for an insert, `count` for a delete or a skip.
#[derive(Clone, Debug)]
pub struct Operation {
    pub op: Type,
    pub count: isize,
    pub chars: String,
}

/// What an operation means, with the unused fields dropped.
pub enum Edit {
    Insert(Seq<char>),
    Delete(int),
    Skip(int),
    Noop,
}

impl View for Operation {
    type V = Edit;

    open spec fn view(&self) -> Edit {
        match self.op {
            Type::Insert => Edit::Insert(self.chars@),
            Type::Delete => Edit::Delete(self.count as int),
            Type::Skip => Edit::Skip(self.count as int),
            Type::Noop => Edit::Noop,
        }
    }
}

impl PartialEq for Operation {
    /// Two operations are equal when kind, count and text are.
    fn eq(&self, other: &Self) -> (r: bool) {
        self.op == other.op && self.count == other.count && self.chars == other.chars
    }
}

impl vstd::std_specs::cmp::PartialEqSpecImpl for Operation {
    open spec fn obeys_eq_spec() -> bool {
        true
    }

    open spec fn eq_spec(&self, other: &Self) -> bool {
        &&& self.op == other.op
        &&& self.count == other.count
        &&& self.chars@ == other.chars@
    }
}

impl Eq for Operation {

}

impl Default for Operation {
    fn default() -> (r: Self)
        ensures
            r.op == Type::Noop,
            r.count == 0,
            r.chars@ == Seq::<char>::empty(),
    {
        Operation { op: Type::Noop, count: 0, chars: String::new() }
    }
}

impl Operation {
    /// An insert of `chars` at the cursor. The text may be empty.
    pub fn insert(chars: &str) -> (r: Self)
        ensures
            r.op == Type::Insert,
            r.count == 0,
            r.chars@ == chars@,
            r@ == Edit::Insert(chars@),
    {
        Operation { op: Type::Insert, count: 0, chars: chars.to_owned() }
    }

    /// A cursor move by `count`, which may be negative or zero.
    pub fn skip(count: isize) -> (r: Self)
        ensures
            r.op == Type::Skip,
            r.count == count,
            r.chars@ == Seq::<char>::empty(),
            r@ == Edit::Skip(count as int),
    {
        Operation { op: Type::Skip, count, chars: String::new() }
    }

    /// A removal of `count` characters from the cursor, backwards if negative.
    pub fn delete(count: isize) -> (r: Self)
        ensures
            r.op == Type::Delete,
            r.count == count,
            r.chars@ == Seq::<char>::empty(),
            r@ == Edit::Delete(count as int),
    {
        Operation { op: Type::Delete, count, chars: String::new() }
    }

    /// The operation that does nothing.
    pub fn noop() -> (r: Self)
        ensures
            r.op == Type::Noop,
            r.count == 0,
            r.chars@ == Seq::<char>::empty(),
            r@ == Edit::Noop,
    {
        Operation { op: Type::Noop, count: 0, chars: String::new() }
    }
}

} // verus!
