//! What holds of every buffer and every edit.

use vstd::prelude::*;
use crate::document::applied;
use crate::document::delete_applies;
use crate::document::deleted;
use crate::document::in_bounds;
use crate::document::inserted;
use crate::document::skipped;
use crate::document::Buffer;
use crate::operation::Edit;

verus! {

/// A no-op leaves text and cursor as they were.
pub proof fn noop_changes_nothing(b: Buffer)
    ensures
        applied(b, Edit::Noop) == b,
{
}

/// An insert lengthens the text by the inserted text, moves the cursor
/// behind it, and leaves what stood before and after the cursor in place
/// around it.
pub proof fn insert_splices_at_cursor(b: Buffer, text: Seq<char>)
    requires
        in_bounds(b),
    ensures
        inserted(b, text).content.len() == b.content.len() + text.len(),
        inserted(b, text).pos == b.pos + text.len(),
        inserted(b, text).content.subrange(0, b.pos) == b.content.subrange(0, b.pos),
        inserted(b, text).content.subrange(b.pos, b.pos + text.len()) == text,
        inserted(b, text).content.subrange(
            b.pos + text.len(),
            inserted(b, text).content.len() as int,
        ) == b.content.subrange(b.pos, b.content.len() as int),
{
    let after = inserted(b, text).content;
    assert(after.subrange(0, b.pos) =~= b.content.subrange(0, b.pos));
    assert(after.subrange(b.pos, b.pos + text.len()) =~= text);
    assert(after.subrange(b.pos + text.len(), after.len() as int) =~= b.content.subrange(
        b.pos,
        b.content.len() as int,
    ));
}

/// However large or negative the count, and wherever the cursor stood, a
/// skip leaves the cursor inside the text and the text untouched.
pub proof fn skip_clamps(b: Buffer, count: int)
    ensures
        0 <= skipped(b, count).pos <= b.content.len(),
        skipped(b, count).content == b.content,
{
}

/// A skip that stays inside the text moves the cursor by exactly the count.
pub proof fn skip_inside_is_exact(b: Buffer, count: int)
    requires
        0 <= b.pos + count <= b.content.len(),
    ensures
        skipped(b, count).pos == b.pos + count,
{
}

/// A skip by zero and a delete of zero characters never change the text.
pub proof fn zero_count_keeps_content(b: Buffer)
    ensures
        skipped(b, 0).content == b.content,
        deleted(b, 0) == b,
{
    if in_bounds(b) {
        assert(b.content.subrange(0, b.pos) + b.content.subrange(b.pos, b.content.len() as int)
            =~= b.content);
    }
}

/// Once a skip has clamped the cursor, a further skip by zero changes nothing.
pub proof fn skip_then_zero_skip(b: Buffer, count: int)
    ensures
        skipped(skipped(b, count), 0) == skipped(b, count),
{
}

/// A delete whose target lies outside the text changes nothing.
pub proof fn delete_outside_changes_nothing(b: Buffer, count: int)
    requires
        !delete_applies(b, count),
    ensures
        deleted(b, count) == b,
{
}

/// A forward delete inside the text removes exactly `count` characters
/// behind the cursor and leaves the cursor where it was.
pub proof fn forward_delete_keeps_cursor(b: Buffer, count: int)
    requires
        in_bounds(b),
        count >= 0,
        delete_applies(b, count),
    ensures
        deleted(b, count).pos == b.pos,
        deleted(b, count).content.len() == b.content.len() - count,
        deleted(b, count).content == b.content.subrange(0, b.pos) + b.content.subrange(
            b.pos + count,
            b.content.len() as int,
        ),
{
}

/// A backward delete inside the text removes the `-count` characters in
/// front of the cursor.
pub proof fn backward_delete_removes_before_cursor(b: Buffer, count: int)
    requires
        in_bounds(b),
        count < 0,
        delete_applies(b, count),
    ensures
        deleted(b, count).content == b.content.subrange(0, b.pos + count) + b.content.subrange(
            b.pos,
            b.content.len() as int,
        ),
        deleted(b, count).content.len() == b.content.len() + count,
{
}

/// No edit moves the cursor out of the text.
pub proof fn edits_keep_cursor_in_bounds(b: Buffer, edit: Edit)
    requires
        in_bounds(b),
    ensures
        in_bounds(applied(b, edit)),
{
}

} // verus!
