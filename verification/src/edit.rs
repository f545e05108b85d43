//! The text-change primitive: delete a clamped span, then splice new text in.
//!
//! A change `{position, delete, insert}` is applied to a content buffer in two
//! steps.  If `delete > 0` and `position` is in bounds, the span starting at
//! `position` is removed, clamped to the end of the buffer.  If `insert` is
//! non-empty and `position` is still in bounds of the shortened buffer, it is
//! spliced in at `position`.  A `position` beyond the end of the buffer drops
//! the whole change: that is deliberate no-op behavior, not an error.

use vstd::prelude::*;
use crate::types::clone_bytes;

verus! {

/// Step one: the content after the delete span is removed (clamped), or the
/// content unchanged when there is nothing to delete or `position` is out of
/// bounds.
pub open spec fn delete_span(content: Seq<u8>, position: int, delete: int) -> Seq<u8> {
    if delete > 0 && 0 <= position <= content.len() {
        let end = if position + delete <= content.len() {
            position + delete
        } else {
            content.len() as int
        };
        content.subrange(0, position) + content.subrange(end, content.len() as int)
    } else {
        content
    }
}

/// The content after a whole text change: the delete step, then the splice of
/// `insert` when it is non-empty and `position` is in bounds of what the
/// delete step left.
pub open spec fn apply_edit(content: Seq<u8>, position: int, delete: int, insert: Seq<u8>) -> Seq<
    u8,
> {
    let deleted = delete_span(content, position, delete);
    if insert.len() > 0 && 0 <= position <= deleted.len() {
        deleted.subrange(0, position) + insert + deleted.subrange(position, deleted.len() as int)
    } else {
        deleted
    }
}

/// A change whose position lies beyond the end of the content leaves the
/// content exactly as it was, whatever it would have deleted or inserted.
pub proof fn lemma_edit_beyond_end_noop(content: Seq<u8>, position: int, delete: int, insert: Seq<u8>)
    requires
        position > content.len(),
    ensures
        apply_edit(content, position, delete, insert) == content,
{
    assert(delete_span(content, position, delete) == content);
}

/// Applies a text change to a content buffer, returning the new buffer.
pub fn apply_edit_bytes(content: &Vec<u8>, position: usize, delete: usize, insert: &Vec<u8>) -> (r:
    Vec<u8>)
    ensures
        r@ == apply_edit(content@, position as int, delete as int, insert@),
{
    let n = content.len();
    if position > n {
        proof {
            lemma_edit_beyond_end_noop(content@, position as int, delete as int, insert@);
        }
        return clone_bytes(content);
    }
    let end: usize = if delete == 0 {
        position
    } else if delete >= n - position {
        n
    } else {
        position + delete
    };
    let mut r: Vec<u8> = Vec::new();
    let mut i: usize = 0;
    while i < position
        invariant
            i <= position <= n,
            n == content@.len(),
            r@ =~= content@.subrange(0, i as int),
        decreases position - i,
    {
        r.push(content[i]);
        i = i + 1;
    }
    let mut j: usize = 0;
    while j < insert.len()
        invariant
            j <= insert@.len(),
            position <= n == content@.len(),
            r@ =~= content@.subrange(0, position as int) + insert@.subrange(0, j as int),
        decreases insert.len() - j,
    {
        r.push(insert[j]);
        j = j + 1;
    }
    let mut k: usize = end;
    while k < n
        invariant
            position <= end <= k <= n == content@.len(),
            r@ =~= content@.subrange(0, position as int) + insert@ + content@.subrange(
                end as int,
                k as int,
            ),
        decreases n - k,
    {
        r.push(content[k]);
        k = k + 1;
    }
    proof {
        let c = content@;
        let pos = position as int;
        let deleted = delete_span(c, pos, delete as int);
        assert(deleted =~= c.subrange(0, pos) + c.subrange(end as int, c.len() as int));
        assert(deleted.subrange(0, pos) =~= c.subrange(0, pos));
        assert(deleted.subrange(pos, deleted.len() as int) =~= c.subrange(
            end as int,
            c.len() as int,
        ));
        if insert@.len() > 0 {
            assert(r@ =~= apply_edit(c, pos, delete as int, insert@));
        } else {
            assert(r@ =~= deleted);
        }
    }
    r
}

} // verus!
