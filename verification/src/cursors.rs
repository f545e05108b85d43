//! The cursor tracker: the last known cursor of each participant, keyed by
//! (document, participant).  Setting overwrites, removing is idempotent, and
//! a snapshot of one document hydrates a newly joined participant's view.

use vstd::prelude::*;
use crate::types::{AppState, CursorEntry, CursorPosition, CursorPositionV, clone_cursor, unique_cursor_keys};

verus! {

/// Whether an entry is keyed by (doc, user).
pub open spec fn cursor_key_is(e: CursorEntry, doc: Seq<char>, user: Seq<char>) -> bool {
    e.document_id@ == doc && e.cursor.user@ == user
}

/// Whether the tracker holds an entry for (doc, user).
pub open spec fn has_cursor(s: Seq<CursorEntry>, doc: Seq<char>, user: Seq<char>) -> bool {
    exists|i: int| 0 <= i < s.len() && cursor_key_is(s[i], doc, user)
}

/// The index of the entry keyed (doc, user) (meaningful only when
/// `has_cursor` holds; unique whenever the tracker is well formed).
pub open spec fn cursor_index(s: Seq<CursorEntry>, doc: Seq<char>, user: Seq<char>) -> int {
    choose|i: int| 0 <= i < s.len() && cursor_key_is(s[i], doc, user)
}

/// With unique keys, any index keyed (doc, user) is the `cursor_index`.
pub proof fn lemma_cursor_index_unique(s: Seq<CursorEntry>, doc: Seq<char>, user: Seq<char>, i: int)
    requires
        unique_cursor_keys(s),
        0 <= i < s.len(),
        cursor_key_is(s[i], doc, user),
    ensures
        cursor_index(s, doc, user) == i,
{
    assert(has_cursor(s, doc, user));
    let j = cursor_index(s, doc, user);
    assert(0 <= j < s.len() && cursor_key_is(s[j], doc, user));
    if i < j {
        assert(!(cursor_key_is(s[i], doc, user) && cursor_key_is(s[j], doc, user)));
    } else if j < i {
        assert(!(cursor_key_is(s[j], doc, user) && cursor_key_is(s[i], doc, user)));
    }
}

/// Whether an entry holds exactly this key, position and color.
pub open spec fn cursor_entry_is(
    e: CursorEntry,
    doc: Seq<char>,
    user: Seq<char>,
    position: usize,
    color: Seq<char>,
) -> bool {
    cursor_key_is(e, doc, user) && e.cursor.position == position && e.cursor.color@ == color
}

/// How the tracker changes on an insert-or-overwrite of (doc, user): the
/// keyed entry now holds the new position and color, every other entry is
/// untouched, and a missing key is appended.
pub open spec fn cursor_set(
    pre: Seq<CursorEntry>,
    post: Seq<CursorEntry>,
    doc: Seq<char>,
    user: Seq<char>,
    position: usize,
    color: Seq<char>,
) -> bool {
    if has_cursor(pre, doc, user) {
        &&& post.len() == pre.len()
        &&& forall|j: int|
            0 <= j < pre.len() && !cursor_key_is(pre[j], doc, user) ==> post[j] == pre[j]
        &&& forall|j: int|
            0 <= j < pre.len() && cursor_key_is(pre[j], doc, user) ==> cursor_entry_is(
                post[j],
                doc,
                user,
                position,
                color,
            )
    } else {
        &&& post.len() == pre.len() + 1
        &&& forall|j: int| 0 <= j < pre.len() ==> post[j] == pre[j]
        &&& cursor_entry_is(post.last(), doc, user, position, color)
    }
}

/// How the tracker changes when (doc, user) is removed: the keyed entry is
/// gone, and nothing else changed.  Removing a missing key is a no-op.
pub open spec fn cursor_removed(
    pre: Seq<CursorEntry>,
    post: Seq<CursorEntry>,
    doc: Seq<char>,
    user: Seq<char>,
) -> bool {
    if has_cursor(pre, doc, user) {
        post == pre.remove(cursor_index(pre, doc, user))
    } else {
        post == pre
    }
}

/// The snapshot of one document's cursors, in tracker order: the view of
/// every cursor whose entry is keyed by `doc`.
pub open spec fn snapshot_of(s: Seq<CursorEntry>, doc: Seq<char>) -> Seq<CursorPositionV>
    decreases s.len(),
{
    if s.len() == 0 {
        Seq::empty()
    } else {
        let prefix = snapshot_of(s.drop_last(), doc);
        if s.last().document_id@ == doc {
            prefix.push(s.last().cursor@)
        } else {
            prefix
        }
    }
}

/// Finds the tracker entry keyed (doc, user), if any.
fn find_cursor(v: &Vec<CursorEntry>, document_id: &String, user: &String) -> (r: Option<usize>)
    ensures
        match r {
            Some(i) => 0 <= i < v@.len() && cursor_key_is(v@[i as int], document_id@, user@),
            None => !has_cursor(v@, document_id@, user@),
        },
{
    let mut i: usize = 0;
    while i < v.len()
        invariant
            i <= v.len(),
            forall|j: int| 0 <= j < i ==> !cursor_key_is(v@[j], document_id@, user@),
        decreases v.len() - i,
    {
        if v[i].document_id == *document_id && v[i].cursor.user == *user {
            return Some(i);
        }
        i = i + 1;
    }
    None
}

impl AppState {
    /// Inserts or overwrites the cursor of `user` in `document_id`.
    pub fn set_cursor(&mut self, document_id: String, user: String, position: usize, color: String)
        requires
            old(self).wf(),
        ensures
            final(self).wf(),
            final(self).documents == old(self).documents,
            final(self).active_connections == old(self).active_connections,
            final(self).pending_invites == old(self).pending_invites,
            cursor_set(
                old(self).cursors@,
                final(self).cursors@,
                document_id@,
                user@,
                position,
                color@,
            ),
    {
        let entry = CursorEntry {
            document_id,
            cursor: CursorPosition { user, position, color },
        };
        match find_cursor(&self.cursors, &entry.document_id, &entry.cursor.user) {
            Some(i) => {
                self.cursors.set(i, entry);
                proof {
                    assert(forall|j: int|
                        0 <= j < old(self).cursors@.len() && j != i as int
                            ==> final(self).cursors@[j] == old(self).cursors@[j]);
                }
            },
            None => {
                self.cursors.push(entry);
            },
        }
    }

    /// Removes the cursor of `user` in `document_id`; a no-op if absent.
    pub fn remove_cursor(&mut self, document_id: &String, user: &String)
        requires
            old(self).wf(),
        ensures
            final(self).wf(),
            final(self).documents == old(self).documents,
            final(self).active_connections == old(self).active_connections,
            final(self).pending_invites == old(self).pending_invites,
            cursor_removed(old(self).cursors@, final(self).cursors@, document_id@, user@),
    {
        match find_cursor(&self.cursors, document_id, user) {
            Some(i) => {
                proof {
                    lemma_cursor_index_unique(self.cursors@, document_id@, user@, i as int);
                }
                self.cursors.remove(i);
            },
            None => {
            },
        }
    }

    /// The current cursors of `document_id`, one per participant that has
    /// moved its cursor there, used to hydrate a newly joined view.
    pub fn cursor_snapshot(&self, document_id: &String) -> (r: Vec<CursorPosition>)
        ensures
            r.deep_view() == snapshot_of(self.cursors@, document_id@),
    {
        let s = &self.cursors;
        let mut r: Vec<CursorPosition> = Vec::new();
        let mut i: usize = 0;
        while i < s.len()
            invariant
                i <= s.len(),
                r.deep_view() == snapshot_of(s@.subrange(0, i as int), document_id@),
            decreases s.len() - i,
        {
            proof {
                assert(s@.subrange(0, i as int + 1).drop_last() =~= s@.subrange(0, i as int));
                assert(s@.subrange(0, i as int + 1).last() == s@[i as int]);
            }
            let ghost pre = r.deep_view();
            if s[i].document_id == *document_id {
                r.push(clone_cursor(&s[i].cursor));
                proof {
                    assert(r.deep_view() =~= pre.push(s@[i as int].cursor@));
                }
            }
            i = i + 1;
        }
        proof {
            assert(s@.subrange(0, s@.len() as int) =~= s@);
        }
        r
    }
}

} // verus!
