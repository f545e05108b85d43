//! The document store: creation, lookup with access control, the text-change
//! primitive applied to a stored document, and participant management.

use vstd::prelude::*;
use crate::edit::{apply_edit, apply_edit_bytes};
use crate::platform::{fresh_document_id, now_rfc3339};
use crate::types::{AppState, DocError, Document, DocumentV, clone_document, contains_node, has_access, seq_contains_str, unique_doc_ids};

verus! {

/// Whether the store holds a document with this id.
pub open spec fn has_doc(s: Seq<Document>, id: Seq<char>) -> bool {
    exists|i: int| 0 <= i < s.len() && s[i].id@ == id
}

/// The index of the document with this id (meaningful only when `has_doc`
/// holds; unique whenever the store is well formed).
pub open spec fn doc_index(s: Seq<Document>, id: Seq<char>) -> int {
    choose|i: int| 0 <= i < s.len() && s[i].id@ == id
}

/// The stored document with this id.
pub open spec fn doc_at(s: Seq<Document>, id: Seq<char>) -> Document {
    s[doc_index(s, id)]
}

/// With unique ids, any index holding `id` is the `doc_index`.
pub proof fn lemma_doc_index_unique(s: Seq<Document>, id: Seq<char>, i: int)
    requires
        unique_doc_ids(s),
        0 <= i < s.len(),
        s[i].id@ == id,
    ensures
        doc_index(s, id) == i,
{
    assert(has_doc(s, id));
    let j = doc_index(s, id);
    assert(0 <= j < s.len() && s[j].id@ == id);
    if i < j {
        assert(s[i].id@ != s[j].id@);
    } else if j < i {
        assert(s[j].id@ != s[i].id@);
    }
}

/// The views of the documents `node` may read, in store order.
pub open spec fn accessible_of(s: Seq<Document>, node: Seq<char>) -> Seq<DocumentV>
    decreases s.len(),
{
    if s.len() == 0 {
        Seq::empty()
    } else {
        let prefix = accessible_of(s.drop_last(), node);
        if s.last().spec_has_access(node) {
            prefix.push(s.last()@)
        } else {
            prefix
        }
    }
}

/// How one stored document changes under a text change: the content is the
/// edited buffer, the timestamp may move, and every other field is untouched.
pub open spec fn doc_edited(
    pre: Document,
    post: Document,
    position: usize,
    delete: usize,
    insert: Seq<u8>,
) -> bool {
    &&& post.id == pre.id
    &&& post.title == pre.title
    &&& post.host == pre.host
    &&& post.participants == pre.participants
    &&& post.created_at == pre.created_at
    &&& post.content@ == apply_edit(pre.content@, position as int, delete as int, insert)
}

/// How one stored document changes when `u` is granted access: `u` is
/// appended to the participants unless already present, and every other
/// field is untouched.
pub open spec fn participant_added(pre: Document, post: Document, u: Seq<char>) -> bool {
    &&& post.id == pre.id
    &&& post.title == pre.title
    &&& post.host == pre.host
    &&& post.content == pre.content
    &&& post.created_at == pre.created_at
    &&& post.updated_at == pre.updated_at
    &&& if seq_contains_str(pre.participants@, u) {
        post.participants == pre.participants
    } else {
        &&& post.participants@.len() == pre.participants@.len() + 1
        &&& forall|k: int|
            0 <= k < pre.participants@.len() ==> post.participants@[k] == pre.participants@[k]
        &&& post.participants@.last()@ == u
    }
}

/// How the whole store changes under a text change on the document with this
/// id: that document is edited as [`doc_edited`] says, every other document
/// is untouched, and an unknown id changes nothing.
pub open spec fn docs_edited(
    pre: Seq<Document>,
    post: Seq<Document>,
    id: Seq<char>,
    position: usize,
    delete: usize,
    insert: Seq<u8>,
) -> bool {
    if has_doc(pre, id) {
        &&& post.len() == pre.len()
        &&& forall|j: int| 0 <= j < pre.len() && pre[j].id@ != id ==> post[j] == pre[j]
        &&& forall|j: int|
            0 <= j < pre.len() && pre[j].id@ == id ==> doc_edited(
                pre[j],
                post[j],
                position,
                delete,
                insert,
            )
    } else {
        post == pre
    }
}

/// Finds the store entry with this id, if any.
pub(crate) fn find_doc(v: &Vec<Document>, id: &String) -> (r: Option<usize>)
    ensures
        match r {
            Some(i) => 0 <= i < v@.len() && v@[i as int].id@ == id@,
            None => !has_doc(v@, id@),
        },
{
    let mut i: usize = 0;
    while i < v.len()
        invariant
            i <= v.len(),
            forall|j: int| 0 <= j < i ==> v@[j].id@ != id@,
        decreases v.len() - i,
    {
        if v[i].id == *id {
            return Some(i);
        }
        i = i + 1;
    }
    None
}

impl AppState {
    /// Creates a document with a fresh platform-generated id, empty content,
    /// the host as sole participant and both timestamps set to now, stores
    /// it, and returns a copy.  Should the platform ever hand back an id
    /// already in use, the stored entry for that id is replaced, as a keyed
    /// store must.  The cursor tracker needs no seeding for a new document:
    /// it is keyed by (document, participant), so a document nobody has
    /// moved a cursor in has an empty snapshot.
    pub fn create_document(&mut self, title: String, host: String) -> (r: Document)
        requires
            old(self).wf(),
        ensures
            final(self).wf(),
            final(self).active_connections == old(self).active_connections,
            final(self).cursors == old(self).cursors,
            final(self).pending_invites == old(self).pending_invites,
            r@.title == title@,
            r@.host == host@,
            r@.content == Seq::<u8>::empty(),
            r@.participants == seq![host@],
            r@.created_at == r@.updated_at,
            r.spec_has_access(host@),
            if has_doc(old(self).documents@, r@.id) {
                &&& final(self).documents@.len() == old(self).documents@.len()
                &&& forall|j: int|
                    0 <= j < old(self).documents@.len() && old(self).documents@[j].id@ != r@.id
                        ==> final(self).documents@[j] == old(self).documents@[j]
                &&& forall|j: int|
                    0 <= j < old(self).documents@.len() && old(self).documents@[j].id@ == r@.id
                        ==> final(self).documents@[j]@ == r@
            } else {
                &&& final(self).documents@.len() == old(self).documents@.len() + 1
                &&& forall|j: int|
                    0 <= j < old(self).documents@.len() ==> final(self).documents@[j] == old(
                        self,
                    ).documents@[j]
                &&& final(self).documents@.last()@ == r@
            },
            has_doc(final(self).documents@, r@.id),
    {
        let id = fresh_document_id();
        let now = now_rfc3339();
        let mut participants: Vec<String> = Vec::new();
        participants.push(host.clone());
        let doc = Document {
            id,
            title,
            content: Vec::new(),
            host,
            participants,
            created_at: now.clone(),
            updated_at: now,
        };
        let r = clone_document(&doc);
        proof {
            assert(r@.participants =~= seq![r@.host]);
        }
        match find_doc(&self.documents, &doc.id) {
            Some(i) => {
                self.documents.set(i, doc);
                proof {
                    assert(forall|j: int|
                        0 <= j < old(self).documents@.len() && j != i as int
                            ==> final(self).documents@[j] == old(self).documents@[j]);
                    assert(final(self).documents@[i as int].id@ == r@.id);
                }
            },
            None => {
                self.documents.push(doc);
            },
        }
        r
    }

    /// Looks a document up on behalf of `node`: a copy when it exists and
    /// `node` has access, the exact reason otherwise.
    pub fn get_document(&self, document_id: &String, node: &String) -> (r: Result<
        Document,
        DocError,
    >)
        requires
            self.wf(),
        ensures
            r matches Ok(d) ==> has_doc(self.documents@, document_id@) && d@ == doc_at(
                self.documents@,
                document_id@,
            )@ && doc_at(self.documents@, document_id@).spec_has_access(node@),
            r matches Err(DocError::NotFound) <==> !has_doc(self.documents@, document_id@),
            r matches Err(DocError::AccessDenied) <==> has_doc(self.documents@, document_id@)
                && !doc_at(self.documents@, document_id@).spec_has_access(node@),
    {
        match find_doc(&self.documents, document_id) {
            None => Err(DocError::NotFound),
            Some(i) => {
                proof {
                    lemma_doc_index_unique(self.documents@, document_id@, i as int);
                }
                if has_access(&self.documents[i], node) {
                    Ok(clone_document(&self.documents[i]))
                } else {
                    Err(DocError::AccessDenied)
                }
            },
        }
    }

    /// The documents `node` may read, in store order, as copies.
    pub fn get_documents(&self, node: &String) -> (r: Vec<Document>)
        ensures
            r.deep_view() == accessible_of(self.documents@, node@),
    {
        let s = &self.documents;
        let mut r: Vec<Document> = Vec::new();
        let mut i: usize = 0;
        while i < s.len()
            invariant
                i <= s.len(),
                r.deep_view() == accessible_of(s@.subrange(0, i as int), node@),
            decreases s.len() - i,
        {
            proof {
                assert(s@.subrange(0, i as int + 1).drop_last() =~= s@.subrange(0, i as int));
                assert(s@.subrange(0, i as int + 1).last() == s@[i as int]);
            }
            let ghost pre = r.deep_view();
            if has_access(&s[i], node) {
                r.push(clone_document(&s[i]));
                proof {
                    assert(r.deep_view() =~= pre.push(s@[i as int]@));
                }
            }
            i = i + 1;
        }
        proof {
            assert(s@.subrange(0, s@.len() as int) =~= s@);
        }
        r
    }

    /// Applies a text change to the document with this id and stamps it with
    /// the current time; silently a no-op when the id is unknown.
    pub fn apply_text_change(
        &mut self,
        document_id: &String,
        position: usize,
        delete: usize,
        insert: &Vec<u8>,
    )
        requires
            old(self).wf(),
        ensures
            final(self).wf(),
            final(self).active_connections == old(self).active_connections,
            final(self).cursors == old(self).cursors,
            final(self).pending_invites == old(self).pending_invites,
            docs_edited(
                old(self).documents@,
                final(self).documents@,
                document_id@,
                position,
                delete,
                insert@,
            ),
    {
        match find_doc(&self.documents, document_id) {
            None => {
            },
            Some(i) => {
                let mut d = self.documents.remove(i);
                let new_content = apply_edit_bytes(&d.content, position, delete, insert);
                d.content = new_content;
                d.updated_at = now_rfc3339();
                self.documents.insert(i, d);
                proof {
                    assert(final(self).documents@ =~= old(self).documents@.update(
                        i as int,
                        final(self).documents@[i as int],
                    ));
                }
            },
        }
    }

    /// Grants `identity` access to the document with this id; idempotent,
    /// and a no-op when the id is unknown.
    pub fn add_participant(&mut self, document_id: &String, identity: String)
        requires
            old(self).wf(),
        ensures
            final(self).wf(),
            final(self).active_connections == old(self).active_connections,
            final(self).cursors == old(self).cursors,
            final(self).pending_invites == old(self).pending_invites,
            if has_doc(old(self).documents@, document_id@) {
                &&& final(self).documents@.len() == old(self).documents@.len()
                &&& forall|j: int|
                    0 <= j < old(self).documents@.len() && old(self).documents@[j].id@
                        != document_id@ ==> final(self).documents@[j] == old(self).documents@[j]
                &&& forall|j: int|
                    0 <= j < old(self).documents@.len() && old(self).documents@[j].id@
                        == document_id@ ==> participant_added(
                        old(self).documents@[j],
                        final(self).documents@[j],
                        identity@,
                    )
            } else {
                final(self).documents == old(self).documents
            },
    {
        match find_doc(&self.documents, document_id) {
            None => {
            },
            Some(i) => {
                let mut d = self.documents.remove(i);
                if !contains_node(&d.participants, &identity) {
                    d.participants.push(identity);
                }
                self.documents.insert(i, d);
                proof {
                    assert(final(self).documents@ =~= old(self).documents@.update(
                        i as int,
                        final(self).documents@[i as int],
                    ));
                }
            },
        }
    }
}

} // verus!
