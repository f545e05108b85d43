//! Invitations: the host of a document grants another identity access and a
//! payload for the wire is prepared; the invited side records the pending
//! invitation and can list what it was invited to.

use vstd::prelude::*;
use crate::store::{doc_at, doc_index, has_doc, lemma_doc_index_unique, participant_added};
use crate::types::{AppState, InviteEntry, InviteError, InvitePayload, clone_strings, contains_node, unique_invite_nodes};

verus! {

/// Whether some pending-invite entry belongs to `node`.
pub open spec fn has_invite_node(s: Seq<InviteEntry>, node: Seq<char>) -> bool {
    exists|i: int| 0 <= i < s.len() && s[i].node_id@ == node
}

/// The index of the entry belonging to `node` (meaningful only when
/// `has_invite_node` holds; unique whenever the table is well formed).
pub open spec fn invite_index(s: Seq<InviteEntry>, node: Seq<char>) -> int {
    choose|i: int| 0 <= i < s.len() && s[i].node_id@ == node
}

/// With unique identities, any index belonging to `node` is the
/// `invite_index`.
pub proof fn lemma_invite_index_unique(s: Seq<InviteEntry>, node: Seq<char>, i: int)
    requires
        unique_invite_nodes(s),
        0 <= i < s.len(),
        s[i].node_id@ == node,
    ensures
        invite_index(s, node) == i,
{
    assert(has_invite_node(s, node));
    let j = invite_index(s, node);
    assert(0 <= j < s.len() && s[j].node_id@ == node);
    if i < j {
        assert(s[i].node_id@ != s[j].node_id@);
    } else if j < i {
        assert(s[j].node_id@ != s[i].node_id@);
    }
}

/// The document ids `node` is invited to, in arrival order.
pub open spec fn invites_of(s: Seq<InviteEntry>, node: Seq<char>) -> Seq<Seq<char>> {
    if has_invite_node(s, node) {
        s[invite_index(s, node)].document_ids.deep_view()
    } else {
        Seq::empty()
    }
}

/// How the pending-invite table changes when `doc` is recorded for `node`:
/// the document id is appended to the node's list (created if missing), and
/// everything else is untouched.
pub open spec fn invite_recorded(
    pre: Seq<InviteEntry>,
    post: Seq<InviteEntry>,
    node: Seq<char>,
    doc: Seq<char>,
) -> bool {
    if has_invite_node(pre, node) {
        &&& post.len() == pre.len()
        &&& forall|j: int| 0 <= j < pre.len() && pre[j].node_id@ != node ==> post[j] == pre[j]
        &&& forall|j: int|
            0 <= j < pre.len() && pre[j].node_id@ == node ==> {
                let p = pre[j];
                let q = post[j];
                &&& q.node_id == p.node_id
                &&& q.document_ids@.len() == p.document_ids@.len() + 1
                &&& forall|k: int|
                    0 <= k < p.document_ids@.len() ==> q.document_ids@[k] == p.document_ids@[k]
                &&& q.document_ids@.last()@ == doc
            }
    } else {
        &&& post.len() == pre.len() + 1
        &&& forall|j: int| 0 <= j < pre.len() ==> post[j] == pre[j]
        &&& post.last().node_id@ == node
        &&& post.last().document_ids@.len() == 1
        &&& post.last().document_ids@[0]@ == doc
    }
}

/// Finds the pending-invite entry belonging to `node`, if any.
fn find_invite(v: &Vec<InviteEntry>, node: &String) -> (r: Option<usize>)
    ensures
        match r {
            Some(i) => 0 <= i < v@.len() && v@[i as int].node_id@ == node@,
            None => !has_invite_node(v@, node@),
        },
{
    let mut i: usize = 0;
    while i < v.len()
        invariant
            i <= v.len(),
            forall|j: int| 0 <= j < i ==> v@[j].node_id@ != node@,
        decreases v.len() - i,
    {
        if v[i].node_id == *node {
            return Some(i);
        }
        i = i + 1;
    }
    None
}

impl AppState {
    /// Grants `target_node` access to the document with this id, on behalf
    /// of `our_node`, and returns the payload an invitation message to the
    /// target must carry.  Only the host may invite; the grant itself is
    /// idempotent.
    pub fn send_invite(
        &mut self,
        document_id: &String,
        target_node: String,
        our_node: &String,
    ) -> (r: Result<InvitePayload, InviteError>)
        requires
            old(self).wf(),
        ensures
            final(self).wf(),
            final(self).active_connections == old(self).active_connections,
            final(self).cursors == old(self).cursors,
            final(self).pending_invites == old(self).pending_invites,
            r matches Err(InviteError::NotFound) <==> !has_doc(
                old(self).documents@,
                document_id@,
            ),
            r matches Err(InviteError::NotHost) <==> has_doc(old(self).documents@, document_id@)
                && doc_at(old(self).documents@, document_id@).host@ != our_node@,
            r is Err ==> final(self).documents == old(self).documents,
            r matches Ok(p) ==> {
                &&& has_doc(old(self).documents@, document_id@)
                &&& doc_at(old(self).documents@, document_id@).host@ == our_node@
                &&& p.document_id@ == document_id@
                &&& p.document_title@ == doc_at(old(self).documents@, document_id@).title@
                &&& p.from@ == our_node@
                &&& final(self).documents@.len() == old(self).documents@.len()
                &&& forall|j: int|
                    0 <= j < old(self).documents@.len() && old(self).documents@[j].id@
                        != document_id@ ==> final(self).documents@[j] == old(self).documents@[j]
                &&& forall|j: int|
                    0 <= j < old(self).documents@.len() && old(self).documents@[j].id@
                        == document_id@ ==> participant_added(
                        old(self).documents@[j],
                        final(self).documents@[j],
                        target_node@,
                    )
            },
    {
        match crate::store::find_doc(&self.documents, document_id) {
            None => Err(InviteError::NotFound),
            Some(i) => {
                proof {
                    lemma_doc_index_unique(self.documents@, document_id@, i as int);
                }
                if self.documents[i].host == *our_node {
                    let mut d = self.documents.remove(i);
                    let payload = InvitePayload {
                        document_id: document_id.clone(),
                        document_title: d.title.clone(),
                        from: our_node.clone(),
                    };
                    if !contains_node(&d.participants, &target_node) {
                        d.participants.push(target_node);
                    }
                    self.documents.insert(i, d);
                    proof {
                        assert(final(self).documents@ =~= old(self).documents@.update(
                            i as int,
                            final(self).documents@[i as int],
                        ));
                    }
                    Ok(payload)
                } else {
                    Err(InviteError::NotHost)
                }
            },
        }
    }

    /// Records that `our_node` was invited to the document with this id.
    pub fn receive_invite(&mut self, our_node: String, document_id: String)
        requires
            old(self).wf(),
        ensures
            final(self).wf(),
            final(self).documents == old(self).documents,
            final(self).active_connections == old(self).active_connections,
            final(self).cursors == old(self).cursors,
            invite_recorded(
                old(self).pending_invites@,
                final(self).pending_invites@,
                our_node@,
                document_id@,
            ),
    {
        match find_invite(&self.pending_invites, &our_node) {
            Some(i) => {
                let mut e = self.pending_invites.remove(i);
                e.document_ids.push(document_id);
                self.pending_invites.insert(i, e);
                proof {
                    assert(final(self).pending_invites@ =~= old(self).pending_invites@.update(
                        i as int,
                        final(self).pending_invites@[i as int],
                    ));
                }
            },
            None => {
                let mut ids: Vec<String> = Vec::new();
                ids.push(document_id);
                self.pending_invites.push(InviteEntry { node_id: our_node, document_ids: ids });
            },
        }
    }

    /// The document ids `node` is invited to, as copies, in arrival order.
    pub fn get_invites(&self, node: &String) -> (r: Vec<String>)
        requires
            self.wf(),
        ensures
            r.deep_view() == invites_of(self.pending_invites@, node@),
    {
        match find_invite(&self.pending_invites, node) {
            Some(i) => {
                proof {
                    lemma_invite_index_unique(self.pending_invites@, node@, i as int);
                }
                clone_strings(&self.pending_invites[i].document_ids)
            },
            None => Vec::new(),
        }
    }
}

} // verus!
