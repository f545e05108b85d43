//! The connection registry: which live connection belongs to whom, which
//! document it is joined to, and which connections a document-wide fan-out
//! must reach.

use vstd::prelude::*;
use crate::types::{AppState, Connection, ConnectionInfo, clone_conn_info, option_view, palette_color, unique_channels, user_color};

verus! {

/// Whether some registry entry uses channel handle `ch`.
pub open spec fn has_channel(s: Seq<Connection>, ch: u32) -> bool {
    exists|i: int| 0 <= i < s.len() && s[i].channel_id == ch
}

/// The index of the entry with channel handle `ch` (meaningful only when
/// `has_channel` holds; unique whenever the registry is well formed).
pub open spec fn channel_index(s: Seq<Connection>, ch: u32) -> int {
    choose|i: int| 0 <= i < s.len() && s[i].channel_id == ch
}

/// With unique channels, any index holding `ch` is the `channel_index`.
pub proof fn lemma_channel_index_unique(s: Seq<Connection>, ch: u32, i: int)
    requires
        unique_channels(s),
        0 <= i < s.len(),
        s[i].channel_id == ch,
    ensures
        channel_index(s, ch) == i,
{
    assert(has_channel(s, ch));
    let j = channel_index(s, ch);
    assert(0 <= j < s.len() && s[j].channel_id == ch);
    if i < j {
        assert(s[i].channel_id != s[j].channel_id);
    } else if j < i {
        assert(s[j].channel_id != s[i].channel_id);
    }
}

/// Whether connection `c` is currently joined to document `doc`.
pub open spec fn joined_to(c: Connection, doc: Seq<char>) -> bool {
    c.info.document_id matches Some(d) && d@ == doc
}

/// The channel handles a fan-out on `doc` must reach: every registered
/// connection joined to `doc`, except the excluded one, in registry order.
pub open spec fn targets_of(s: Seq<Connection>, doc: Seq<char>, exclude: Option<u32>) -> Seq<u32>
    decreases s.len(),
{
    if s.len() == 0 {
        Seq::empty()
    } else {
        let prefix = targets_of(s.drop_last(), doc, exclude);
        let c = s.last();
        if joined_to(c, doc) && Some(c.channel_id) != exclude {
            prefix.push(c.channel_id)
        } else {
            prefix
        }
    }
}

/// Law: a fan-out that excludes its sender never targets the sender, whatever
/// the registry holds.
pub proof fn lemma_targets_exclude_sender(s: Seq<Connection>, doc: Seq<char>, sender: u32)
    ensures
        !targets_of(s, doc, Some(sender)).contains(sender),
    decreases s.len(),
{
    if s.len() > 0 {
        lemma_targets_exclude_sender(s.drop_last(), doc, sender);
    }
}

/// Law: a fan-out reaches a channel exactly when some registry entry holds
/// that channel, is joined to the document, and is not the excluded one.
pub proof fn lemma_targets_complete(s: Seq<Connection>, doc: Seq<char>, exclude: Option<u32>, ch: u32)
    ensures
        targets_of(s, doc, exclude).contains(ch) <==> exists|i: int|
            0 <= i < s.len() && s[i].channel_id == ch && joined_to(s[i], doc) && Some(ch)
                != exclude,
    decreases s.len(),
{
    if s.len() > 0 {
        lemma_targets_complete(s.drop_last(), doc, exclude, ch);
        let prefix = targets_of(s.drop_last(), doc, exclude);
        let c = s.last();
        if joined_to(c, doc) && Some(c.channel_id) != exclude {
            assert(targets_of(s, doc, exclude) == prefix.push(c.channel_id));
            if targets_of(s, doc, exclude).contains(ch) {
                if ch == c.channel_id {
                    assert(s[s.len() - 1].channel_id == ch && joined_to(s[s.len() - 1], doc));
                } else {
                    assert(prefix.contains(ch)) by {
                        let k = choose|k: int|
                            0 <= k < prefix.push(c.channel_id).len() && prefix.push(
                                c.channel_id,
                            )[k] == ch;
                        assert(prefix[k] == ch);
                    }
                    let i = choose|i: int|
                        0 <= i < s.drop_last().len() && s.drop_last()[i].channel_id == ch
                            && joined_to(s.drop_last()[i], doc) && Some(ch) != exclude;
                    assert(s[i].channel_id == ch && joined_to(s[i], doc));
                }
            }
            if exists|i: int|
                0 <= i < s.len() && s[i].channel_id == ch && joined_to(s[i], doc) && Some(ch)
                    != exclude {
                let i = choose|i: int|
                    0 <= i < s.len() && s[i].channel_id == ch && joined_to(s[i], doc) && Some(ch)
                        != exclude;
                if i == s.len() - 1 {
                    assert(prefix.push(c.channel_id).last() == ch);
                } else {
                    assert(s.drop_last()[i].channel_id == ch && joined_to(s.drop_last()[i], doc));
                    assert(prefix.contains(ch));
                    let k = choose|k: int| 0 <= k < prefix.len() && prefix[k] == ch;
                    assert(prefix.push(c.channel_id)[k] == ch);
                }
            }
        } else {
            if targets_of(s, doc, exclude).contains(ch) {
                let i = choose|i: int|
                    0 <= i < s.drop_last().len() && s.drop_last()[i].channel_id == ch && joined_to(
                        s.drop_last()[i],
                        doc,
                    ) && Some(ch) != exclude;
                assert(s[i].channel_id == ch && joined_to(s[i], doc));
            }
            if exists|i: int|
                0 <= i < s.len() && s[i].channel_id == ch && joined_to(s[i], doc) && Some(ch)
                    != exclude {
                let i = choose|i: int|
                    0 <= i < s.len() && s[i].channel_id == ch && joined_to(s[i], doc) && Some(ch)
                        != exclude;
                assert(i != s.len() - 1);
                assert(s.drop_last()[i].channel_id == ch && joined_to(s.drop_last()[i], doc));
            }
        }
    }
}

/// The joined document of the connection on `ch`, if it is registered and
/// joined to one.
pub open spec fn joined_doc_of(s: Seq<Connection>, ch: u32) -> Option<Seq<char>> {
    if has_channel(s, ch) {
        option_view(s[channel_index(s, ch)].info.document_id)
    } else {
        None
    }
}

/// The identity behind the connection on `ch` (meaningful only when the
/// channel is registered).
pub open spec fn sender_node_of(s: Seq<Connection>, ch: u32) -> Seq<char> {
    s[channel_index(s, ch)].info.node_id@
}

/// The display color of the connection on `ch` (meaningful only when the
/// channel is registered).
pub open spec fn color_of(s: Seq<Connection>, ch: u32) -> Seq<char> {
    s[channel_index(s, ch)].info.color@
}

/// How the registry changes when the joined document of `ch` is cleared:
/// that entry keeps its identity and color but is joined to nothing, and
/// every other entry is untouched.
pub open spec fn doc_cleared(pre: Seq<Connection>, post: Seq<Connection>, ch: u32) -> bool {
    &&& post.len() == pre.len()
    &&& forall|j: int| 0 <= j < pre.len() && pre[j].channel_id != ch ==> post[j] == pre[j]
    &&& forall|j: int|
        0 <= j < pre.len() && pre[j].channel_id == ch ==> {
            let p = pre[j];
            let q = post[j];
            &&& q.channel_id == ch
            &&& q.info.node_id == p.info.node_id
            &&& q.info.color == p.info.color
            &&& q.info.document_id is None
        }
}

/// Whether a registry entry carries exactly this channel, identity, joined
/// document and color.
pub open spec fn conn_matches(
    c: Connection,
    ch: u32,
    node: Seq<char>,
    doc: Option<Seq<char>>,
    color: Seq<char>,
) -> bool {
    &&& c.channel_id == ch
    &&& c.info.node_id@ == node
    &&& option_view(c.info.document_id) == doc
    &&& c.info.color@ == color
}

/// How the registry changes when a connection registers: the entry for its
/// channel is created or replaced with the given identity, document and
/// color, and every other entry is untouched.
pub open spec fn registered(
    pre: Seq<Connection>,
    post: Seq<Connection>,
    ch: u32,
    node: Seq<char>,
    doc: Option<Seq<char>>,
    color: Seq<char>,
) -> bool {
    if has_channel(pre, ch) {
        &&& post.len() == pre.len()
        &&& forall|j: int| 0 <= j < pre.len() && pre[j].channel_id != ch ==> post[j] == pre[j]
        &&& forall|j: int|
            0 <= j < pre.len() && pre[j].channel_id == ch ==> conn_matches(
                post[j],
                ch,
                node,
                doc,
                color,
            )
    } else {
        &&& post.len() == pre.len() + 1
        &&& forall|j: int| 0 <= j < pre.len() ==> post[j] == pre[j]
        &&& conn_matches(post.last(), ch, node, doc, color)
    }
}

/// Finds the registry entry using channel handle `ch`, if any.
fn find_channel(v: &Vec<Connection>, ch: u32) -> (r: Option<usize>)
    ensures
        match r {
            Some(i) => 0 <= i < v@.len() && v@[i as int].channel_id == ch,
            None => !has_channel(v@, ch),
        },
{
    let mut i: usize = 0;
    while i < v.len()
        invariant
            i <= v.len(),
            forall|j: int| 0 <= j < i ==> v@[j].channel_id != ch,
        decreases v.len() - i,
    {
        if v[i].channel_id == ch {
            return Some(i);
        }
        i = i + 1;
    }
    None
}

impl AppState {
    /// Registers (or re-registers) a connection as joined to `document_id`,
    /// assigning a display color from the current connection count, and
    /// returns that color.
    pub fn register(&mut self, channel_id: u32, node_id: String, document_id: String) -> (color:
        String)
        requires
            old(self).wf(),
        ensures
            final(self).wf(),
            final(self).documents == old(self).documents,
            final(self).cursors == old(self).cursors,
            final(self).pending_invites == old(self).pending_invites,
            color@ == palette_color((old(self).active_connections@.len() as int) % 10),
            registered(
                old(self).active_connections@,
                final(self).active_connections@,
                channel_id,
                node_id@,
                Some(document_id@),
                color@,
            ),
    {
        let color = user_color(self.active_connections.len());
        let info = ConnectionInfo {
            node_id,
            document_id: Some(document_id),
            color: color.clone(),
        };
        let conn = Connection { channel_id, info };
        match find_channel(&self.active_connections, channel_id) {
            Some(i) => {
                self.active_connections.set(i, conn);
                proof {
                    assert(forall|j: int|
                        0 <= j < old(self).active_connections@.len() && j != i as int
                            ==> final(self).active_connections@[j]
                            == old(self).active_connections@[j]);
                }
            },
            None => {
                self.active_connections.push(conn);
            },
        }
        color
    }

    /// Sets or clears the joined document of the connection on `channel_id`,
    /// leaving its identity and color as they were.  A handle with no entry
    /// is left alone.
    pub fn update_document(&mut self, channel_id: u32, document_id: Option<String>)
        requires
            old(self).wf(),
        ensures
            final(self).wf(),
            final(self).documents == old(self).documents,
            final(self).cursors == old(self).cursors,
            final(self).pending_invites == old(self).pending_invites,
            if has_channel(old(self).active_connections@, channel_id) {
                &&& final(self).active_connections@.len() == old(self).active_connections@.len()
                &&& forall|j: int|
                    0 <= j < old(self).active_connections@.len()
                        && old(self).active_connections@[j].channel_id != channel_id
                        ==> final(self).active_connections@[j] == old(self).active_connections@[j]
                &&& forall|j: int|
                    0 <= j < old(self).active_connections@.len()
                        && old(self).active_connections@[j].channel_id == channel_id ==> {
                        let pre = old(self).active_connections@[j];
                        let post = final(self).active_connections@[j];
                        &&& post.channel_id == channel_id
                        &&& post.info.node_id == pre.info.node_id
                        &&& post.info.color == pre.info.color
                        &&& option_view(post.info.document_id) == option_view(document_id)
                    }
            } else {
                final(self).active_connections == old(self).active_connections
            },
    {
        match find_channel(&self.active_connections, channel_id) {
            Some(i) => {
                let c = self.active_connections.remove(i);
                let updated = Connection {
                    channel_id: c.channel_id,
                    info: ConnectionInfo {
                        node_id: c.info.node_id,
                        document_id,
                        color: c.info.color,
                    },
                };
                self.active_connections.insert(i, updated);
                proof {
                    assert(final(self).active_connections@
                        =~= old(self).active_connections@.update(i as int, updated));
                }
            },
            None => {
            },
        }
    }

    /// Removes the registry entry for `channel_id`, returning what it held so
    /// the caller can clean up after the connection.
    pub fn remove_connection(&mut self, channel_id: u32) -> (r: Option<ConnectionInfo>)
        requires
            old(self).wf(),
        ensures
            final(self).wf(),
            final(self).documents == old(self).documents,
            final(self).cursors == old(self).cursors,
            final(self).pending_invites == old(self).pending_invites,
            r is Some <==> has_channel(old(self).active_connections@, channel_id),
            if has_channel(old(self).active_connections@, channel_id) {
                let i = channel_index(old(self).active_connections@, channel_id);
                &&& r == Some(old(self).active_connections@[i].info)
                &&& final(self).active_connections@ == old(self).active_connections@.remove(i)
            } else {
                final(self).active_connections == old(self).active_connections
            },
    {
        match find_channel(&self.active_connections, channel_id) {
            Some(i) => {
                proof {
                    lemma_channel_index_unique(
                        self.active_connections@,
                        channel_id,
                        i as int,
                    );
                }
                let c = self.active_connections.remove(i);
                Some(c.info)
            },
            None => None,
        }
    }

    /// What the registry knows of the connection on `channel_id`, as a copy.
    pub fn lookup_connection(&self, channel_id: u32) -> (r: Option<ConnectionInfo>)
        requires
            self.wf(),
        ensures
            r is Some <==> has_channel(self.active_connections@, channel_id),
            r matches Some(info) ==> info@ == self.active_connections@[channel_index(
                self.active_connections@,
                channel_id,
            )].info@,
    {
        match find_channel(&self.active_connections, channel_id) {
            Some(i) => {
                proof {
                    lemma_channel_index_unique(self.active_connections@, channel_id, i as int);
                }
                Some(clone_conn_info(&self.active_connections[i].info))
            },
            None => None,
        }
    }

    /// The channel handles a fan-out on `document_id` must reach, leaving out
    /// `exclude` (normally the sender).
    pub fn connections_for_document(&self, document_id: &String, exclude: Option<u32>) -> (r: Vec<
        u32,
    >)
        ensures
            r@ == targets_of(self.active_connections@, document_id@, exclude),
    {
        let s = &self.active_connections;
        let mut r: Vec<u32> = Vec::new();
        let mut i: usize = 0;
        while i < s.len()
            invariant
                i <= s.len(),
                r@ == targets_of(s@.subrange(0, i as int), document_id@, exclude),
            decreases s.len() - i,
        {
            proof {
                assert(s@.subrange(0, i as int + 1).drop_last() =~= s@.subrange(0, i as int));
                assert(s@.subrange(0, i as int + 1).last() == s@[i as int]);
            }
            let c = &s[i];
            let keep = match &c.info.document_id {
                Some(d) => {
                    let not_excluded = match exclude {
                        Some(e) => e != c.channel_id,
                        None => true,
                    };
                    *d == *document_id && not_excluded
                },
                None => false,
            };
            if keep {
                r.push(c.channel_id);
            }
            i = i + 1;
        }
        proof {
            assert(s@.subrange(0, s@.len() as int) =~= s@);
        }
        r
    }
}

} // verus!
