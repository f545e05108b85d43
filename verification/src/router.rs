//! The router: the single entry point for inbound messages.  Each handler
//! mutates the engine state and returns the outbound work - at most one
//! direct reply to the sender and one document-wide fan-out - for the host
//! transport to deliver.  Every handler is total: a message that refers to
//! nothing changes nothing.

use vstd::prelude::*;
use crate::cursors::{cursor_removed, cursor_set, snapshot_of};
use crate::registry::{channel_index, color_of, doc_cleared, has_channel, joined_doc_of, lemma_targets_exclude_sender, registered, sender_node_of, targets_of};
use crate::store::{doc_at, docs_edited, has_doc, lemma_doc_index_unique};
use crate::types::{AppState, WSMessage, clone_document, has_access, option_view, palette_color};

verus! {

/// One message to be delivered to every listed channel (a document-wide
/// fan-out with the sender already left out).  The host serializes the
/// message once and pushes it to each target, skipping any whose transport
/// is already gone.
pub struct Fanout {
    pub message: WSMessage,
    pub targets: Vec<u32>,
}

/// The outbound work one inbound message produced: at most one direct reply
/// to the sender's own channel, and at most one fan-out.
pub struct WsEffects {
    pub reply: Option<WSMessage>,
    pub fanout: Option<Fanout>,
}

/// No reply and no fan-out.
pub open spec fn no_effects(r: WsEffects) -> bool {
    r.reply is None && r.fanout is None
}

/// What handling `JoinDocument` does.  The connection is registered to the
/// document whatever happens, with a color drawn from the connection count.
/// When the document exists and the sender has access, the reply hydrates
/// the sender with the stored document and the cursor snapshot, and everyone
/// else on the document learns of the join; otherwise nothing is sent - not
/// even an error.
pub open spec fn join_post(
    pre: AppState,
    post: AppState,
    ch: u32,
    node: Seq<char>,
    doc: Seq<char>,
    r: WsEffects,
) -> bool {
    let color = palette_color((pre.active_connections@.len() as int) % 10);
    &&& post.documents == pre.documents
    &&& post.cursors == pre.cursors
    &&& post.pending_invites == pre.pending_invites
    &&& registered(pre.active_connections@, post.active_connections@, ch, node, Some(doc), color)
    &&& if has_doc(pre.documents@, doc) && doc_at(pre.documents@, doc).spec_has_access(node) {
        &&& r.reply matches Some(WSMessage::DocumentState { document, cursors: cs })
            && document@ == doc_at(pre.documents@, doc)@ && cs.deep_view() == snapshot_of(
            pre.cursors@,
            doc,
        )
        &&& r.fanout matches Some(f) && f.message matches WSMessage::UserJoined {
            user,
            color: c,
        } && user@ == node && c@ == color && f.targets@ == targets_of(
            post.active_connections@,
            doc,
            Some(ch),
        )
    } else {
        no_effects(r)
    }
}

/// What handling `TextChange` does.  A sender with no joined document
/// changes nothing and nothing is sent; otherwise the change is applied to
/// the joined document (a no-op when that document is unknown, and then
/// nothing is sent either) and everyone else on it learns of the change.
pub open spec fn text_change_post(
    pre: AppState,
    post: AppState,
    ch: u32,
    position: usize,
    delete: usize,
    insert: Seq<u8>,
    r: WsEffects,
) -> bool {
    &&& post.active_connections == pre.active_connections
    &&& post.cursors == pre.cursors
    &&& post.pending_invites == pre.pending_invites
    &&& r.reply is None
    &&& match joined_doc_of(pre.active_connections@, ch) {
        Some(doc) => {
            &&& docs_edited(pre.documents@, post.documents@, doc, position, delete, insert)
            &&& if has_doc(pre.documents@, doc) {
                r.fanout matches Some(f) && f.message matches WSMessage::TextUpdate {
                    user,
                    position: p,
                    delete: dl,
                    insert: ins,
                } && user@ == sender_node_of(pre.active_connections@, ch) && p == position && dl
                    == delete && ins@ == insert && f.targets@ == targets_of(
                    pre.active_connections@,
                    doc,
                    Some(ch),
                )
            } else {
                r.fanout is None
            }
        },
        None => post.documents == pre.documents && r.fanout is None,
    }
}

/// What handling `CursorMove` does.  A sender with no joined document
/// changes nothing and nothing is sent; otherwise the sender's cursor on the
/// joined document is inserted or overwritten with its registered color, and
/// everyone else on the document learns of the move.
pub open spec fn cursor_move_post(
    pre: AppState,
    post: AppState,
    ch: u32,
    position: usize,
    r: WsEffects,
) -> bool {
    &&& post.active_connections == pre.active_connections
    &&& post.documents == pre.documents
    &&& post.pending_invites == pre.pending_invites
    &&& r.reply is None
    &&& match joined_doc_of(pre.active_connections@, ch) {
        Some(doc) => {
            &&& cursor_set(
                pre.cursors@,
                post.cursors@,
                doc,
                sender_node_of(pre.active_connections@, ch),
                position,
                color_of(pre.active_connections@, ch),
            )
            &&& r.fanout matches Some(f) && f.message matches WSMessage::CursorUpdate {
                user,
                position: p,
            } && user@ == sender_node_of(pre.active_connections@, ch) && p == position
                && f.targets@ == targets_of(pre.active_connections@, doc, Some(ch))
        },
        None => post.cursors == pre.cursors && r.fanout is None,
    }
}

/// What handling `LeaveDocument` does.  A registered sender stays registered
/// but is joined to nothing, its cursor on the named document is removed,
/// and everyone else on that document learns of the leave; an unregistered
/// sender changes nothing.
pub open spec fn leave_post(
    pre: AppState,
    post: AppState,
    ch: u32,
    doc: Seq<char>,
    r: WsEffects,
) -> bool {
    &&& post.documents == pre.documents
    &&& post.pending_invites == pre.pending_invites
    &&& r.reply is None
    &&& if has_channel(pre.active_connections@, ch) {
        let node = sender_node_of(pre.active_connections@, ch);
        &&& doc_cleared(pre.active_connections@, post.active_connections@, ch)
        &&& cursor_removed(pre.cursors@, post.cursors@, doc, node)
        &&& r.fanout matches Some(f) && f.message matches WSMessage::UserLeft { user } && user@
            == node && f.targets@ == targets_of(post.active_connections@, doc, Some(ch))
    } else {
        post == pre && r.fanout is None
    }
}

/// What handling a transport close does.  The registry entry is removed; if
/// it was joined to a document, its cursor there is removed too and everyone
/// else on that document learns of the leave.
pub open spec fn disconnect_post(pre: AppState, post: AppState, ch: u32, r: WsEffects) -> bool {
    &&& post.documents == pre.documents
    &&& post.pending_invites == pre.pending_invites
    &&& r.reply is None
    &&& if has_channel(pre.active_connections@, ch) {
        let i = channel_index(pre.active_connections@, ch);
        let info = pre.active_connections@[i].info;
        &&& post.active_connections@ == pre.active_connections@.remove(i)
        &&& match option_view(info.document_id) {
            Some(doc) => {
                &&& cursor_removed(pre.cursors@, post.cursors@, doc, info.node_id@)
                &&& r.fanout matches Some(f) && f.message matches WSMessage::UserLeft { user }
                    && user@ == info.node_id@ && f.targets@ == targets_of(
                    post.active_connections@,
                    doc,
                    Some(ch),
                )
            },
            None => post.cursors == pre.cursors && r.fanout is None,
        }
    } else {
        post == pre && r.fanout is None
    }
}

impl AppState {
    /// Builds the fan-out of one message on a document: the message as given,
    /// addressed to every connection joined to the document except the
    /// excluded one (normally the sender, which thus never receives its own
    /// broadcast).  The host serializes the message once and pushes it to
    /// each target.
    pub fn broadcast_to_document(
        &self,
        document_id: &String,
        message: WSMessage,
        exclude: Option<u32>,
    ) -> (r: Fanout)
        ensures
            r.message == message,
            r.targets@ == targets_of(self.active_connections@, document_id@, exclude),
            exclude matches Some(ch) ==> !r.targets@.contains(ch),
    {
        let targets = self.connections_for_document(document_id, exclude);
        proof {
            match exclude {
                Some(ch) => lemma_targets_exclude_sender(
                    self.active_connections@,
                    document_id@,
                    ch,
                ),
                None => (),
            }
        }
        Fanout { message, targets }
    }

    /// Handles `JoinDocument` from the connection on `channel_id`, owned by
    /// `our_node`.
    pub fn handle_join(&mut self, channel_id: u32, our_node: &String, document_id: String) -> (r:
        WsEffects)
        requires
            old(self).wf(),
        ensures
            final(self).wf(),
            join_post(*old(self), *final(self), channel_id, our_node@, document_id@, r),
            r.fanout matches Some(f) ==> !f.targets@.contains(channel_id),
    {
        let color = self.register(channel_id, our_node.clone(), document_id.clone());
        match crate::store::find_doc(&self.documents, &document_id) {
            Some(i) => {
                proof {
                    lemma_doc_index_unique(self.documents@, document_id@, i as int);
                }
                if has_access(&self.documents[i], our_node) {
                    let document = clone_document(&self.documents[i]);
                    let cursors = self.cursor_snapshot(&document_id);
                    let fanout = self.broadcast_to_document(
                        &document_id,
                        WSMessage::UserJoined { user: our_node.clone(), color },
                        Some(channel_id),
                    );
                    WsEffects {
                        reply: Some(WSMessage::DocumentState { document, cursors }),
                        fanout: Some(fanout),
                    }
                } else {
                    WsEffects { reply: None, fanout: None }
                }
            },
            None => WsEffects { reply: None, fanout: None },
        }
    }

    /// Handles `TextChange` from the connection on `channel_id`.
    pub fn handle_text_change(
        &mut self,
        channel_id: u32,
        position: usize,
        delete: usize,
        insert: Vec<u8>,
    ) -> (r: WsEffects)
        requires
            old(self).wf(),
        ensures
            final(self).wf(),
            text_change_post(
                *old(self),
                *final(self),
                channel_id,
                position,
                delete,
                insert@,
                r,
            ),
            r.fanout matches Some(f) ==> !f.targets@.contains(channel_id),
    {
        match self.lookup_connection(channel_id) {
            Some(info) => {
                match info.document_id {
                    Some(doc_id) => {
                        match crate::store::find_doc(&self.documents, &doc_id) {
                            Some(_) => {
                                self.apply_text_change(&doc_id, position, delete, &insert);
                                let fanout = self.broadcast_to_document(
                                    &doc_id,
                                    WSMessage::TextUpdate {
                                        user: info.node_id,
                                        position,
                                        delete,
                                        insert,
                                    },
                                    Some(channel_id),
                                );
                                WsEffects { reply: None, fanout: Some(fanout) }
                            },
                            None => WsEffects { reply: None, fanout: None },
                        }
                    },
                    None => WsEffects { reply: None, fanout: None },
                }
            },
            None => WsEffects { reply: None, fanout: None },
        }
    }

    /// Handles `CursorMove` from the connection on `channel_id`.
    pub fn handle_cursor_move(&mut self, channel_id: u32, position: usize) -> (r: WsEffects)
        requires
            old(self).wf(),
        ensures
            final(self).wf(),
            cursor_move_post(*old(self), *final(self), channel_id, position, r),
            r.fanout matches Some(f) ==> !f.targets@.contains(channel_id),
    {
        match self.lookup_connection(channel_id) {
            Some(info) => {
                match info.document_id {
                    Some(doc_id) => {
                        let user = info.node_id.clone();
                        self.set_cursor(doc_id.clone(), user, position, info.color);
                        let fanout = self.broadcast_to_document(
                            &doc_id,
                            WSMessage::CursorUpdate { user: info.node_id, position },
                            Some(channel_id),
                        );
                        WsEffects { reply: None, fanout: Some(fanout) }
                    },
                    None => WsEffects { reply: None, fanout: None },
                }
            },
            None => WsEffects { reply: None, fanout: None },
        }
    }

    /// Handles `LeaveDocument` from the connection on `channel_id`.
    pub fn handle_leave(&mut self, channel_id: u32, document_id: String) -> (r: WsEffects)
        requires
            old(self).wf(),
        ensures
            final(self).wf(),
            leave_post(*old(self), *final(self), channel_id, document_id@, r),
            r.fanout matches Some(f) ==> !f.targets@.contains(channel_id),
    {
        match self.lookup_connection(channel_id) {
            Some(info) => {
                self.update_document(channel_id, None);
                self.remove_cursor(&document_id, &info.node_id);
                let fanout = self.broadcast_to_document(
                    &document_id,
                    WSMessage::UserLeft { user: info.node_id },
                    Some(channel_id),
                );
                WsEffects { reply: None, fanout: Some(fanout) }
            },
            None => WsEffects { reply: None, fanout: None },
        }
    }

    /// Handles the close of the transport behind `channel_id`.
    pub fn handle_disconnect(&mut self, channel_id: u32) -> (r: WsEffects)
        requires
            old(self).wf(),
        ensures
            final(self).wf(),
            disconnect_post(*old(self), *final(self), channel_id, r),
            r.fanout matches Some(f) ==> !f.targets@.contains(channel_id),
    {
        match self.remove_connection(channel_id) {
            Some(info) => {
                match info.document_id {
                    Some(doc_id) => {
                        self.remove_cursor(&doc_id, &info.node_id);
                        let fanout = self.broadcast_to_document(
                            &doc_id,
                            WSMessage::UserLeft { user: info.node_id },
                            Some(channel_id),
                        );
                        WsEffects { reply: None, fanout: Some(fanout) }
                    },
                    None => WsEffects { reply: None, fanout: None },
                }
            },
            None => WsEffects { reply: None, fanout: None },
        }
    }

    /// The single entry point for inbound client messages: dispatches on the
    /// message kind.  Server-to-client kinds arriving from a client are
    /// ignored without reply and without state change.
    pub fn handle_ws_message(&mut self, channel_id: u32, our_node: &String, message: WSMessage) -> (
        r: WsEffects)
        requires
            old(self).wf(),
        ensures
            final(self).wf(),
            match message {
                WSMessage::JoinDocument { document_id } => join_post(
                    *old(self),
                    *final(self),
                    channel_id,
                    our_node@,
                    document_id@,
                    r,
                ),
                WSMessage::LeaveDocument { document_id } => leave_post(
                    *old(self),
                    *final(self),
                    channel_id,
                    document_id@,
                    r,
                ),
                WSMessage::TextChange { position, delete, insert } => text_change_post(
                    *old(self),
                    *final(self),
                    channel_id,
                    position,
                    delete,
                    insert@,
                    r,
                ),
                WSMessage::CursorMove { position } => cursor_move_post(
                    *old(self),
                    *final(self),
                    channel_id,
                    position,
                    r,
                ),
                _ => *final(self) == *old(self) && no_effects(r),
            },
            r.fanout matches Some(f) ==> !f.targets@.contains(channel_id),
    {
        match message {
            WSMessage::JoinDocument { document_id } => self.handle_join(
                channel_id,
                our_node,
                document_id,
            ),
            WSMessage::LeaveDocument { document_id } => self.handle_leave(channel_id, document_id),
            WSMessage::TextChange { position, delete, insert } => self.handle_text_change(
                channel_id,
                position,
                delete,
                insert,
            ),
            WSMessage::CursorMove { position } => self.handle_cursor_move(channel_id, position),
            _ => WsEffects { reply: None, fanout: None },
        }
    }
}

} // verus!
