//! The data model of the collaboration engine and its ghost views.
//!
//! Text content is held as a vector of code units (bytes); every offset in a
//! text change or cursor move is an offset into that vector.  Identities,
//! titles and colors are plain strings.  Each type has a ghost view over
//! sequences, which the contracts of the engine speak of.

use vstd::prelude::*;

verus! {

/// A shared plaintext document.  The `content` buffer is indexed by code
/// units; `participants` is the set of identities with access, with the
/// `host` always among them once the document is well formed.
pub struct Document {
    pub id: String,
    pub title: String,
    pub content: Vec<u8>,
    pub host: String,
    pub participants: Vec<String>,
    pub created_at: String,
    pub updated_at: String,
}

/// Ghost view of a [`Document`]: every field as a sequence.
#[verifier::ext_equal]
pub struct DocumentV {
    pub id: Seq<char>,
    pub title: Seq<char>,
    pub content: Seq<u8>,
    pub host: Seq<char>,
    pub participants: Seq<Seq<char>>,
    pub created_at: Seq<char>,
    pub updated_at: Seq<char>,
}

impl View for Document {
    type V = DocumentV;

    open spec fn view(&self) -> DocumentV {
        DocumentV {
            id: self.id@,
            title: self.title@,
            content: self.content@,
            host: self.host@,
            participants: self.participants.deep_view(),
            created_at: self.created_at@,
            updated_at: self.updated_at@,
        }
    }
}

impl DeepView for Document {
    type V = DocumentV;

    open spec fn deep_view(&self) -> DocumentV {
        self.view()
    }
}

/// The last known cursor of one participant in one document.
pub struct CursorPosition {
    pub user: String,
    pub position: usize,
    pub color: String,
}

/// Ghost view of a [`CursorPosition`].
#[verifier::ext_equal]
pub struct CursorPositionV {
    pub user: Seq<char>,
    pub position: usize,
    pub color: Seq<char>,
}

impl View for CursorPosition {
    type V = CursorPositionV;

    open spec fn view(&self) -> CursorPositionV {
        CursorPositionV { user: self.user@, position: self.position, color: self.color@ }
    }
}

impl DeepView for CursorPosition {
    type V = CursorPositionV;

    open spec fn deep_view(&self) -> CursorPositionV {
        self.view()
    }
}

/// What the registry knows of one live connection: who it belongs to, the
/// document it is currently joined to (if any), and its display color.
pub struct ConnectionInfo {
    pub node_id: String,
    pub document_id: Option<String>,
    pub color: String,
}

/// Ghost view of a [`ConnectionInfo`].
#[verifier::ext_equal]
pub struct ConnectionInfoV {
    pub node_id: Seq<char>,
    pub document_id: Option<Seq<char>>,
    pub color: Seq<char>,
}

impl View for ConnectionInfo {
    type V = ConnectionInfoV;

    open spec fn view(&self) -> ConnectionInfoV {
        ConnectionInfoV {
            node_id: self.node_id@,
            document_id: option_view(self.document_id),
            color: self.color@,
        }
    }
}

/// One entry of the connection registry: an opaque channel handle together
/// with what is known of the connection behind it.
pub struct Connection {
    pub channel_id: u32,
    pub info: ConnectionInfo,
}

/// One entry of the cursor tracker, keyed by (document, participant).
pub struct CursorEntry {
    pub document_id: String,
    pub cursor: CursorPosition,
}

/// Pending invitations for one identity: the documents it was invited to.
pub struct InviteEntry {
    pub node_id: String,
    pub document_ids: Vec<String>,
}

/// The tagged message union exchanged with clients.  The first four variants
/// arrive from clients; the rest are produced by the engine.  Unknown or
/// server-only variants arriving from a client are ignored.
pub enum WSMessage {
    JoinDocument { document_id: String },
    LeaveDocument { document_id: String },
    TextChange { position: usize, delete: usize, insert: Vec<u8> },
    CursorMove { position: usize },
    DocumentState { document: Document, cursors: Vec<CursorPosition> },
    UserJoined { user: String, color: String },
    UserLeft { user: String },
    TextUpdate { user: String, position: usize, delete: usize, insert: Vec<u8> },
    CursorUpdate { user: String, position: usize },
    Error { message: String },
}

/// Why a document lookup on behalf of an identity failed.
pub enum DocError {
    NotFound,
    AccessDenied,
}

/// Why an invitation could not be prepared.
pub enum InviteError {
    NotFound,
    NotHost,
}

/// What a granted invitation carries to the invited node.
pub struct InvitePayload {
    pub document_id: String,
    pub document_title: String,
    pub from: String,
}

/// The whole engine state: documents, live connections, cursors and pending
/// invitations.  All mutation is funneled through the methods of this type.
pub struct AppState {
    pub documents: Vec<Document>,
    pub active_connections: Vec<Connection>,
    pub cursors: Vec<CursorEntry>,
    pub pending_invites: Vec<InviteEntry>,
}

/// View of an optional string as an optional sequence.
pub open spec fn option_view(o: Option<String>) -> Option<Seq<char>> {
    match o {
        Option::Some(s) => Option::Some(s@),
        Option::None => Option::None,
    }
}

/// Whether a sequence of strings holds `u`, compared by contents.
pub open spec fn seq_contains_str(ps: Seq<String>, u: Seq<char>) -> bool {
    exists|i: int| 0 <= i < ps.len() && ps[i]@ == u
}

/// No two registry entries share a channel handle.
pub open spec fn unique_channels(s: Seq<Connection>) -> bool {
    forall|i: int, j: int| 0 <= i < j < s.len() ==> s[i].channel_id != s[j].channel_id
}

/// No two documents share an id.
pub open spec fn unique_doc_ids(s: Seq<Document>) -> bool {
    forall|i: int, j: int| 0 <= i < j < s.len() ==> s[i].id@ != s[j].id@
}

/// No two cursor entries share a (document, participant) key.
pub open spec fn unique_cursor_keys(s: Seq<CursorEntry>) -> bool {
    forall|i: int, j: int|
        0 <= i < j < s.len() ==> !(s[i].document_id@ == s[j].document_id@
            && s[i].cursor.user@ == s[j].cursor.user@)
}

/// No two invitation entries belong to the same identity.
pub open spec fn unique_invite_nodes(s: Seq<InviteEntry>) -> bool {
    forall|i: int, j: int| 0 <= i < j < s.len() ==> s[i].node_id@ != s[j].node_id@
}

impl Document {
    /// Whether `user` is listed among the participants.
    pub open spec fn spec_is_participant(self, user: Seq<char>) -> bool {
        seq_contains_str(self.participants@, user)
    }

    /// Whether `user` may read and edit this document.
    pub open spec fn spec_has_access(self, user: Seq<char>) -> bool {
        self.host@ == user || self.spec_is_participant(user)
    }
}

impl AppState {
    /// Well-formedness: each of the four stores is keyed uniquely.
    pub open spec fn wf(self) -> bool {
        &&& unique_doc_ids(self.documents@)
        &&& unique_channels(self.active_connections@)
        &&& unique_cursor_keys(self.cursors@)
        &&& unique_invite_nodes(self.pending_invites@)
    }

    /// A fresh engine with no documents, connections, cursors or invites.
    pub fn new() -> (r: AppState)
        ensures
            r.wf(),
            r.documents@.len() == 0,
            r.active_connections@.len() == 0,
            r.cursors@.len() == 0,
            r.pending_invites@.len() == 0,
    {
        AppState {
            documents: Vec::new(),
            active_connections: Vec::new(),
            cursors: Vec::new(),
            pending_invites: Vec::new(),
        }
    }
}

impl Default for AppState {
    fn default() -> (r: AppState)
        ensures
            r.wf(),
            r.documents@.len() == 0,
            r.active_connections@.len() == 0,
            r.cursors@.len() == 0,
            r.pending_invites@.len() == 0,
    {
        AppState::new()
    }
}

/// The display color for the connection with the given index: the palette of
/// ten colors, cycled.
pub open spec fn palette_color(i: int) -> Seq<char> {
    if i == 0 {
        "#FF6B6B"@
    } else if i == 1 {
        "#4ECDC4"@
    } else if i == 2 {
        "#45B7D1"@
    } else if i == 3 {
        "#96CEB4"@
    } else if i == 4 {
        "#FECA57"@
    } else if i == 5 {
        "#FF9FF3"@
    } else if i == 6 {
        "#54A0FF"@
    } else if i == 7 {
        "#48DBFB"@
    } else if i == 8 {
        "#A29BFE"@
    } else {
        "#FD79A8"@
    }
}

/// Assigns a display color from the ten-color palette, cycling by index.
pub fn user_color(index: usize) -> (r: String)
    ensures
        r@ == palette_color((index as int) % 10),
{
    let i: usize = index % 10;
    let s: &str = if i == 0 {
        "#FF6B6B"
    } else if i == 1 {
        "#4ECDC4"
    } else if i == 2 {
        "#45B7D1"
    } else if i == 3 {
        "#96CEB4"
    } else if i == 4 {
        "#FECA57"
    } else if i == 5 {
        "#FF9FF3"
    } else if i == 6 {
        "#54A0FF"
    } else if i == 7 {
        "#48DBFB"
    } else if i == 8 {
        "#A29BFE"
    } else {
        "#FD79A8"
    };
    s.to_owned()
}

/// Copies a vector of strings, keeping the contents of every element.
pub fn clone_strings(v: &Vec<String>) -> (r: Vec<String>)
    ensures
        r@ == v@,
{
    let mut r: Vec<String> = Vec::new();
    let mut i: usize = 0;
    while i < v.len()
        invariant
            i <= v.len(),
            r@ =~= v@.subrange(0, i as int),
        decreases v.len() - i,
    {
        r.push(v[i].clone());
        i = i + 1;
    }
    proof {
        assert(r@ =~= v@);
    }
    r
}

/// Copies a byte buffer.
pub fn clone_bytes(v: &Vec<u8>) -> (r: Vec<u8>)
    ensures
        r@ == v@,
{
    let mut r: Vec<u8> = Vec::new();
    let mut i: usize = 0;
    while i < v.len()
        invariant
            i <= v.len(),
            r@ =~= v@.subrange(0, i as int),
        decreases v.len() - i,
    {
        r.push(v[i]);
        i = i + 1;
    }
    proof {
        assert(r@ =~= v@);
    }
    r
}

/// Copies a document, keeping the view of every field.
pub fn clone_document(d: &Document) -> (r: Document)
    ensures
        r@ == d@,
{
    Document {
        id: d.id.clone(),
        title: d.title.clone(),
        content: clone_bytes(&d.content),
        host: d.host.clone(),
        participants: clone_strings(&d.participants),
        created_at: d.created_at.clone(),
        updated_at: d.updated_at.clone(),
    }
}

/// Copies a cursor, keeping the view of every field.
pub fn clone_cursor(c: &CursorPosition) -> (r: CursorPosition)
    ensures
        r@ == c@,
{
    CursorPosition { user: c.user.clone(), position: c.position, color: c.color.clone() }
}

/// Copies what the registry knows of a connection, keeping every view.
pub fn clone_conn_info(c: &ConnectionInfo) -> (r: ConnectionInfo)
    ensures
        r@ == c@,
{
    ConnectionInfo {
        node_id: c.node_id.clone(),
        document_id: match &c.document_id {
            Some(s) => Some(s.clone()),
            None => None,
        },
        color: c.color.clone(),
    }
}

/// Whether `node` occurs in `v`, compared by contents.
pub fn contains_node(v: &Vec<String>, node: &String) -> (r: bool)
    ensures
        r == seq_contains_str(v@, node@),
{
    let mut i: usize = 0;
    while i < v.len()
        invariant
            i <= v.len(),
            forall|j: int| 0 <= j < i ==> v@[j]@ != node@,
        decreases v.len() - i,
    {
        if v[i] == *node {
            return true;
        }
        i = i + 1;
    }
    false
}

/// Whether `node` may read and edit `d`.
pub fn has_access(d: &Document, node: &String) -> (r: bool)
    ensures
        r == d.spec_has_access(node@),
{
    d.host == *node || contains_node(&d.participants, node)
}

} // verus!
