use collab_editor::{AppState, DocError, InviteError, WSMessage};

fn setup_doc(state: &mut AppState, host: &str, title: &str) -> String {
    let doc = state.create_document(title.to_string(), host.to_string());
    doc.id
}

#[test]
fn create_document_initializes_fields() {
    let mut state = AppState::new();
    let doc = state.create_document("Notes".to_string(), "alice.os".to_string());
    assert_eq!(doc.title, "Notes");
    assert_eq!(doc.host, "alice.os");
    assert!(doc.content.is_empty());
    assert_eq!(doc.participants, vec!["alice.os".to_string()]);
    assert_eq!(doc.created_at, doc.updated_at);
}

#[test]
fn get_document_checks_existence_and_access() {
    let mut state = AppState::new();
    let alice = "alice.os".to_string();
    let bob = "bob.os".to_string();
    let id = setup_doc(&mut state, &alice, "Notes");
    assert!(matches!(state.get_document(&"nope".to_string(), &alice), Err(DocError::NotFound)));
    assert!(matches!(state.get_document(&id, &bob), Err(DocError::AccessDenied)));
    match state.get_document(&id, &alice) {
        Ok(d) => assert_eq!(d.id, id),
        Err(_) => panic!("host must have access"),
    }
}

#[test]
fn get_documents_lists_only_accessible() {
    let mut state = AppState::new();
    let alice = "alice.os".to_string();
    let bob = "bob.os".to_string();
    let mine = setup_doc(&mut state, &alice, "Mine");
    let theirs = setup_doc(&mut state, &bob, "Theirs");
    let docs = state.get_documents(&alice);
    assert_eq!(docs.len(), 1);
    assert_eq!(docs[0].id, mine);
    let docs = state.get_documents(&bob);
    assert_eq!(docs.len(), 1);
    assert_eq!(docs[0].id, theirs);
}

#[test]
fn join_hydrates_only_the_joiner() {
    let mut state = AppState::new();
    let alice = "alice.os".to_string();
    let id = setup_doc(&mut state, &alice, "Notes");
    let fx = state.handle_ws_message(1, &alice, WSMessage::JoinDocument { document_id: id.clone() });
    match fx.reply {
        Some(WSMessage::DocumentState { document, cursors }) => {
            assert_eq!(document.id, id);
            assert_eq!(document.title, "Notes");
            assert!(cursors.is_empty());
        },
        _ => panic!("joiner must receive the document state"),
    }
    // the join notification goes out, but nobody else is joined yet
    let fanout = fx.fanout.expect("a join is announced");
    match fanout.message {
        WSMessage::UserJoined { user, color } => {
            assert_eq!(user, alice);
            assert_eq!(color, "#FF6B6B");
        },
        _ => panic!("the announcement is a UserJoined"),
    }
    assert!(fanout.targets.is_empty());
}

#[test]
fn join_snapshot_carries_existing_cursors() {
    let mut state = AppState::new();
    let alice = "alice.os".to_string();
    let bob = "bob.os".to_string();
    let id = setup_doc(&mut state, &alice, "Notes");
    assert!(state.send_invite(&id, bob.clone(), &alice).is_ok());
    state.handle_ws_message(1, &alice, WSMessage::JoinDocument { document_id: id.clone() });
    state.handle_ws_message(1, &alice, WSMessage::CursorMove { position: 3 });
    let fx = state.handle_ws_message(2, &bob, WSMessage::JoinDocument { document_id: id.clone() });
    match fx.reply {
        Some(WSMessage::DocumentState { cursors, .. }) => {
            assert_eq!(cursors.len(), 1);
            assert_eq!(cursors[0].user, alice);
            assert_eq!(cursors[0].position, 3);
            assert_eq!(cursors[0].color, "#FF6B6B");
        },
        _ => panic!("joiner must receive the document state"),
    }
    // and the join is announced to the other connection only
    assert_eq!(fx.fanout.expect("announced").targets, vec![1]);
}

#[test]
fn unauthorized_join_registers_but_stays_silent() {
    let mut state = AppState::new();
    let alice = "alice.os".to_string();
    let carol = "carol.os".to_string();
    let id = setup_doc(&mut state, &alice, "Notes");
    let fx = state.handle_ws_message(7, &carol, WSMessage::JoinDocument { document_id: id.clone() });
    // no state, no announcement, no error: silence
    assert!(fx.reply.is_none());
    assert!(fx.fanout.is_none());
    // yet the connection mapping was recorded
    let info = state.lookup_connection(7).expect("connection is registered");
    assert_eq!(info.node_id, carol);
    assert_eq!(info.document_id, Some(id));
}

#[test]
fn text_change_updates_content_and_excludes_sender() {
    let mut state = AppState::new();
    let alice = "alice.os".to_string();
    let bob = "bob.os".to_string();
    let id = setup_doc(&mut state, &alice, "Notes");
    assert!(state.send_invite(&id, bob.clone(), &alice).is_ok());
    state.handle_ws_message(1, &alice, WSMessage::JoinDocument { document_id: id.clone() });
    state.handle_ws_message(2, &bob, WSMessage::JoinDocument { document_id: id.clone() });
    let fx = state.handle_ws_message(
        1,
        &alice,
        WSMessage::TextChange { position: 0, delete: 0, insert: b"hello".to_vec() },
    );
    let fanout = fx.fanout.expect("edits are broadcast");
    // the sender never receives its own broadcast
    assert_eq!(fanout.targets, vec![2]);
    match fanout.message {
        WSMessage::TextUpdate { user, position, delete, insert } => {
            assert_eq!(user, alice);
            assert_eq!(position, 0);
            assert_eq!(delete, 0);
            assert_eq!(insert, b"hello".to_vec());
        },
        _ => panic!("the broadcast is a TextUpdate"),
    }
    match state.get_document(&id, &alice) {
        Ok(d) => assert_eq!(d.content, b"hello".to_vec()),
        Err(_) => panic!("document must still be there"),
    }
}

#[test]
fn text_change_beyond_end_is_dropped() {
    let mut state = AppState::new();
    let alice = "alice.os".to_string();
    let id = setup_doc(&mut state, &alice, "Notes");
    state.handle_ws_message(1, &alice, WSMessage::JoinDocument { document_id: id.clone() });
    state.handle_ws_message(
        1,
        &alice,
        WSMessage::TextChange { position: 0, delete: 0, insert: b"hello".to_vec() },
    );
    // position is len(content) + 1: the whole change is dropped
    state.handle_ws_message(
        1,
        &alice,
        WSMessage::TextChange { position: 6, delete: 0, insert: b"x".to_vec() },
    );
    match state.get_document(&id, &alice) {
        Ok(d) => assert_eq!(d.content, b"hello".to_vec()),
        Err(_) => panic!("document must still be there"),
    }
}

#[test]
fn unjoined_messages_are_dropped() {
    let mut state = AppState::new();
    let alice = "alice.os".to_string();
    let id = setup_doc(&mut state, &alice, "Notes");
    state.handle_ws_message(1, &alice, WSMessage::JoinDocument { document_id: id.clone() });
    // channel 9 never joined anything
    let fx = state.handle_ws_message(
        9,
        &alice,
        WSMessage::TextChange { position: 0, delete: 0, insert: b"zzz".to_vec() },
    );
    assert!(fx.reply.is_none());
    assert!(fx.fanout.is_none());
    let fx = state.handle_ws_message(9, &alice, WSMessage::CursorMove { position: 1 });
    assert!(fx.reply.is_none());
    assert!(fx.fanout.is_none());
    match state.get_document(&id, &alice) {
        Ok(d) => assert!(d.content.is_empty()),
        Err(_) => panic!("document must still be there"),
    }
    assert!(state.cursor_snapshot(&id).is_empty());
}

#[test]
fn cursor_move_tracks_and_broadcasts() {
    let mut state = AppState::new();
    let alice = "alice.os".to_string();
    let bob = "bob.os".to_string();
    let id = setup_doc(&mut state, &alice, "Notes");
    assert!(state.send_invite(&id, bob.clone(), &alice).is_ok());
    state.handle_ws_message(1, &alice, WSMessage::JoinDocument { document_id: id.clone() });
    state.handle_ws_message(2, &bob, WSMessage::JoinDocument { document_id: id.clone() });
    let fx = state.handle_ws_message(2, &bob, WSMessage::CursorMove { position: 4 });
    let fanout = fx.fanout.expect("cursor moves are broadcast");
    assert_eq!(fanout.targets, vec![1]);
    match fanout.message {
        WSMessage::CursorUpdate { user, position } => {
            assert_eq!(user, bob);
            assert_eq!(position, 4);
        },
        _ => panic!("the broadcast is a CursorUpdate"),
    }
    // moving again overwrites rather than duplicating
    state.handle_ws_message(2, &bob, WSMessage::CursorMove { position: 7 });
    let snap = state.cursor_snapshot(&id);
    assert_eq!(snap.len(), 1);
    assert_eq!(snap[0].position, 7);
    assert_eq!(snap[0].color, "#4ECDC4");
}

#[test]
fn leave_cleans_cursor_and_notifies_others() {
    let mut state = AppState::new();
    let alice = "alice.os".to_string();
    let bob = "bob.os".to_string();
    let id = setup_doc(&mut state, &alice, "Notes");
    assert!(state.send_invite(&id, bob.clone(), &alice).is_ok());
    state.handle_ws_message(1, &alice, WSMessage::JoinDocument { document_id: id.clone() });
    state.handle_ws_message(2, &bob, WSMessage::JoinDocument { document_id: id.clone() });
    state.handle_ws_message(2, &bob, WSMessage::CursorMove { position: 4 });
    let fx = state.handle_ws_message(2, &bob, WSMessage::LeaveDocument { document_id: id.clone() });
    let fanout = fx.fanout.expect("leaves are announced");
    assert_eq!(fanout.targets, vec![1]);
    match fanout.message {
        WSMessage::UserLeft { user } => assert_eq!(user, bob),
        _ => panic!("the announcement is a UserLeft"),
    }
    // the cursor entry is gone, but the connection can rejoin
    assert!(state.cursor_snapshot(&id).is_empty());
    let info = state.lookup_connection(2).expect("still registered");
    assert_eq!(info.document_id, None);
}

#[test]
fn leave_always_clears_the_join_even_for_another_document() {
    let mut state = AppState::new();
    let alice = "alice.os".to_string();
    let id = setup_doc(&mut state, &alice, "Notes");
    state.handle_ws_message(1, &alice, WSMessage::JoinDocument { document_id: id.clone() });
    state.handle_ws_message(1, &alice, WSMessage::CursorMove { position: 2 });
    // the leave names a different document: the cursor on the joined one
    // stays, yet the connection is joined to nothing afterwards
    let fx = state.handle_ws_message(
        1,
        &alice,
        WSMessage::LeaveDocument { document_id: "other".to_string() },
    );
    assert!(fx.fanout.expect("announced").targets.is_empty());
    assert_eq!(state.cursor_snapshot(&id).len(), 1);
    let info = state.lookup_connection(1).expect("still registered");
    assert_eq!(info.document_id, None);
}

#[test]
fn disconnect_removes_connection_and_cursor() {
    let mut state = AppState::new();
    let alice = "alice.os".to_string();
    let bob = "bob.os".to_string();
    let id = setup_doc(&mut state, &alice, "Notes");
    assert!(state.send_invite(&id, bob.clone(), &alice).is_ok());
    state.handle_ws_message(1, &alice, WSMessage::JoinDocument { document_id: id.clone() });
    state.handle_ws_message(2, &bob, WSMessage::JoinDocument { document_id: id.clone() });
    state.handle_ws_message(2, &bob, WSMessage::CursorMove { position: 4 });
    let fx = state.handle_disconnect(2);
    let fanout = fx.fanout.expect("disconnects are announced");
    assert_eq!(fanout.targets, vec![1]);
    match fanout.message {
        WSMessage::UserLeft { user } => assert_eq!(user, bob),
        _ => panic!("the announcement is a UserLeft"),
    }
    assert!(state.lookup_connection(2).is_none());
    assert!(state.cursor_snapshot(&id).is_empty());
}

#[test]
fn disconnect_of_unjoined_connection_is_silent() {
    let mut state = AppState::new();
    let fx = state.handle_disconnect(42);
    assert!(fx.reply.is_none());
    assert!(fx.fanout.is_none());
}

#[test]
fn server_kinds_from_clients_are_ignored() {
    let mut state = AppState::new();
    let alice = "alice.os".to_string();
    let fx = state.handle_ws_message(1, &alice, WSMessage::UserLeft { user: alice.clone() });
    assert!(fx.reply.is_none());
    assert!(fx.fanout.is_none());
    assert!(state.lookup_connection(1).is_none());
}

#[test]
fn eleventh_connection_repeats_first_color() {
    let mut state = AppState::new();
    let alice = "alice.os".to_string();
    let id = setup_doc(&mut state, &alice, "Notes");
    for ch in 0u32..10 {
        state.handle_ws_message(ch, &alice, WSMessage::JoinDocument { document_id: id.clone() });
    }
    let fx = state.handle_ws_message(10, &alice, WSMessage::JoinDocument { document_id: id.clone() });
    match fx.fanout.expect("announced").message {
        WSMessage::UserJoined { color, .. } => assert_eq!(color, "#FF6B6B"),
        _ => panic!("the announcement is a UserJoined"),
    }
}

#[test]
fn invite_grants_access_and_builds_payload() {
    let mut state = AppState::new();
    let alice = "alice.os".to_string();
    let bob = "bob.os".to_string();
    let id = setup_doc(&mut state, &alice, "Notes");
    match state.send_invite(&id, bob.clone(), &alice) {
        Ok(p) => {
            assert_eq!(p.document_id, id);
            assert_eq!(p.document_title, "Notes");
            assert_eq!(p.from, alice);
        },
        Err(_) => panic!("the host may invite"),
    }
    // idempotent: a second invite does not duplicate the participant
    assert!(state.send_invite(&id, bob.clone(), &alice).is_ok());
    match state.get_document(&id, &bob) {
        Ok(d) => assert_eq!(d.participants, vec![alice.clone(), bob.clone()]),
        Err(_) => panic!("the invited node has access"),
    }
}

#[test]
fn add_participant_is_idempotent() {
    let mut state = AppState::new();
    let alice = "alice.os".to_string();
    let bob = "bob.os".to_string();
    let id = setup_doc(&mut state, &alice, "Notes");
    state.add_participant(&id, bob.clone());
    state.add_participant(&id, bob.clone());
    match state.get_document(&id, &bob) {
        Ok(d) => assert_eq!(d.participants, vec![alice.clone(), bob.clone()]),
        Err(_) => panic!("granted access"),
    }
    // unknown document: a silent no-op
    state.add_participant(&"nope".to_string(), bob.clone());
    assert_eq!(state.get_documents(&alice).len(), 1);
}

#[test]
fn invite_errors_are_exact() {
    let mut state = AppState::new();
    let alice = "alice.os".to_string();
    let bob = "bob.os".to_string();
    let id = setup_doc(&mut state, &alice, "Notes");
    assert!(matches!(
        state.send_invite(&"nope".to_string(), bob.clone(), &alice),
        Err(InviteError::NotFound)
    ));
    assert!(matches!(state.send_invite(&id, alice.clone(), &bob), Err(InviteError::NotHost)));
}

#[test]
fn received_invites_accumulate() {
    let mut state = AppState::new();
    let bob = "bob.os".to_string();
    assert!(state.get_invites(&bob).is_empty());
    state.receive_invite(bob.clone(), "doc-1".to_string());
    state.receive_invite(bob.clone(), "doc-2".to_string());
    assert_eq!(state.get_invites(&bob), vec!["doc-1".to_string(), "doc-2".to_string()]);
    assert!(state.get_invites(&"alice.os".to_string()).is_empty());
}

#[test]
fn rejoin_replaces_connection_mapping() {
    let mut state = AppState::new();
    let alice = "alice.os".to_string();
    let first = setup_doc(&mut state, &alice, "First");
    let second = setup_doc(&mut state, &alice, "Second");
    state.handle_ws_message(1, &alice, WSMessage::JoinDocument { document_id: first.clone() });
    state.handle_ws_message(1, &alice, WSMessage::JoinDocument { document_id: second.clone() });
    let info = state.lookup_connection(1).expect("registered");
    assert_eq!(info.document_id, Some(second));
}
