use swapbytes::node::{nickname_from_input, Action, NetEvent, PublishOutcome, SwapBytesNode};
use swapbytes::wire::{
    announcement_payload, announcement_text, read_gossip, GossipText, SwapBytesRequest,
    SwapBytesResponse,
};

fn node(nick: &str) -> SwapBytesNode {
    SwapBytesNode::new(nick.to_string(), "12D3KooWLocal".to_string(), None).0
}

fn show(s: &str) -> Action {
    Action::Show(s.to_string())
}

fn gossip(source: Option<&str>, text: &str) -> NetEvent {
    NetEvent::Gossip { source: source.map(|s| s.to_string()), data: text.as_bytes().to_vec() }
}

fn learn(n: &mut SwapBytesNode, peer: &str, nick: &str) -> Vec<Action> {
    n.handle_event(gossip(Some(peer), &format!("JOIN {}", nick)))
}

#[test]
fn nickname_read_at_start() {
    assert_eq!(nickname_from_input(Some("  Alice \n".to_string())), "Alice");
    assert_eq!(nickname_from_input(None), "Anonymous");
    assert_eq!(nickname_from_input(Some(String::new())), "");
}

#[test]
fn new_node_bootstrap_notice() {
    let (_, ok) = SwapBytesNode::new("A".into(), "p".into(), None);
    assert_eq!(ok, "");
    let (mut n, failed) = SwapBytesNode::new("A".into(), "p".into(), Some("No known peers.".into()));
    assert_eq!(failed, "[SYSTEM]: Kademlia bootstrap failed: No known peers.. Relying on mDNS.");
    let notices = n.startup_notices();
    assert_eq!(notices.len(), 8);
    assert_eq!(notices[0], "[SYSTEM]: Available Commands:");
    assert_eq!(notices[7], failed);
    // The start-up notice is shown once.
    assert_eq!(n.startup_notices().len(), 7);
}

#[test]
fn announcement_bytes() {
    let n = node("Alice");
    assert_eq!(n.announce_nickname(), b"JOIN Alice".to_vec());
    assert_eq!(announcement_text("Zoë"), "JOIN Zoë");
    assert_eq!(announcement_payload("Zoë"), "JOIN Zoë".as_bytes().to_vec());
}

#[test]
fn announced_notice_once_errors_every_time() {
    let mut n = node("Alice");
    assert_eq!(
        n.announce_outcome(Err("InsufficientPeers".into())),
        Some("[SYSTEM]: Error announcing nickname: InsufficientPeers".to_string())
    );
    assert_eq!(n.announce_outcome(Ok(())), Some("[SYSTEM]: Nickname 'Alice' announced.".to_string()));
    assert_eq!(n.announce_outcome(Ok(())), None);
    assert_eq!(
        n.announce_outcome(Err("x".into())),
        Some("[SYSTEM]: Error announcing nickname: x".to_string())
    );
    assert_eq!(n.announce_outcome(Ok(())), None);
}

#[test]
fn gossip_reading() {
    assert_eq!(read_gossip("JOIN Bob"), GossipText::Join("Bob".into()));
    assert_eq!(read_gossip("JOIN JOIN Bob"), GossipText::Join("Bob".into()));
    assert_eq!(read_gossip("JOINBob"), GossipText::Chat("JOINBob".into()));
    assert_eq!(read_gossip("hello"), GossipText::Chat("hello".into()));
}

#[test]
fn join_adds_then_renames_then_ignores_repeats() {
    let mut n = node("Alice");
    assert_eq!(learn(&mut n, "PeerB", "Bob"), vec![show("[SYSTEM]: Bob (PeerB) joined the chat.")]);
    assert_eq!(learn(&mut n, "PeerB", "Bob"), vec![]);
    assert_eq!(
        learn(&mut n, "PeerB", "Robert"),
        vec![show("[SYSTEM]: Peer PeerB changed nickname to Robert")]
    );
    assert_eq!(n.peer_sidebar(), vec!["Robert: PeerB".to_string()]);
}

#[test]
fn chat_lines_from_known_and_unknown_senders() {
    let mut n = node("Alice");
    learn(&mut n, "PeerB", "Bob");
    assert_eq!(n.handle_event(gossip(Some("PeerB"), "hi all")), vec![show("[Bob]: hi all")]);
    assert_eq!(n.handle_event(gossip(Some("PeerC"), "yo")), vec![show("[PeerC]: yo")]);
    assert_eq!(
        n.handle_event(gossip(None, "anon")),
        vec![show("[SYSTEM]: Received message without source: anon")]
    );
}

#[test]
fn invalid_utf8_is_replaced() {
    let mut n = node("Alice");
    let ev = NetEvent::Gossip { source: None, data: vec![b'a', 0xff, b'b'] };
    assert_eq!(
        n.handle_event(ev),
        vec![show("[SYSTEM]: Received message without source: a\u{fffd}b")]
    );
}

#[test]
fn chat_line_reads_the_same_at_both_ends() {
    let alice = node("Alice");
    let mut bob = node("Bob");
    learn(&mut bob, "PeerA", "Alice");
    let local = alice.chat_outcome("hello there", PublishOutcome::Published).unwrap();
    let remote = bob.handle_event(gossip(Some("PeerA"), "hello there"));
    assert_eq!(remote, vec![Action::Show(local)]);
}

#[test]
fn announcement_round_trip_between_nodes() {
    let alice = node("Alice");
    let mut bob = node("Bob");
    let ev = NetEvent::Gossip { source: Some("PeerA".into()), data: alice.announce_nickname() };
    bob.handle_event(ev);
    assert_eq!(bob.peer_sidebar(), vec!["Alice: PeerA".to_string()]);
}

#[test]
fn help_command() {
    let n = node("Alice");
    let a = n.handle_input("/help");
    assert_eq!(a.len(), 7);
    assert_eq!(a[1], show("[SYSTEM]: - /chat <message> - Send a message to all peers"));
}

#[test]
fn blank_and_unknown_lines() {
    let n = node("Alice");
    assert_eq!(n.handle_input("   "), vec![]);
    assert_eq!(n.handle_input("/peers"), vec![show("[SYSTEM]: Unknown command: /peers")]);
    assert_eq!(n.handle_input("hello"), vec![show("[SYSTEM]: Unknown command: hello")]);
}

#[test]
fn chat_command_publishes_joined_words() {
    let n = node("Alice");
    assert_eq!(n.handle_input("/chat Hello   everyone"), vec![Action::Publish("Hello everyone".into())]);
    assert_eq!(n.handle_input("/chat"), vec![]);
}

#[test]
fn chat_outcomes() {
    let n = node("Bob");
    assert_eq!(
        n.chat_outcome("Hello everyone", PublishOutcome::Published),
        Some("[Bob]: Hello everyone".to_string())
    );
    assert_eq!(
        n.chat_outcome("x", PublishOutcome::InsufficientPeers),
        Some("[SYSTEM]: No peers connected yet. Please wait.".to_string())
    );
    assert_eq!(n.chat_outcome("x", PublishOutcome::Failed), None);
}

#[test]
fn direct_message_to_known_and_unknown_nickname() {
    let mut n = node("Bob");
    learn(&mut n, "PeerA", "Alice");
    assert_eq!(
        n.handle_input("/dm Alice Hi There"),
        vec![
            Action::SendDirectMessage { peer: "PeerA".into(), text: "Hi There".into() },
            show("[DM to Alice]: Hi There"),
        ]
    );
    assert_eq!(n.handle_input("/dm Carol hi"), vec![show("[SYSTEM]: Nickname 'Carol' not found.")]);
    assert_eq!(n.handle_input("/dm Alice"), vec![]);
}

#[test]
fn direct_message_goes_to_first_peer_with_nickname() {
    let mut n = node("Bob");
    learn(&mut n, "PeerA", "Sam");
    learn(&mut n, "PeerC", "Sam");
    assert_eq!(
        n.handle_input("/dm Sam yo")[0],
        Action::SendDirectMessage { peer: "PeerA".into(), text: "yo".into() }
    );
}

#[test]
fn getfile_command() {
    let mut n = node("Bob");
    learn(&mut n, "PeerA", "Alice");
    assert_eq!(
        n.handle_input("/getfile Alice notes.txt ./local_notes.txt"),
        vec![
            Action::RequestFile {
                peer: "PeerA".into(),
                file_name: "notes.txt".into(),
                local_path: "./local_notes.txt".into(),
            },
            show("[SYSTEM]: Requesting 'notes.txt' from Alice"),
        ]
    );
    assert_eq!(
        n.handle_input("/getfile Carol a b"),
        vec![show("[SYSTEM]: Nickname 'Carol' not found.")]
    );
    let usage = vec![show("[SYSTEM]: Usage: /getfile <nickname> <file_name> <local_path>")];
    assert_eq!(n.handle_input("/getfile Alice notes.txt"), usage);
    assert_eq!(n.handle_input("/getfile Alice a b c"), usage);
}

#[test]
fn list_command_skips_self() {
    let mut n = node("Bob");
    learn(&mut n, "PeerA", "Alice");
    learn(&mut n, "12D3KooWLocal", "Bob");
    learn(&mut n, "PeerC", "Carol");
    assert_eq!(
        n.handle_input("/list"),
        vec![show("[SYSTEM]: Known peers:"), show("- Alice: PeerA"), show("- Carol: PeerC")]
    );
}

#[test]
fn sidebar_shortens_ids_and_skips_self() {
    let mut n = node("Bob");
    learn(&mut n, "12D3KooWAbcdefgh", "Alice");
    learn(&mut n, "12D3KooWLocal", "Bob");
    assert_eq!(n.peer_sidebar(), vec!["Alice: 12D3KooW".to_string()]);
}

#[test]
fn network_notices() {
    let mut n = node("Bob");
    assert_eq!(
        n.handle_event(NetEvent::ListenAddr("/ip4/127.0.0.1/tcp/4001".into())),
        vec![show("[SYSTEM]: Listening on /ip4/127.0.0.1/tcp/4001")]
    );
    assert_eq!(
        n.handle_event(NetEvent::Connected("PeerA".into())),
        vec![show("[SYSTEM]: Connected to peer: PeerA")]
    );
    assert_eq!(n.handle_event(NetEvent::Other), vec![]);
    assert_eq!(
        n.handle_event(NetEvent::Discovered(vec![
            ("PeerA".into(), "/ip4/10.0.0.2/tcp/1".into()),
            ("PeerC".into(), "/ip4/10.0.0.3/tcp/2".into()),
        ])),
        vec![
            show("[SYSTEM]: Discovered peer: PeerA at /ip4/10.0.0.2/tcp/1"),
            Action::RegisterPeer(0),
            show("[SYSTEM]: Discovered peer: PeerC at /ip4/10.0.0.3/tcp/2"),
            Action::RegisterPeer(1),
        ]
    );
}

#[test]
fn inbound_requests() {
    let mut n = node("Alice");
    learn(&mut n, "PeerB", "Bob");
    assert_eq!(
        n.handle_event(NetEvent::InboundRequest {
            peer: "PeerB".into(),
            request: SwapBytesRequest::DirectMessage("Hi There".into()),
        }),
        vec![show("[DM from Bob]: Hi There"), Action::Acknowledge]
    );
    assert_eq!(
        n.handle_event(NetEvent::InboundRequest {
            peer: "PeerZ".into(),
            request: SwapBytesRequest::DirectMessage("psst".into()),
        }),
        vec![show("[DM from PeerZ]: psst"), Action::Acknowledge]
    );
    assert_eq!(
        n.handle_event(NetEvent::InboundRequest {
            peer: "PeerB".into(),
            request: SwapBytesRequest::FileRequest("notes.txt".into()),
        }),
        vec![Action::ServeFile("notes.txt".into())]
    );
}

#[test]
fn ack_response() {
    let mut n = node("Bob");
    assert_eq!(
        n.handle_event(NetEvent::InboundResponse { request_id: 9, response: SwapBytesResponse::Ack }),
        vec![show("[SYSTEM]: Direct message delivered.")]
    );
}

#[test]
fn file_answer_saved_once() {
    let mut n = node("Bob");
    n.track_file_request(3, "./local_notes.txt".into());
    let answer = || NetEvent::InboundResponse {
        request_id: 3,
        response: SwapBytesResponse::FileData(vec![1, 2, 3]),
    };
    assert_eq!(
        n.handle_event(answer()),
        vec![
            Action::SaveFile { path: "./local_notes.txt".into(), data: vec![1, 2, 3] },
            show("[SYSTEM]: File saved to ./local_notes.txt"),
        ]
    );
    assert_eq!(n.handle_event(answer()), vec![]);
}

#[test]
fn empty_file_answer_reports_missing_file() {
    let mut n = node("Bob");
    n.track_file_request(4, "./x".into());
    let empty = || NetEvent::InboundResponse {
        request_id: 4,
        response: SwapBytesResponse::FileData(vec![]),
    };
    assert_eq!(n.handle_event(empty()), vec![show("[SYSTEM]: File not found or empty.")]);
    assert_eq!(n.handle_event(empty()), vec![]);
}

#[test]
fn unrequested_file_answer_ignored() {
    let mut n = node("Bob");
    n.track_file_request(5, "./a".into());
    assert_eq!(
        n.handle_event(NetEvent::InboundResponse {
            request_id: 6,
            response: SwapBytesResponse::FileData(vec![7]),
        }),
        vec![]
    );
    // The tracked request is still pending.
    assert_eq!(
        n.handle_event(NetEvent::InboundResponse {
            request_id: 5,
            response: SwapBytesResponse::FileData(vec![7]),
        })
        .len(),
        2
    );
}

#[test]
fn response_names() {
    assert_eq!(SwapBytesResponse::Ack.name(), "Ack");
    assert_eq!(SwapBytesResponse::FileData(vec![1]).name(), "FileData");
}

#[test]
fn node_accessors() {
    let n = node("Alice");
    assert_eq!(n.nickname(), "Alice");
    assert_eq!(n.local_peer(), "12D3KooWLocal");
}

#[test]
fn scenario_chat_between_two_nodes() {
    let mut alice = node("Alice");
    let bob = node("Bob");
    learn(&mut alice, "PeerB", "Bob");
    let published = match &bob.handle_input("/chat Hello everyone")[0] {
        Action::Publish(text) => text.clone(),
        other => panic!("unexpected {:?}", other),
    };
    assert_eq!(
        bob.chat_outcome(&published, PublishOutcome::Published),
        Some("[Bob]: Hello everyone".to_string())
    );
    assert_eq!(
        alice.handle_event(gossip(Some("PeerB"), &published)),
        vec![show("[Bob]: Hello everyone")]
    );
}

#[test]
fn scenario_direct_message_between_two_nodes() {
    let mut alice = node("Alice");
    let mut bob = node("Bob");
    learn(&mut alice, "PeerB", "Bob");
    learn(&mut bob, "PeerA", "Alice");
    let sent = bob.handle_input("/dm Alice Hi There");
    let text = match &sent[0] {
        Action::SendDirectMessage { peer, text } => {
            assert_eq!(peer, "PeerA");
            text.clone()
        }
        other => panic!("unexpected {:?}", other),
    };
    let at_alice = alice.handle_event(NetEvent::InboundRequest {
        peer: "PeerB".into(),
        request: SwapBytesRequest::DirectMessage(text),
    });
    assert_eq!(at_alice, vec![show("[DM from Bob]: Hi There"), Action::Acknowledge]);
    assert_eq!(
        bob.handle_event(NetEvent::InboundResponse { request_id: 1, response: SwapBytesResponse::Ack }),
        vec![show("[SYSTEM]: Direct message delivered.")]
    );
}

#[test]
fn scenario_file_swap_between_two_nodes() {
    let mut alice = node("Alice");
    let mut bob = node("Bob");
    learn(&mut alice, "PeerB", "Bob");
    learn(&mut bob, "PeerA", "Alice");
    let asked = bob.handle_input("/getfile Alice notes.txt ./local_notes.txt");
    let (file_name, local_path) = match &asked[0] {
        Action::RequestFile { peer, file_name, local_path } => {
            assert_eq!(peer, "PeerA");
            (file_name.clone(), local_path.clone())
        }
        other => panic!("unexpected {:?}", other),
    };
    bob.track_file_request(1, local_path);
    let served = alice.handle_event(NetEvent::InboundRequest {
        peer: "PeerB".into(),
        request: SwapBytesRequest::FileRequest(file_name),
    });
    assert_eq!(served, vec![Action::ServeFile("notes.txt".into())]);
    let saved = bob.handle_event(NetEvent::InboundResponse {
        request_id: 1,
        response: SwapBytesResponse::FileData(b"my notes".to_vec()),
    });
    assert_eq!(
        saved,
        vec![
            Action::SaveFile { path: "./local_notes.txt".into(), data: b"my notes".to_vec() },
            show("[SYSTEM]: File saved to ./local_notes.txt"),
        ]
    );
}

#[test]
fn failed_file_request_is_reported_and_dropped() {
    let mut n = node("Bob");
    learn(&mut n, "PeerA", "Alice");
    n.track_file_request(7, "./x".into());
    assert_eq!(
        n.handle_event(NetEvent::RequestFailed {
            peer: "PeerA".into(),
            request_id: 7,
            error: "Timeout".into(),
        }),
        vec![show("[SYSTEM]: File request to Alice failed: Timeout")]
    );
    assert_eq!(
        n.handle_event(NetEvent::InboundResponse {
            request_id: 7,
            response: SwapBytesResponse::FileData(vec![1]),
        }),
        vec![]
    );
}

#[test]
fn failed_direct_message_is_reported() {
    let mut n = node("Bob");
    assert_eq!(
        n.handle_event(NetEvent::RequestFailed {
            peer: "PeerZ".into(),
            request_id: 2,
            error: "Failed to dial the requested peer".into(),
        }),
        vec![show("[SYSTEM]: Direct message to PeerZ failed: Failed to dial the requested peer")]
    );
}
