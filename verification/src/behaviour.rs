//! What the node's commands, events and screen keys do, each stated over
//! the operation's inputs and results.
use vstd::prelude::*;
use crate::node::{
    discovery_actions, event_step, gossip_step, input_actions, lemma_first_match, nickname_is,
    peer_is, peer_listing, peers_unique, sidebar, ActionView, NetEventView, NodeView, PeerName,
};
use crate::text::{join_spaced, words};
use crate::wire::{gossip_meaning, join_marker, GossipView, RequestView, ResponseView};
use crate::tui::{
    bottom, fit_step, key_step, max_scroll, receive_step, ChatMessageView, Key, OutcomeView, TuiView,
};

verus! {

/// Whether an entry belongs to a peer other than `p`.
pub open spec fn other_than(p: Seq<char>) -> spec_fn(PeerName) -> bool {
    |e: PeerName| e.0 != p
}

/// The first eight chars of `p` (all of it when shorter).
pub open spec fn first_eight(p: Seq<char>) -> Seq<char> {
    p.subrange(0, if p.len() <= 8 {
        p.len() as int
    } else {
        8
    })
}

/// The peer listing has one line per entry of a peer other than `local`,
/// in table order.
proof fn lemma_listing_lines(peers: Seq<PeerName>, local: Seq<char>)
    ensures
        ({
            let others = peers.filter(other_than(local));
            let lines = peer_listing(peers, local);
            &&& lines.len() == others.len()
            &&& forall|k: int|
                0 <= k < others.len() ==> #[trigger] lines[k] == ActionView::Show(
                    "- "@ + others[k].1 + ": "@ + others[k].0,
                )
        }),
    decreases peers.len(),
{
    reveal(Seq::filter);
    if peers.len() > 0 {
        lemma_listing_lines(peers.drop_last(), local);
    }
}

/// The side panel has one line per entry of a peer other than `local`, in
/// table order.
proof fn lemma_sidebar_lines(peers: Seq<PeerName>, local: Seq<char>)
    ensures
        ({
            let others = peers.filter(other_than(local));
            let lines = sidebar(peers, local);
            &&& lines.len() == others.len()
            &&& forall|k: int|
                0 <= k < others.len() ==> #[trigger] lines[k] == others[k].1 + ": "@
                    + first_eight(others[k].0)
        }),
    decreases peers.len(),
{
    reveal(Seq::filter);
    if peers.len() > 0 {
        lemma_sidebar_lines(peers.drop_last(), local);
        let e = peers.last();
        assert(first_eight(e.0) =~= crate::node::short_id(e.0));
    }
}

/// `/list` shows a header, then `- nickname: peer` for every table entry
/// whose peer id (the whole id) differs from the node's own, in table order,
/// and nothing else. Arguments after `/list` are ignored.
pub proof fn law_list_shows_every_other_peer(node: NodeView, line: Seq<char>)
    requires
        words(line).len() >= 1,
        words(line)[0] == "/list"@,
    ensures
        ({
            let others = node.peers.filter(other_than(node.local_peer));
            let acts = input_actions(node, line);
            &&& acts.len() == 1 + others.len()
            &&& acts[0] == ActionView::Show("[SYSTEM]: Known peers:"@)
            &&& forall|k: int|
                0 <= k < others.len() ==> #[trigger] acts[k + 1] == ActionView::Show(
                    "- "@ + others[k].1 + ": "@ + others[k].0,
                )
        }),
{
    reveal_strlit("/list");
    reveal_strlit("/help");
    reveal_strlit("/chat");
    reveal_strlit("/dm");
    reveal_strlit("/getfile");
    lemma_listing_lines(node.peers, node.local_peer);
    let others = node.peers.filter(other_than(node.local_peer));
    let acts = input_actions(node, line);
    let listing = peer_listing(node.peers, node.local_peer);
    assert("/list"@ != "/help"@ && "/list"@ != "/chat"@ && "/list"@ != "/dm"@ && "/list"@
        != "/getfile"@) by {
        assert("/list"@[1] != "/help"@[1]);
        assert("/list"@[1] != "/chat"@[1]);
        assert("/list"@.len() != "/dm"@.len());
        assert("/list"@[1] != "/getfile"@[1]);
    }
    assert(acts == seq![ActionView::Show("[SYSTEM]: Known peers:"@)] + listing);
    assert forall|k: int| 0 <= k < others.len() implies #[trigger] acts[k + 1] == ActionView::Show(
        "- "@ + others[k].1 + ": "@ + others[k].0,
    ) by {
        assert(acts[k + 1] == listing[k]);
    }
}

/// The side panel lists `nickname: ` and the first eight chars of the id for
/// every table entry whose peer id differs from the node's own, in table
/// order, and nothing else.
pub proof fn law_sidebar_lists_every_other_peer(node: NodeView)
    ensures
        ({
            let others = node.peers.filter(other_than(node.local_peer));
            let lines = sidebar(node.peers, node.local_peer);
            &&& lines.len() == others.len()
            &&& forall|k: int|
                0 <= k < others.len() ==> #[trigger] lines[k] == others[k].1 + ": "@
                    + first_eight(others[k].0)
        }),
{
    lemma_sidebar_lines(node.peers, node.local_peer);
}


/// A file request is answered with the file, whoever sends it: the node is
/// unchanged and serves the named file, nothing more.
pub proof fn law_file_request_always_served(node: NodeView, peer: Seq<char>, f: Seq<char>)
    ensures
        event_step(
            node,
            NetEventView::InboundRequest { peer, request: RequestView::FileRequest(f) },
        ) == (node, seq![ActionView::ServeFile(f)]),
{
}

/// A direct message is shown and acknowledged, whoever sends it: the node
/// is unchanged; the line names the sender by its nickname when the table
/// has an entry for it, and by its peer id otherwise.
pub proof fn law_direct_message_shown_and_acknowledged(
    node: NodeView,
    peer: Seq<char>,
    m: Seq<char>,
)
    requires
        peers_unique(node.peers),
    ensures
        ({
            let (after, acts) = event_step(
                node,
                NetEventView::InboundRequest { peer, request: RequestView::DirectMessage(m) },
            );
            &&& after == node
            &&& acts.len() == 2
            &&& acts[1] == ActionView::Acknowledge
            &&& (forall|j: int| 0 <= j < node.peers.len() ==> node.peers[j].0 != peer) ==> acts[0]
                == ActionView::Show("[DM from "@ + peer + "]: "@ + m)
            &&& forall|j: int|
                0 <= j < node.peers.len() && #[trigger] node.peers[j].0 == peer ==> acts[0]
                    == ActionView::Show("[DM from "@ + node.peers[j].1 + "]: "@ + m)
        }),
{
    lemma_first_match(node.peers, peer_is(peer));
}

/// An announcement from a peer the table has no entry for adds that peer at
/// the end of the table and shows that it joined, whatever the table held.
pub proof fn law_join_from_new_peer(node: NodeView, src: Seq<char>, text: Seq<char>, nick: Seq<char>)
    requires
        gossip_meaning(text) == GossipView::Join(nick),
        forall|j: int| 0 <= j < node.peers.len() ==> node.peers[j].0 != src,
    ensures
        gossip_step(node, Some(src), text) == (
            NodeView { peers: node.peers.push((src, nick)), ..node },
            seq![ActionView::Show("[SYSTEM]: "@ + nick + " ("@ + src + ") joined the chat."@)],
        ),
{
    lemma_first_match(node.peers, peer_is(src));
}

/// An announcement from a peer the table knows at entry `i` changes that
/// entry's nickname in place and reports the change, or, when the nickname
/// is the same, changes nothing and shows nothing.
pub proof fn law_join_from_known_peer(
    node: NodeView,
    src: Seq<char>,
    text: Seq<char>,
    nick: Seq<char>,
    i: int,
)
    requires
        peers_unique(node.peers),
        gossip_meaning(text) == GossipView::Join(nick),
        0 <= i < node.peers.len(),
        node.peers[i].0 == src,
    ensures
        gossip_step(node, Some(src), text) == if node.peers[i].1 == nick {
            (node, Seq::<ActionView>::empty())
        } else {
            (
                NodeView { peers: node.peers.update(i, (src, nick)), ..node },
                seq![ActionView::Show("[SYSTEM]: Peer "@ + src + " changed nickname to "@ + nick)],
            )
        },
{
    lemma_first_match(node.peers, peer_is(src));
}

/// A chat line (text that does not begin with `JOIN `) leaves the node
/// unchanged and is shown once, under the sender's nickname when the table
/// has an entry for it, under its peer id otherwise.
pub proof fn law_chat_line_shown_under_sender(node: NodeView, src: Seq<char>, text: Seq<char>)
    requires
        peers_unique(node.peers),
        !join_marker().is_prefix_of(text),
    ensures
        ({
            let (after, acts) = gossip_step(node, Some(src), text);
            &&& after == node
            &&& acts.len() == 1
            &&& (forall|j: int| 0 <= j < node.peers.len() ==> node.peers[j].0 != src) ==> acts[0]
                == ActionView::Show("["@ + src + "]: "@ + text)
            &&& forall|j: int|
                0 <= j < node.peers.len() && #[trigger] node.peers[j].0 == src ==> acts[0]
                    == ActionView::Show("["@ + node.peers[j].1 + "]: "@ + text)
        }),
{
    lemma_first_match(node.peers, peer_is(src));
}

/// A chat-topic message that names no sender changes nothing and is shown
/// as such.
pub proof fn law_message_without_source(node: NodeView, text: Seq<char>)
    ensures
        gossip_step(node, None, text) == (
            node,
            seq![ActionView::Show("[SYSTEM]: Received message without source: "@ + text)],
        ),
{
}

/// A key the screen does not use changes nothing.
pub proof fn law_other_key_changes_nothing(st: TuiView)
    ensures
        key_step(st, Key::Other) == (st, OutcomeView::Continue),
{
}

/// No key touches the chat log. Only Enter submits, and it submits the line
/// as typed and clears it; every other key leaves the line as it was, except
/// that a char may be added at its end and Backspace removes its last char.
pub proof fn law_keys_edit_input(st: TuiView, key: Key)
    ensures
        ({
            let (after, out) = key_step(st, key);
            &&& after.messages == st.messages
            &&& (out is Submit <==> key == Key::Enter)
            &&& match key {
                Key::Enter => after.input.len() == 0 && out == OutcomeView::Submit(st.input),
                Key::Char(c) => after.input == st.input || after.input == st.input.push(c),
                Key::Backspace => after.input == (if st.input.len() > 0 {
                    st.input.drop_last()
                } else {
                    st.input
                }),
                _ => after.input == st.input,
            }
        }),
{
}


/// The command words are told apart.
proof fn lemma_commands_differ()
    ensures
        "/help"@ != "/chat"@,
        "/help"@ != "/dm"@,
        "/help"@ != "/getfile"@,
        "/help"@ != "/list"@,
        "/chat"@ != "/dm"@,
        "/chat"@ != "/getfile"@,
        "/chat"@ != "/list"@,
        "/dm"@ != "/getfile"@,
        "/dm"@ != "/list"@,
        "/getfile"@ != "/list"@,
{
    reveal_strlit("/list");
    reveal_strlit("/help");
    reveal_strlit("/chat");
    reveal_strlit("/dm");
    reveal_strlit("/getfile");
    assert("/help"@[1] != "/chat"@[1]);
    assert("/help"@.len() != "/dm"@.len());
    assert("/help"@[1] != "/getfile"@[1]);
    assert("/help"@[1] != "/list"@[1]);
    assert("/chat"@.len() != "/dm"@.len());
    assert("/chat"@[1] != "/getfile"@[1]);
    assert("/chat"@[1] != "/list"@[1]);
    assert("/dm"@.len() != "/getfile"@.len());
    assert("/dm"@.len() != "/list"@.len());
    assert("/getfile"@[1] != "/list"@[1]);
}

/// A line without words does nothing.
pub proof fn law_blank_line_does_nothing(node: NodeView, line: Seq<char>)
    requires
        words(line).len() == 0,
    ensures
        input_actions(node, line) == Seq::<ActionView>::empty(),
{
}

/// A line whose first word is no command reports it as unknown, once.
pub proof fn law_unknown_command_reported(node: NodeView, line: Seq<char>)
    requires
        words(line).len() >= 1,
        words(line)[0] != "/help"@,
        words(line)[0] != "/chat"@,
        words(line)[0] != "/dm"@,
        words(line)[0] != "/getfile"@,
        words(line)[0] != "/list"@,
    ensures
        input_actions(node, line) == seq![
            ActionView::Show("[SYSTEM]: Unknown command: "@ + words(line)[0]),
        ],
{
}

/// `/chat` publishes the words after it, joined by single spaces, and does
/// nothing else; without words it does nothing.
pub proof fn law_chat_publishes_its_words(node: NodeView, line: Seq<char>)
    requires
        words(line).len() >= 1,
        words(line)[0] == "/chat"@,
    ensures
        input_actions(node, line) == if words(line).len() > 1 {
            seq![ActionView::Publish(join_spaced(words(line).skip(1)))]
        } else {
            Seq::<ActionView>::empty()
        },
{
    lemma_commands_differ();
}

/// `/help` shows seven lines and does nothing else.
pub proof fn law_help_shows_summary(node: NodeView, line: Seq<char>)
    requires
        words(line).len() >= 1,
        words(line)[0] == "/help"@,
    ensures
        input_actions(node, line).len() == 7,
        forall|k: int| 0 <= k < 7 ==> #[trigger] input_actions(node, line)[k] is Show,
{
}

/// `/dm target w..` sends the joined words to the first table entry whose
/// nickname is `target` and echoes them, or reports that no peer has that
/// nickname; with fewer than two arguments it does nothing.
pub proof fn law_direct_message_command(node: NodeView, line: Seq<char>)
    requires
        words(line).len() >= 1,
        words(line)[0] == "/dm"@,
    ensures
        ({
            let ws = words(line);
            let acts = input_actions(node, line);
            &&& ws.len() <= 2 ==> acts.len() == 0
            &&& ws.len() > 2 ==> {
                let target = ws[1];
                let text = join_spaced(ws.skip(2));
                &&& (forall|j: int| 0 <= j < node.peers.len() ==> node.peers[j].1 != target)
                    ==> acts == seq![
                    ActionView::Show("[SYSTEM]: Nickname '"@ + target + "' not found."@),
                ]
                &&& forall|i: int|
                    0 <= i < node.peers.len() && #[trigger] node.peers[i].1 == target && (forall|
                        j: int,
                    |
                        0 <= j < i ==> node.peers[j].1 != target) ==> acts == seq![
                        ActionView::SendDirectMessage { peer: node.peers[i].0, text },
                        ActionView::Show("[DM to "@ + target + "]: "@ + text),
                    ]
            }
        }),
{
    lemma_commands_differ();
    if words(line).len() > 2 {
        lemma_first_match(node.peers, nickname_is(words(line)[1]));
    }
}

/// `/getfile target file path` asks the first table entry whose nickname is
/// `target` for `file`, to be saved at `path`, and says so, or reports that
/// no peer has that nickname; with any other number of arguments it shows
/// the usage.
pub proof fn law_getfile_command(node: NodeView, line: Seq<char>)
    requires
        words(line).len() >= 1,
        words(line)[0] == "/getfile"@,
    ensures
        ({
            let ws = words(line);
            let acts = input_actions(node, line);
            &&& ws.len() != 4 ==> acts == seq![
                ActionView::Show(
                    "[SYSTEM]: Usage: /getfile <nickname> <file_name> <local_path>"@,
                ),
            ]
            &&& ws.len() == 4 ==> {
                let target = ws[1];
                &&& (forall|j: int| 0 <= j < node.peers.len() ==> node.peers[j].1 != target)
                    ==> acts == seq![
                    ActionView::Show("[SYSTEM]: Nickname '"@ + target + "' not found."@),
                ]
                &&& forall|i: int|
                    0 <= i < node.peers.len() && #[trigger] node.peers[i].1 == target && (forall|
                        j: int,
                    |
                        0 <= j < i ==> node.peers[j].1 != target) ==> acts == seq![
                        ActionView::RequestFile {
                            peer: node.peers[i].0,
                            file_name: ws[2],
                            local_path: ws[3],
                        },
                        ActionView::Show("[SYSTEM]: Requesting '"@ + ws[2] + "' from "@ + target),
                    ]
            }
        }),
{
    lemma_commands_differ();
    if words(line).len() == 4 {
        lemma_first_match(node.peers, nickname_is(words(line)[1]));
    }
}

/// The discovery list gives, for each found peer in order, a notice naming
/// it and its address, then its registration by position.
proof fn lemma_discovery_lines(found: Seq<PeerName>)
    ensures
        ({
            let acts = discovery_actions(found);
            &&& acts.len() == 2 * found.len()
            &&& forall|k: int|
                0 <= k < found.len() ==> #[trigger] acts[2 * k] == ActionView::Show(
                    "[SYSTEM]: Discovered peer: "@ + found[k].0 + " at "@ + found[k].1,
                ) && acts[2 * k + 1] == ActionView::RegisterPeer(k as usize)
        }),
    decreases found.len(),
{
    if found.len() > 0 {
        lemma_discovery_lines(found.drop_last());
    }
}

/// Network notices: a listen address, a connection, a delivered direct
/// message and a discovery each leave the node unchanged; the first three
/// show one notice, a discovery shows each found peer and registers it by
/// its position; other events do nothing.
pub proof fn law_network_notices(node: NodeView, a: Seq<char>, id: u64, found: Seq<PeerName>)
    ensures
        event_step(node, NetEventView::ListenAddr(a)) == (
            node,
            seq![ActionView::Show("[SYSTEM]: Listening on "@ + a)],
        ),
        event_step(node, NetEventView::Connected(a)) == (
            node,
            seq![ActionView::Show("[SYSTEM]: Connected to peer: "@ + a)],
        ),
        event_step(
            node,
            NetEventView::InboundResponse { request_id: id, response: ResponseView::Ack },
        ) == (node, seq![ActionView::Show("[SYSTEM]: Direct message delivered."@)]),
        event_step(node, NetEventView::Other) == (node, Seq::<ActionView>::empty()),
        ({
            let (after, acts) = event_step(node, NetEventView::Discovered(found));
            &&& after == node
            &&& acts.len() == 2 * found.len()
            &&& forall|k: int|
                0 <= k < found.len() ==> #[trigger] acts[2 * k] == ActionView::Show(
                    "[SYSTEM]: Discovered peer: "@ + found[k].0 + " at "@ + found[k].1,
                ) && acts[2 * k + 1] == ActionView::RegisterPeer(k as usize)
        }),
{
    lemma_discovery_lines(found);
}

/// A file's bytes end the pending request they answer, and leave everything
/// else as it was: non-empty bytes are saved at the request's path and the
/// save is reported; empty bytes are reported as a missing file. Bytes that
/// answer no pending request change nothing and do nothing.
pub proof fn law_file_answer(node: NodeView, id: u64, data: Seq<u8>)
    ensures
        ({
            let (after, acts) = event_step(
                node,
                NetEventView::InboundResponse { request_id: id, response: ResponseView::FileData(data) },
            );
            &&& !node.pending.contains_key(id) ==> after == node && acts.len() == 0
            &&& node.pending.contains_key(id) ==> {
                let path = node.pending[id];
                &&& after == NodeView { pending: node.pending.remove(id), ..node }
                &&& data.len() > 0 ==> acts == seq![
                    ActionView::SaveFile { path, data },
                    ActionView::Show("[SYSTEM]: File saved to "@ + path),
                ]
                &&& data.len() == 0 ==> acts == seq![
                    ActionView::Show("[SYSTEM]: File not found or empty."@),
                ]
            }
        }),
{
}

/// A failed request is reported once and ends the pending file request it
/// was, leaving everything else as it was; the report names the peer by its
/// nickname when the table has an entry for it, by its id otherwise.
pub proof fn law_failed_request(node: NodeView, peer: Seq<char>, id: u64, error: Seq<char>)
    requires
        peers_unique(node.peers),
    ensures
        ({
            let (after, acts) = event_step(
                node,
                NetEventView::RequestFailed { peer, request_id: id, error },
            );
            let what = if node.pending.contains_key(id) {
                "[SYSTEM]: File request to "@
            } else {
                "[SYSTEM]: Direct message to "@
            };
            &&& after == NodeView { pending: node.pending.remove(id), ..node }
            &&& acts.len() == 1
            &&& (forall|j: int| 0 <= j < node.peers.len() ==> node.peers[j].0 != peer) ==> acts[0]
                == ActionView::Show(what + peer + " failed: "@ + error)
            &&& forall|j: int|
                0 <= j < node.peers.len() && #[trigger] node.peers[j].0 == peer ==> acts[0]
                    == ActionView::Show(what + node.peers[j].1 + " failed: "@ + error)
        }),
{
    lemma_first_match(node.peers, peer_is(peer));
    if !node.pending.contains_key(id) {
        assert(node.pending.remove(id) =~= node.pending);
    }
}


/// The arrow keys and the wheel move one offset by exactly one, stopping at
/// 0 and at `u16::MAX`, and touch nothing else on the screen; only `G`
/// changes whether the view follows new lines.
pub proof fn law_scroll_keys(st: TuiView, key: Key)
    ensures
        ({
            let after = key_step(st, key).0;
            &&& (key == Key::Up || key == Key::WheelUp) ==> after == TuiView {
                scroll: if st.scroll == 0 {
                    0
                } else {
                    (st.scroll - 1) as u16
                },
                ..st
            }
            &&& (key == Key::Down || key == Key::WheelDown) ==> after == TuiView {
                scroll: if st.scroll == bottom() {
                    bottom()
                } else {
                    (st.scroll + 1) as u16
                },
                ..st
            }
            &&& (key == Key::Left || key == Key::ShiftWheelUp) ==> after == TuiView {
                h_scroll: if st.h_scroll == 0 {
                    0
                } else {
                    (st.h_scroll - 1) as u16
                },
                ..st
            }
            &&& (key == Key::Right || key == Key::ShiftWheelDown) ==> after == TuiView {
                h_scroll: if st.h_scroll == bottom() {
                    bottom()
                } else {
                    (st.h_scroll + 1) as u16
                },
                ..st
            }
            &&& key != Key::Char('G') ==> after.auto_scroll == st.auto_scroll
            &&& key != Key::Char('G') && !(key == Key::Up || key == Key::WheelUp || key == Key::Down
                || key == Key::WheelDown) ==> after.scroll == st.scroll
        }),
{
}

/// A received line is added at the end of the log and nothing else in the
/// log or the input line changes; a following view jumps to the bottom, any
/// other view keeps its offset.
pub proof fn law_receive_appends(st: TuiView, m: ChatMessageView)
    ensures
        ({
            let after = receive_step(st, m);
            &&& after.messages.len() == st.messages.len() + 1
            &&& after.messages.last() == m
            &&& forall|k: int|
                0 <= k < st.messages.len() ==> #[trigger] after.messages[k] == st.messages[k]
            &&& after.input == st.input
            &&& after.h_scroll == st.h_scroll
            &&& after.auto_scroll == st.auto_scroll
            &&& after.scroll == if st.auto_scroll {
                bottom()
            } else {
                st.scroll
            }
        }),
{
}

/// Fitting never scrolls past the bottom offset and moves the offset only
/// when it is past it; afterwards the view follows new lines exactly when it
/// sits at the bottom. The log, the input and the horizontal offset stay.
pub proof fn law_fit_clamps(st: TuiView, height: u16)
    ensures
        ({
            let top = max_scroll(st.messages.len(), height);
            let after = fit_step(st, height);
            &&& after.scroll <= top
            &&& st.scroll <= top ==> after.scroll == st.scroll
            &&& st.scroll > top ==> after.scroll == top
            &&& after.auto_scroll == (after.scroll == top)
            &&& after.messages == st.messages
            &&& after.input == st.input
            &&& after.h_scroll == st.h_scroll
        }),
{
}

} // verus!
