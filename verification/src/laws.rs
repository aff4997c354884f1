//! Properties of the node that span several of its operations.
use vstd::prelude::*;
use crate::node::{
    announce_step, chat_notice, event_step, gossip_step, input_actions, lemma_first_match,
    nickname_is, nickname_map, nickname_position, peer_is, peer_position, peers_unique, ActionView,
    NetEventView, NodeView, PeerName, PublishOutcome,
};
use crate::tui::{
    bottom, fit_step, key_step, max_scroll, receive_step, styled, ChatMessageView, Key, TuiView,
};
use crate::wire::ResponseView;
use crate::text::{decimal, digit, join_spaced, strip_repeated, words};
use crate::wire::{announcement, gossip_meaning, join_marker, GossipView};
use vstd::utf8::{decode_utf8, encode_utf8, encode_utf8_decode_utf8};

verus! {

/// A nickname that does not itself begin with `JOIN ` reads back unchanged
/// from its announcement, and the announcement's UTF-8 bytes decode to it.
pub proof fn lemma_announcement_reads_back(nickname: Seq<char>)
    requires
        !join_marker().is_prefix_of(nickname),
    ensures
        decode_utf8(encode_utf8(announcement(nickname))) == announcement(nickname),
        gossip_meaning(announcement(nickname)) == GossipView::Join(nickname),
{
    reveal_strlit("JOIN ");
    encode_utf8_decode_utf8(announcement(nickname));
    let a = announcement(nickname);
    assert(join_marker().is_prefix_of(a));
    assert(a.skip(join_marker().len() as int) =~= nickname);
    assert(strip_repeated(nickname, join_marker()) == nickname);
}

/// The nickname table, read as a map, gains or replaces exactly the
/// announced entry; every other peer keeps its nickname.
proof fn lemma_nickname_map_update(peers: Seq<PeerName>, i: int, nick: Seq<char>)
    requires
        peers_unique(peers),
        0 <= i < peers.len(),
    ensures
        nickname_map(peers.update(i, (peers[i].0, nick))) == nickname_map(peers).insert(
            peers[i].0,
            nick,
        ),
    decreases peers.len(),
{
    let src = peers[i].0;
    let upd = peers.update(i, (src, nick));
    if i == peers.len() - 1 {
        assert(upd.drop_last() =~= peers.drop_last());
        assert(nickname_map(upd) =~= nickname_map(peers).insert(src, nick));
    } else {
        assert(upd.drop_last() =~= peers.drop_last().update(i, (src, nick)));
        lemma_nickname_map_update(peers.drop_last(), i, nick);
        assert(peers.last().0 != src);
        assert(nickname_map(upd) =~= nickname_map(peers).insert(src, nick));
    }
}

/// A peer has an entry exactly when the map has it as a key, with the same nickname.
proof fn lemma_nickname_map_lookup(peers: Seq<PeerName>, p: Seq<char>)
    requires
        peers_unique(peers),
    ensures
        match peer_position(peers, p) {
            Some(i) => nickname_map(peers).contains_key(p) && nickname_map(peers)[p]
                == peers[i].1,
            None => !nickname_map(peers).contains_key(p),
        },
    decreases peers.len(),
{
    lemma_first_match(peers, peer_is(p));
    if peers.len() > 0 {
        let dl = peers.drop_last();
        lemma_nickname_map_lookup(dl, p);
        lemma_first_match(dl, peer_is(p));
        assert forall|j: int| 0 <= j < dl.len() implies dl[j] == peers[j] by {}
    }
}

/// An announcement from `src` records its nickname: read as a map from peer
/// to nickname, the table after it is the table before with `src` mapped
/// to the announced nickname, and no peer has two entries.
pub proof fn lemma_announcement_records_nickname(
    node: NodeView,
    src: Seq<char>,
    text: Seq<char>,
    nick: Seq<char>,
)
    requires
        peers_unique(node.peers),
        gossip_meaning(text) == GossipView::Join(nick),
    ensures
        nickname_map(gossip_step(node, Some(src), text).0.peers) == nickname_map(node.peers).insert(
            src,
            nick,
        ),
        peers_unique(gossip_step(node, Some(src), text).0.peers),
{
    lemma_first_match(node.peers, peer_is(src));
    lemma_nickname_map_lookup(node.peers, src);
    match peer_position(node.peers, src) {
        Some(i) => {
            lemma_nickname_map_update(node.peers, i, nick);
            if node.peers[i].1 == nick {
                assert(node.peers.update(i, (src, nick)) =~= node.peers);
                assert(nickname_map(node.peers).insert(src, nick) =~= nickname_map(node.peers));
            }
        },
        None => {
            assert(node.peers.push((src, nick)).drop_last() =~= node.peers);
        },
    }
}

/// What one node announces, another records: when a receiver gets the
/// announcement bytes of a sender's nickname (one that does not begin with
/// `JOIN `) from peer `src`, its table maps `src` to that nickname.
pub proof fn lemma_announcement_round_trip(sender: NodeView, receiver: NodeView, src: Seq<char>)
    requires
        peers_unique(receiver.peers),
        !join_marker().is_prefix_of(sender.nickname),
    ensures
        ({
            let bytes = encode_utf8(announcement(sender.nickname));
            let after = gossip_step(receiver, Some(src), decode_utf8(bytes)).0;
            &&& nickname_map(after.peers).contains_key(src)
            &&& nickname_map(after.peers)[src] == sender.nickname
        }),
{
    lemma_announcement_reads_back(sender.nickname);
    lemma_announcement_records_nickname(
        receiver,
        src,
        announcement(sender.nickname),
        sender.nickname,
    );
}


/// A chat line reads the same at both ends: when the receiver knows the
/// sender's peer by the sender's nickname, the line the receiver shows for
/// the sender's chat text is the line the sender shows once it is published.
/// (Text that begins with `JOIN ` is read as an announcement instead.)
pub proof fn lemma_chat_line_matches(
    sender: NodeView,
    receiver: NodeView,
    src: Seq<char>,
    text: Seq<char>,
)
    requires
        peers_unique(receiver.peers),
        nickname_map(receiver.peers).contains_key(src),
        nickname_map(receiver.peers)[src] == sender.nickname,
        !join_marker().is_prefix_of(text),
    ensures
        chat_notice(sender, text, PublishOutcome::Published) is Some,
        gossip_step(receiver, Some(src), text) == (
            receiver,
            seq![ActionView::Show(chat_notice(sender, text, PublishOutcome::Published)->0)],
        ),
{
    lemma_nickname_map_lookup(receiver.peers, src);
}

/// A direct message to a nickname goes to the peer that announced it: once
/// `src` has announced `nick` and no other known peer goes by `nick`, the
/// line `/dm nick w..` sends the words, joined by single spaces, to `src`.
pub proof fn lemma_direct_message_reaches_announcer(
    node: NodeView,
    src: Seq<char>,
    text: Seq<char>,
    nick: Seq<char>,
    line: Seq<char>,
    body: Seq<Seq<char>>,
)
    requires
        peers_unique(node.peers),
        gossip_meaning(text) == GossipView::Join(nick),
        forall|j: int| 0 <= j < node.peers.len() && node.peers[j].0 != src ==> node.peers[j].1 != nick,
        words(line) == seq!["/dm"@, nick] + body,
        body.len() > 0,
    ensures
        ({
            let after = gossip_step(node, Some(src), text).0;
            let acts = input_actions(after, line);
            acts.len() == 2 && acts[0] == ActionView::SendDirectMessage {
                peer: src,
                text: join_spaced(body),
            }
        }),
{
    reveal_strlit("/dm");
    reveal_strlit("/help");
    reveal_strlit("/chat");
    let after = gossip_step(node, Some(src), text).0;
    let parts = words(line);
    assert(parts[0] == "/dm"@);
    assert(parts[1] == nick);
    assert(parts.skip(2) =~= body);
    lemma_first_match(node.peers, peer_is(src));
    let ps = after.peers;
    // Every entry that carries `nick` belongs to `src`, and one does.
    let k: int = match peer_position(node.peers, src) {
        Some(i) => i,
        None => node.peers.len() as int,
    };
    assert(ps[k] == (src, nick));
    assert(nickname_is(nick)(ps[k]));
    lemma_first_match(ps, nickname_is(nick));
    match nickname_position(ps, nick) {
        Some(m) => {
            if m != k {
                assert(ps[m] == node.peers[m]);
            }
        },
        None => {},
    }
}

/// A file's bytes are saved once: after a request is recorded with its local
/// path, non-empty bytes answering it are saved at that path and end the
/// request; the same answer arriving again is ignored.
pub proof fn lemma_file_answer_saved_once(node: NodeView, id: u64, path: Seq<char>, data: Seq<u8>)
    requires
        data.len() > 0,
    ensures
        ({
            let tracked_node = NodeView { pending: node.pending.insert(id, path), ..node };
            let ev = NetEventView::InboundResponse {
                request_id: id,
                response: ResponseView::FileData(data),
            };
            let (after, acts) = event_step(tracked_node, ev);
            &&& acts == seq![
                ActionView::SaveFile { path, data },
                ActionView::Show("[SYSTEM]: File saved to "@ + path),
            ]
            &&& after.pending == node.pending.remove(id)
            &&& event_step(after, ev) == (after, Seq::<ActionView>::empty())
        }),
{
    assert(node.pending.insert(id, path).remove(id) =~= node.pending.remove(id));
}

/// The nickname is reported as announced once: the first successful
/// announcement reports it (unless one already had), every later one is
/// silent, and failed announcements leave the flag as it was.
pub proof fn lemma_nickname_announced_once(node: NodeView, error: Seq<char>)
    ensures
        ({
            let (first, flag) = announce_step(node, Ok(()));
            let again = announce_step(NodeView { nickname_announced: flag, ..node }, Ok(()));
            &&& (first is Some <==> !node.nickname_announced)
            &&& flag
            &&& again == (None::<Seq<char>>, true)
        }),
        announce_step(node, Err(error)).1 == node.nickname_announced,
{
}

/// Fitting the view twice to the same pane is fitting it once.
pub proof fn lemma_fit_idempotent(st: TuiView, height: u16)
    ensures
        fit_step(fit_step(st, height), height) == fit_step(st, height),
{
}

/// A view that follows new lines keeps showing the newest one: after a line
/// arrives and the view is fitted, it is at the bottom offset and still follows.
pub proof fn lemma_following_view_shows_newest(st: TuiView, m: ChatMessageView, height: u16)
    requires
        st.auto_scroll,
    ensures
        ({
            let after = fit_step(receive_step(st, m), height);
            &&& after.auto_scroll
            &&& after.scroll == max_scroll(after.messages.len(), height)
        }),
{
}

/// Typing a char and erasing it gives back the screen as it was.
pub proof fn lemma_type_then_erase(st: TuiView, c: char)
    requires
        c != 'G',
        !(c == 'q' && st.input.len() == 0),
    ensures
        key_step(key_step(st, Key::Char(c)).0, Key::Backspace).0 == st,
{
    assert(st.input.push(c).drop_last() =~= st.input);
}

/// Styling a chat line loses no text: its label and body make up its content.
pub proof fn lemma_style_keeps_text(m: ChatMessageView)
    ensures
        styled(m).label + styled(m).body == m.content,
{
    reveal_strlit("[SYSTEM]");
    reveal_strlit("[DM from");
    reveal_strlit("[DM to");
    let c = m.content;
    if "[SYSTEM]"@.is_prefix_of(c) {
        assert("[SYSTEM]"@ + c.skip(8) =~= c);
    } else if "[DM from"@.is_prefix_of(c) {
        assert("[DM from"@ + c.skip(8) =~= c);
    } else if "[DM to"@.is_prefix_of(c) {
        assert("[DM to"@ + c.skip(6) =~= c);
    } else {
        assert(Seq::<char>::empty() + c =~= c);
    }
}

/// The value a string of decimal digits denotes.
pub open spec fn numeral_value(s: Seq<char>) -> int
    decreases s.len(),
{
    if s.len() == 0 {
        0
    } else {
        numeral_value(s.drop_last()) * 10 + (s.last() as int - '0' as int)
    }
}

/// The decimal numeral of `n` is made of digits, denotes `n`, and has no
/// leading zero.
pub proof fn lemma_decimal_denotes(n: nat)
    ensures
        forall|i: int| 0 <= i < decimal(n).len() ==> '0' <= #[trigger] decimal(n)[i] <= '9',
        numeral_value(decimal(n)) == n,
        decimal(n).len() >= 1,
        decimal(n).len() == 1 <==> n < 10,
        decimal(n).len() > 1 ==> decimal(n)[0] != '0',
    decreases n,
{
    assert(forall|k: nat| k < 10 ==> digit(k) as int - '0' as int == k);
    let d = decimal(n);
    if n >= 10 {
        lemma_decimal_denotes(n / 10);
        let q = decimal(n / 10);
        assert(d == q.push(digit(n % 10)));
        assert(d.drop_last() =~= q);
        assert(d.last() == digit(n % 10));
        assert(d[0] == q[0]);
        assert(n == (n / 10) * 10 + n % 10);
        assert(numeral_value(d) == numeral_value(q) * 10 + (digit(n % 10) as int - '0' as int));
        assert(digit(n % 10) as int - '0' as int == n % 10);
        if q.len() == 1 {
            assert(1 <= n / 10 < 10);
            assert(q[0] == digit(n / 10));
        }
    } else {
        assert(d == seq![digit(n)]);
        assert(d.drop_last() =~= Seq::<char>::empty());
        assert(numeral_value(Seq::<char>::empty()) == 0);
        assert(digit(n) as int - '0' as int == n);
    }
}


/// A failed file request ends: after a request is recorded, its failure is
/// reported and drops it, and bytes that answer it later are ignored.
pub proof fn lemma_failed_file_request_ends(
    node: NodeView,
    id: u64,
    path: Seq<char>,
    peer: Seq<char>,
    error: Seq<char>,
    data: Seq<u8>,
)
    ensures
        ({
            let tracked_node = NodeView { pending: node.pending.insert(id, path), ..node };
            let failed = NetEventView::RequestFailed { peer, request_id: id, error };
            let (after, acts) = event_step(tracked_node, failed);
            let answer = NetEventView::InboundResponse {
                request_id: id,
                response: ResponseView::FileData(data),
            };
            &&& acts.len() == 1
            &&& after.pending == node.pending.remove(id)
            &&& event_step(after, answer) == (after, Seq::<ActionView>::empty())
        }),
{
    assert(node.pending.insert(id, path).remove(id) =~= node.pending.remove(id));
}

/// Scrolling one column right and back left gives back the screen as it
/// was, short of the last column.
pub proof fn lemma_right_then_left(st: TuiView)
    requires
        st.h_scroll < bottom(),
    ensures
        key_step(key_step(st, Key::Right).0, Key::Left).0 == st,
        key_step(key_step(st, Key::ShiftWheelDown).0, Key::ShiftWheelUp).0 == st,
{
}

} // verus!
