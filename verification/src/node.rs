//! The node: its nickname, the nicknames it has learnt of other peers, the
//! file requests it is waiting on, and what it decides for each typed line
//! and each network event.
use vstd::prelude::*;
use std::collections::HashMap;
use crate::text::{
    join_from, join_spaced, split_words, trim, trim_text, words,
};
use crate::tui::{help_lines, help_text};
use crate::wire::{
    announcement, announcement_payload, lossy_utf8, read_gossip, text_from_bytes, GossipText,
    GossipView, RequestView, ResponseView, SwapBytesRequest, SwapBytesResponse, gossip_meaning,
};
use vstd::utf8::{decode_utf8, encode_utf8, valid_utf8};

verus! {

broadcast use vstd::std_specs::hash::group_hash_axioms;

/// A peer and the nickname it announced, both as text.
pub type PeerName = (Seq<char>, Seq<char>);

/// The position of the first element of `s` that satisfies `f`.
pub open spec fn first_match<A>(s: Seq<A>, f: spec_fn(A) -> bool) -> Option<int>
    decreases s.len(),
{
    if s.len() == 0 {
        None
    } else {
        match first_match(s.drop_last(), f) {
            Some(i) => Some(i),
            None => if f(s.last()) {
                Some(s.len() - 1)
            } else {
                None
            },
        }
    }
}

/// `first_match` finds the least position whose element satisfies `f`, or
/// reports that none does.
pub proof fn lemma_first_match<A>(s: Seq<A>, f: spec_fn(A) -> bool)
    ensures
        match first_match(s, f) {
            Some(i) => 0 <= i < s.len() && f(s[i]) && forall|j: int| 0 <= j < i ==> !f(s[j]),
            None => forall|j: int| 0 <= j < s.len() ==> !f(s[j]),
        },
    decreases s.len(),
{
    if s.len() > 0 {
        lemma_first_match(s.drop_last(), f);
        assert forall|j: int| 0 <= j < s.len() - 1 implies s.drop_last()[j] == s[j] by {}
    }
}

/// Whether an entry belongs to peer `p`.
pub open spec fn peer_is(p: Seq<char>) -> spec_fn(PeerName) -> bool {
    |e: PeerName| e.0 == p
}

/// Whether an entry carries nickname `n`.
pub open spec fn nickname_is(n: Seq<char>) -> spec_fn(PeerName) -> bool {
    |e: PeerName| e.1 == n
}

/// The first entry that belongs to peer `p`.
pub open spec fn peer_position(peers: Seq<PeerName>, p: Seq<char>) -> Option<int> {
    first_match(peers, peer_is(p))
}

/// The first entry whose nickname is `n`.
pub open spec fn nickname_position(peers: Seq<PeerName>, n: Seq<char>) -> Option<int> {
    first_match(peers, nickname_is(n))
}

/// No peer has two entries.
pub open spec fn peers_unique(peers: Seq<PeerName>) -> bool {
    forall|i: int, j: int| 0 <= i < j < peers.len() ==> peers[i].0 != peers[j].0
}

/// The nickname table as a map from peer to nickname.
pub open spec fn nickname_map(peers: Seq<PeerName>) -> Map<Seq<char>, Seq<char>>
    decreases peers.len(),
{
    if peers.len() == 0 {
        Map::empty()
    } else {
        nickname_map(peers.drop_last()).insert(peers.last().0, peers.last().1)
    }
}

/// The node's state, apart from its network connections.
pub struct SwapBytesNode {
    nickname: String,
    local_peer: String,
    peer_nicknames: Vec<(String, String)>,
    pending_file_requests: HashMap<u64, String>,
    nickname_announced: bool,
    bootstrap_message: Option<String>,
}

/// The node's state as plain values.
pub struct NodeView {
    /// This node's own nickname.
    pub nickname: Seq<char>,
    /// This node's own peer id, as text.
    pub local_peer: Seq<char>,
    /// The nickname each known peer announced, in the order they were learnt.
    pub peers: Seq<PeerName>,
    /// The local path each outstanding file request will be saved to.
    pub pending: Map<u64, Seq<char>>,
    /// Whether an announcement of the nickname has gone out.
    pub nickname_announced: bool,
    /// The start-up notice, until it has been shown.
    pub bootstrap_message: Option<Seq<char>>,
}

impl View for SwapBytesNode {
    type V = NodeView;

    closed spec fn view(&self) -> NodeView {
        NodeView {
            nickname: self.nickname@,
            local_peer: self.local_peer@,
            peers: self.peer_nicknames.deep_view(),
            pending: self.pending_file_requests@.map_values(|s: String| s@),
            nickname_announced: self.nickname_announced,
            bootstrap_message: match self.bootstrap_message {
                Some(m) => Some(m@),
                None => None,
            },
        }
    }
}

impl SwapBytesNode {
    #[verifier::type_invariant]
    spec fn well_formed(self) -> bool {
        peers_unique(self.peer_nicknames.deep_view())
    }
}

/// The start-up notice: empty when the DHT bootstrap worked, otherwise the
/// reason it failed and that discovery falls back to mDNS.
pub open spec fn bootstrap_notice(failure: Option<Seq<char>>) -> Seq<char> {
    match failure {
        None => Seq::empty(),
        Some(e) => "[SYSTEM]: Kademlia bootstrap failed: "@ + e + ". Relying on mDNS."@,
    }
}

/// What a chat-topic publish came to.
#[derive(Debug, Clone, PartialEq, Eq)]
pub enum PublishOutcome {
    Published,
    /// No peer was subscribed to the topic.
    InsufficientPeers,
    /// Any other failure; it ends the program.
    Failed,
}

/// The notice for a nickname announcement `outcome` (`Err` holds the
/// error's text), and whether the node counts its nickname as announced after it.
pub open spec fn announce_step(node: NodeView, outcome: Result<(), Seq<char>>) -> (
    Option<Seq<char>>,
    bool,
) {
    match outcome {
        Ok(_) => if node.nickname_announced {
            (None, true)
        } else {
            (Some("[SYSTEM]: Nickname '"@ + node.nickname + "' announced."@), true)
        },
        Err(e) => (Some("[SYSTEM]: Error announcing nickname: "@ + e), node.nickname_announced),
    }
}

/// The nickname typed at start: the line without surrounding whitespace, or
/// `Anonymous` when no line could be read.
pub open spec fn nickname_of(line: Option<Seq<char>>) -> Seq<char> {
    match line {
        Some(l) => trim(l),
        None => "Anonymous"@,
    }
}

/// The nickname typed at start.
pub fn nickname_from_input(line: Option<String>) -> (n: String)
    ensures
        n@ == nickname_of(match line {
            Some(l) => Some(l@),
            None => None,
        }),
{
    match line {
        Some(l) => trim_text(l.as_str()),
        None => String::from_str("Anonymous"),
    }
}

impl SwapBytesNode {
    /// A node named `nickname` with peer id `local_peer`, knowing no peer and
    /// waiting on no file. `bootstrap_failure` is the DHT bootstrap's error
    /// text, if it failed; the start-up notice is returned beside the node.
    pub fn new(nickname: String, local_peer: String, bootstrap_failure: Option<String>) -> (r: (
        SwapBytesNode,
        String,
    ))
        ensures
            r.0@.nickname == nickname@,
            r.0@.local_peer == local_peer@,
            r.0@.peers.len() == 0,
            r.0@.pending == Map::<u64, Seq<char>>::empty(),
            !r.0@.nickname_announced,
            r.1@ == bootstrap_notice(match bootstrap_failure {
                Some(e) => Some(e@),
                None => None,
            }),
            r.0@.bootstrap_message == Some(r.1@),
    {
        let message = match &bootstrap_failure {
            None => String::new(),
            Some(e) => {
                let mut m = String::from_str("[SYSTEM]: Kademlia bootstrap failed: ");
                m.append(e.as_str());
                m.append(". Relying on mDNS.");
                m
            },
        };
        let node = SwapBytesNode {
            nickname,
            local_peer,
            peer_nicknames: Vec::new(),
            pending_file_requests: HashMap::new(),
            nickname_announced: false,
            bootstrap_message: Some(message.clone()),
        };
        assert(node@.pending =~= Map::<u64, Seq<char>>::empty());
        (node, message)
    }

    /// This node's nickname.
    pub fn nickname(&self) -> (n: &String)
        ensures
            n@ == self@.nickname,
    {
        &self.nickname
    }

    /// This node's peer id, as text.
    pub fn local_peer(&self) -> (p: &String)
        ensures
            p@ == self@.local_peer,
    {
        &self.local_peer
    }

    /// The UTF-8 bytes that announce this node's nickname on the chat topic.
    pub fn announce_nickname(&self) -> (b: Vec<u8>)
        ensures
            b@ == encode_utf8(announcement(self@.nickname)),
    {
        announcement_payload(self.nickname.as_str())
    }

    /// Takes in what publishing the announcement came to: the first success
    /// is noted once, every failure is reported.
    pub fn announce_outcome(&mut self, outcome: Result<(), String>) -> (notice: Option<String>)
        ensures
            (match notice {
                Some(s) => Some(s@),
                None => None,
            }, final(self)@.nickname_announced) == announce_step(
                old(self)@,
                match outcome {
                    Ok(_) => Ok(()),
                    Err(e) => Err(e@),
                },
            ),
            final(self)@.nickname == old(self)@.nickname,
            final(self)@.local_peer == old(self)@.local_peer,
            final(self)@.peers == old(self)@.peers,
            final(self)@.pending == old(self)@.pending,
            final(self)@.bootstrap_message == old(self)@.bootstrap_message,
    {
        proof {
            use_type_invariant(&*self);
        }
        match outcome {
            Ok(_) => {
                if self.nickname_announced {
                    None
                } else {
                    self.nickname_announced = true;
                    let mut s = String::from_str("[SYSTEM]: Nickname '");
                    s.append(self.nickname.as_str());
                    s.append("' announced.");
                    Some(s)
                }
            },
            Err(e) => {
                let mut s = String::from_str("[SYSTEM]: Error announcing nickname: ");
                s.append(e.as_str());
                Some(s)
            },
        }
    }

    /// The notices shown at start: the command summary, then the start-up
    /// notice if it has not been shown yet, which is then dropped.
    pub fn startup_notices(&mut self) -> (v: Vec<String>)
        ensures
            v.deep_view() == help_text() + match old(self)@.bootstrap_message {
                Some(m) => seq![m],
                None => Seq::empty(),
            },
            final(self)@.bootstrap_message is None,
            final(self)@.nickname == old(self)@.nickname,
            final(self)@.local_peer == old(self)@.local_peer,
            final(self)@.peers == old(self)@.peers,
            final(self)@.pending == old(self)@.pending,
            final(self)@.nickname_announced == old(self)@.nickname_announced,
    {
        proof {
            use_type_invariant(&*self);
        }
        let mut v = help_lines();
        let mut taken: Option<String> = None;
        std::mem::swap(&mut taken, &mut self.bootstrap_message);
        match taken {
            Some(m) => {
                let ghost before = v.deep_view();
                v.push(m);
                assert(v.deep_view() =~= before.push(m@));
            },
            None => {
                assert(v.deep_view() =~= help_text() + Seq::<Seq<char>>::empty());
            },
        }
        v
    }
}


/// Something the node asks the program around it to do. Actions are carried
/// out in order; one that fails ends the program with its error.
#[derive(Debug, Clone, PartialEq, Eq)]
pub enum Action {
    /// Stamp this line and add it to the chat log.
    Show(String),
    /// Publish this chat line on the chat topic, then report the outcome
    /// through [`SwapBytesNode::chat_outcome`].
    Publish(String),
    /// Send this text to the peer as a direct message.
    SendDirectMessage { peer: String, text: String },
    /// Ask the peer for a file, then record the request's id through
    /// [`SwapBytesNode::track_file_request`] with `local_path`.
    RequestFile { peer: String, file_name: String, local_path: String },
    /// Add the peer discovered at this position of the discovery list to the
    /// DHT routing table and to the chat topic's explicit peers.
    RegisterPeer(usize),
    /// Answer the request being handled with [`SwapBytesResponse::Ack`].
    Acknowledge,
    /// Answer the request being handled with the contents of this local file
    /// ([`SwapBytesResponse::FileData`], empty when the file cannot be opened).
    ServeFile(String),
    /// Write these bytes to this local path.
    SaveFile { path: String, data: Vec<u8> },
}

/// An action as plain values.
pub enum ActionView {
    Show(Seq<char>),
    Publish(Seq<char>),
    SendDirectMessage { peer: Seq<char>, text: Seq<char> },
    RequestFile { peer: Seq<char>, file_name: Seq<char>, local_path: Seq<char> },
    RegisterPeer(usize),
    Acknowledge,
    ServeFile(Seq<char>),
    SaveFile { path: Seq<char>, data: Seq<u8> },
}

impl DeepView for Action {
    type V = ActionView;

    open spec fn deep_view(&self) -> ActionView {
        match self {
            Action::Show(s) => ActionView::Show(s@),
            Action::Publish(s) => ActionView::Publish(s@),
            Action::SendDirectMessage { peer, text } => ActionView::SendDirectMessage {
                peer: peer@,
                text: text@,
            },
            Action::RequestFile { peer, file_name, local_path } => ActionView::RequestFile {
                peer: peer@,
                file_name: file_name@,
                local_path: local_path@,
            },
            Action::RegisterPeer(i) => ActionView::RegisterPeer(*i),
            Action::Acknowledge => ActionView::Acknowledge,
            Action::ServeFile(s) => ActionView::ServeFile(s@),
            Action::SaveFile { path, data } => ActionView::SaveFile { path: path@, data: data@ },
        }
    }
}

/// Each line shown, in order.
pub open spec fn shows(lines: Seq<Seq<char>>) -> Seq<ActionView> {
    lines.map_values(|l: Seq<char>| ActionView::Show(l))
}

/// The notice for a nickname no known peer has.
pub open spec fn unknown_nickname(n: Seq<char>) -> Seq<char> {
    "[SYSTEM]: Nickname '"@ + n + "' not found."@
}

/// One line per known peer other than `local`: `- nickname: peer`.
pub open spec fn peer_listing(peers: Seq<PeerName>, local: Seq<char>) -> Seq<ActionView>
    decreases peers.len(),
{
    if peers.len() == 0 {
        Seq::empty()
    } else {
        let rest = peer_listing(peers.drop_last(), local);
        let e = peers.last();
        if e.0 != local {
            rest.push(ActionView::Show("- "@ + e.1 + ": "@ + e.0))
        } else {
            rest
        }
    }
}

/// What a typed line asks for. The line's whitespace-separated words are
/// read as a command and its arguments:
/// - `/help`: the command summary;
/// - `/chat w..`: publish the words, joined by single spaces (nothing without words);
/// - `/dm n w..`: a direct message of the joined words to the first peer
///   named `n`, echoed in the log (nothing with fewer than two arguments);
/// - `/getfile n f p`: ask the first peer named `n` for file `f`, to be
///   saved at `p` (a usage notice with any other number of arguments);
/// - `/list`: the known peers other than this node;
/// - anything else: an unknown-command notice. A blank line does nothing.
pub open spec fn input_actions(node: NodeView, line: Seq<char>) -> Seq<ActionView> {
    let parts = words(line);
    if parts.len() == 0 {
        Seq::empty()
    } else if parts[0] == "/help"@ {
        shows(help_text())
    } else if parts[0] == "/chat"@ {
        if parts.len() > 1 {
            seq![ActionView::Publish(join_spaced(parts.skip(1)))]
        } else {
            Seq::empty()
        }
    } else if parts[0] == "/dm"@ {
        if parts.len() > 2 {
            let target = parts[1];
            let message = join_spaced(parts.skip(2));
            match nickname_position(node.peers, target) {
                Some(i) => seq![
                    ActionView::SendDirectMessage { peer: node.peers[i].0, text: message },
                    ActionView::Show("[DM to "@ + target + "]: "@ + message),
                ],
                None => seq![ActionView::Show(unknown_nickname(target))],
            }
        } else {
            Seq::empty()
        }
    } else if parts[0] == "/getfile"@ {
        if parts.len() == 4 {
            let target = parts[1];
            match nickname_position(node.peers, target) {
                Some(i) => seq![
                    ActionView::RequestFile {
                        peer: node.peers[i].0,
                        file_name: parts[2],
                        local_path: parts[3],
                    },
                    ActionView::Show(
                        "[SYSTEM]: Requesting '"@ + parts[2] + "' from "@ + target,
                    ),
                ],
                None => seq![ActionView::Show(unknown_nickname(target))],
            }
        } else {
            seq![
                ActionView::Show(
                    "[SYSTEM]: Usage: /getfile <nickname> <file_name> <local_path>"@,
                ),
            ]
        }
    } else if parts[0] == "/list"@ {
        seq![ActionView::Show("[SYSTEM]: Known peers:"@)] + peer_listing(node.peers, node.local_peer)
    } else {
        seq![ActionView::Show("[SYSTEM]: Unknown command: "@ + parts[0])]
    }
}

/// Whether `s` reads `lit`.
fn reads(s: &String, lit: &str) -> (r: bool)
    ensures
        r == (s@ == lit@),
{
    let l = String::from_str(lit);
    s.eq(&l)
}

/// The first entry whose nickname is `n`.
fn find_nickname(peers: &Vec<(String, String)>, n: &String) -> (r: Option<usize>)
    ensures
        match r {
            Some(i) => nickname_position(peers.deep_view(), n@) == Some(i as int) && i
                < peers@.len(),
            None => nickname_position(peers.deep_view(), n@) is None,
        },
{
    let mut i: usize = 0;
    while i < peers.len()
        invariant
            i <= peers@.len(),
            forall|j: int| 0 <= j < i ==> #[trigger] peers.deep_view()[j].1 != n@,
        decreases peers@.len() - i,
    {
        if peers[i].1.eq(n) {
            proof {
                let s = peers.deep_view();
                lemma_first_match(s, nickname_is(n@));
                assert(s[i as int].1 == n@);
                assert(nickname_is(n@)(s[i as int]));
                match first_match(s, nickname_is(n@)) {
                    Some(k) => {
                        if k < i {
                            assert(s[k].1 != n@);
                        }
                    },
                    None => {},
                }
            }
            return Some(i);
        }
        i = i + 1;
    }
    proof {
        lemma_first_match(peers.deep_view(), nickname_is(n@));
    }
    None
}

/// The first entry that belongs to peer `p`.
fn find_peer(peers: &Vec<(String, String)>, p: &String) -> (r: Option<usize>)
    ensures
        match r {
            Some(i) => peer_position(peers.deep_view(), p@) == Some(i as int) && i < peers@.len(),
            None => peer_position(peers.deep_view(), p@) is None,
        },
{
    let mut i: usize = 0;
    while i < peers.len()
        invariant
            i <= peers@.len(),
            forall|j: int| 0 <= j < i ==> #[trigger] peers.deep_view()[j].0 != p@,
        decreases peers@.len() - i,
    {
        if peers[i].0.eq(p) {
            proof {
                let s = peers.deep_view();
                lemma_first_match(s, peer_is(p@));
                assert(s[i as int].0 == p@);
                assert(peer_is(p@)(s[i as int]));
                match first_match(s, peer_is(p@)) {
                    Some(k) => {
                        if k < i {
                            assert(s[k].0 != p@);
                        }
                    },
                    None => {},
                }
            }
            return Some(i);
        }
        i = i + 1;
    }
    proof {
        lemma_first_match(peers.deep_view(), peer_is(p@));
    }
    None
}


/// Appends `a` to `v`, tracking the deep view.
fn push_action(v: &mut Vec<Action>, a: Action)
    ensures
        final(v).deep_view() == old(v).deep_view().push(a.deep_view()),
{
    let ghost before = v.deep_view();
    let ghost av = a.deep_view();
    v.push(a);
    assert(v.deep_view() =~= before.push(av));
}

/// The text `a + b`.
fn text2(a: &str, b: &str) -> (r: String)
    ensures
        r@ == a@ + b@,
{
    let mut r = String::from_str(a);
    r.append(b);
    r
}

/// The text `a + b + c`.
fn text3(a: &str, b: &str, c: &str) -> (r: String)
    ensures
        r@ == a@ + b@ + c@,
{
    let mut r = String::from_str(a);
    r.append(b);
    r.append(c);
    r
}

/// The text `a + b + c + d`.
fn text4(a: &str, b: &str, c: &str, d: &str) -> (r: String)
    ensures
        r@ == a@ + b@ + c@ + d@,
{
    let mut r = text3(a, b, c);
    r.append(d);
    r
}

impl SwapBytesNode {
    /// What a typed line asks for (see [`input_actions`]). The node itself
    /// does not change: a requested file is recorded once its request is out.
    pub fn handle_input(&self, line: &str) -> (actions: Vec<Action>)
        ensures
            actions.deep_view() == input_actions(self@, line@),
    {
        let parts = split_words(line);
        let mut actions: Vec<Action> = Vec::new();
        if parts.len() == 0 {
            assert(actions.deep_view() =~= Seq::<ActionView>::empty());
            return actions;
        }
        let ghost pv = parts.deep_view();
        assert(pv[0] == parts[0]@);
        if reads(&parts[0], "/help") {
            let lines = help_lines();
            let mut i: usize = 0;
            while i < lines.len()
                invariant
                    i <= lines@.len(),
                    lines.deep_view() == help_text(),
                    actions.deep_view() == shows(help_text().take(i as int)),
                decreases lines@.len() - i,
            {
                push_action(&mut actions, Action::Show(lines[i].clone()));
                i = i + 1;
                assert(actions.deep_view() =~= shows(help_text().take(i as int)));
            }
            assert(help_text().take(i as int) =~= help_text());
            actions
        } else if reads(&parts[0], "/chat") {
            if parts.len() > 1 {
                push_action(&mut actions, Action::Publish(join_from(&parts, 1)));
            }
            assert(actions.deep_view() =~= input_actions(self@, line@));
            actions
        } else if reads(&parts[0], "/dm") {
            if parts.len() > 2 {
                let target = &parts[1];
                let message = join_from(&parts, 2);
                match find_nickname(&self.peer_nicknames, target) {
                    Some(i) => {
                        let echo = text4("[DM to ", target.as_str(), "]: ", message.as_str());
                        push_action(
                            &mut actions,
                            Action::SendDirectMessage {
                                peer: self.peer_nicknames[i].0.clone(),
                                text: message,
                            },
                        );
                        push_action(&mut actions, Action::Show(echo));
                    },
                    None => {
                        push_action(
                            &mut actions,
                            Action::Show(
                                text3("[SYSTEM]: Nickname '", target.as_str(), "' not found."),
                            ),
                        );
                    },
                }
            }
            assert(actions.deep_view() =~= input_actions(self@, line@));
            actions
        } else if reads(&parts[0], "/getfile") {
            if parts.len() == 4 {
                let target = &parts[1];
                match find_nickname(&self.peer_nicknames, target) {
                    Some(i) => {
                        let note = text4(
                            "[SYSTEM]: Requesting '",
                            parts[2].as_str(),
                            "' from ",
                            target.as_str(),
                        );
                        push_action(
                            &mut actions,
                            Action::RequestFile {
                                peer: self.peer_nicknames[i].0.clone(),
                                file_name: parts[2].clone(),
                                local_path: parts[3].clone(),
                            },
                        );
                        push_action(&mut actions, Action::Show(note));
                    },
                    None => {
                        push_action(
                            &mut actions,
                            Action::Show(
                                text3("[SYSTEM]: Nickname '", target.as_str(), "' not found."),
                            ),
                        );
                    },
                }
            } else {
                push_action(
                    &mut actions,
                    Action::Show(
                        String::from_str(
                            "[SYSTEM]: Usage: /getfile <nickname> <file_name> <local_path>",
                        ),
                    ),
                );
            }
            assert(actions.deep_view() =~= input_actions(self@, line@));
            actions
        } else if reads(&parts[0], "/list") {
            push_action(&mut actions, Action::Show(String::from_str("[SYSTEM]: Known peers:")));
            let ghost head = actions.deep_view();
            let ghost peers = self.peer_nicknames.deep_view();
            let ghost local = self.local_peer@;
            let mut i: usize = 0;
            while i < self.peer_nicknames.len()
                invariant
                    i <= peers.len(),
                    peers == self.peer_nicknames.deep_view(),
                    local == self.local_peer@,
                    actions.deep_view() == head + peer_listing(peers.take(i as int), local),
                decreases peers.len() - i,
            {
                let e = &self.peer_nicknames[i];
                assert(peers.take(i + 1).drop_last() =~= peers.take(i as int));
                assert(peers.take(i + 1).last() == peers[i as int]);
                if !e.0.eq(&self.local_peer) {
                    let line = text4("- ", e.1.as_str(), ": ", e.0.as_str());
                    push_action(&mut actions, Action::Show(line));
                    assert(actions.deep_view() =~= head + peer_listing(
                        peers.take(i + 1),
                        local,
                    ));
                }
                i = i + 1;
            }
            assert(peers.take(i as int) =~= peers);
            actions
        } else {
            push_action(
                &mut actions,
                Action::Show({
                    let mut t = String::from_str("[SYSTEM]: Unknown command: ");
                    t.append(parts[0].as_str());
                    t
                }),
            );
            assert(actions.deep_view() =~= input_actions(self@, line@));
            actions
        }
    }
}


/// The notice for a chat line `message` whose publish came to `outcome`;
/// `None` when the failure ends the program.
pub open spec fn chat_notice(node: NodeView, message: Seq<char>, outcome: PublishOutcome) -> Option<
    Seq<char>,
> {
    match outcome {
        PublishOutcome::Published => Some("["@ + node.nickname + "]: "@ + message),
        PublishOutcome::InsufficientPeers => Some(
            "[SYSTEM]: No peers connected yet. Please wait."@,
        ),
        PublishOutcome::Failed => None,
    }
}

/// What the node learns from a chat-topic message `text`, sent by `source`
/// when the topic names one, and what it shows. An announcement records the
/// sender's nickname: a new sender is added at the end of the table, a known
/// one gets its entry changed in place when the nickname differs. A chat
/// line is shown under the sender's nickname, or under its peer id when the
/// sender has announced none.
pub open spec fn gossip_step(node: NodeView, source: Option<Seq<char>>, text: Seq<char>) -> (
    NodeView,
    Seq<ActionView>,
) {
    match source {
        None => (
            node,
            seq![ActionView::Show("[SYSTEM]: Received message without source: "@ + text)],
        ),
        Some(src) => match gossip_meaning(text) {
            GossipView::Join(nick) => match peer_position(node.peers, src) {
                Some(i) => if node.peers[i].1 != nick {
                    (
                        NodeView { peers: node.peers.update(i, (src, nick)), ..node },
                        seq![
                            ActionView::Show(
                                "[SYSTEM]: Peer "@ + src + " changed nickname to "@ + nick,
                            ),
                        ],
                    )
                } else {
                    (node, Seq::empty())
                },
                None => (
                    NodeView { peers: node.peers.push((src, nick)), ..node },
                    seq![
                        ActionView::Show(
                            "[SYSTEM]: "@ + nick + " ("@ + src + ") joined the chat."@,
                        ),
                    ],
                ),
            },
            GossipView::Chat(t) => match peer_position(node.peers, src) {
                Some(i) => (node, seq![ActionView::Show("["@ + node.peers[i].1 + "]: "@ + t)]),
                None => (node, seq![ActionView::Show("["@ + src + "]: "@ + t)]),
            },
        },
    }
}

impl SwapBytesNode {
    /// The notice for a published (or refused) chat line; `None` when the
    /// failure ends the program.
    pub fn chat_outcome(&self, message: &str, outcome: PublishOutcome) -> (notice: Option<String>)
        ensures
            match notice {
                Some(s) => Some(s@),
                None => None,
            } == chat_notice(self@, message@, outcome),
    {
        match outcome {
            PublishOutcome::Published => Some(text4("[", self.nickname.as_str(), "]: ", message)),
            PublishOutcome::InsufficientPeers => Some(
                String::from_str("[SYSTEM]: No peers connected yet. Please wait."),
            ),
            PublishOutcome::Failed => None,
        }
    }

    /// Records that the file request with this id is out and its answer is
    /// to be saved at `local_path`.
    pub fn track_file_request(&mut self, request_id: u64, local_path: String)
        ensures
            final(self)@ == (NodeView {
                pending: old(self)@.pending.insert(request_id, local_path@),
                ..old(self)@
            }),
    {
        proof {
            use_type_invariant(&*self);
        }
        let ghost lp = local_path@;
        let mut pending: HashMap<u64, String> = HashMap::new();
        std::mem::swap(&mut pending, &mut self.pending_file_requests);
        pending.insert(request_id, local_path);
        self.pending_file_requests = pending;
        assert(self@.pending =~= old(self)@.pending.insert(request_id, lp));
    }

    /// Takes in a chat-topic message already read as text (see [`gossip_step`]).
    pub fn on_gossip(&mut self, source: Option<String>, text: String) -> (actions: Vec<Action>)
        ensures
            (final(self)@, actions.deep_view()) == gossip_step(
                old(self)@,
                match source {
                    Some(s) => Some(s@),
                    None => None,
                },
                text@,
            ),
            peers_unique(final(self)@.peers),
    {
        proof {
            use_type_invariant(&*self);
        }
        let mut actions: Vec<Action> = Vec::new();
        let src = match source {
            None => {
                let mut t = String::from_str("[SYSTEM]: Received message without source: ");
                t.append(text.as_str());
                push_action(&mut actions, Action::Show(t));
                return actions;
            },
            Some(src) => src,
        };
        let meaning = read_gossip(text.as_str());
        match meaning {
            GossipText::Join(nick) => {
                let mut peers: Vec<(String, String)> = Vec::new();
                std::mem::swap(&mut peers, &mut self.peer_nicknames);
                let ghost old_peers = peers.deep_view();
                proof {
                    lemma_first_match(old_peers, peer_is(src@));
                }
                match find_peer(&peers, &src) {
                    Some(i) => {
                        if !peers[i].1.eq(&nick) {
                            let note = text4(
                                "[SYSTEM]: Peer ",
                                src.as_str(),
                                " changed nickname to ",
                                nick.as_str(),
                            );
                            peers.set(i, (src, nick));
                            assert(peers.deep_view() =~= old_peers.update(
                                i as int,
                                (old_peers[i as int].0, peers.deep_view()[i as int].1),
                            ));
                            push_action(&mut actions, Action::Show(note));
                        }
                    },
                    None => {
                        let mut note = text4("[SYSTEM]: ", nick.as_str(), " (", src.as_str());
                        note.append(") joined the chat.");
                        let ghost entry = (src@, nick@);
                        peers.push((src, nick));
                        assert(peers.deep_view() =~= old_peers.push(entry));
                        push_action(&mut actions, Action::Show(note));
                    },
                }
                self.peer_nicknames = peers;
                actions
            },
            GossipText::Chat(t) => {
                proof {
                    lemma_first_match(self.peer_nicknames.deep_view(), peer_is(src@));
                }
                let line = match find_peer(&self.peer_nicknames, &src) {
                    Some(i) => text4("[", self.peer_nicknames[i].1.as_str(), "]: ", t.as_str()),
                    None => text4("[", src.as_str(), "]: ", t.as_str()),
                };
                push_action(&mut actions, Action::Show(line));
                actions
            },
        }
    }
}


/// A network event, as far as the node tells events apart.
#[derive(Debug, Clone, PartialEq, Eq)]
pub enum NetEvent {
    /// The node listens on this address.
    ListenAddr(String),
    /// Local discovery found these peers, each with an address.
    Discovered(Vec<(String, String)>),
    /// A connection to this peer is up.
    Connected(String),
    /// A message on the chat topic: its sender when the topic names one, and its bytes.
    Gossip { source: Option<String>, data: Vec<u8> },
    /// A peer sent this node a request.
    InboundRequest { peer: String, request: SwapBytesRequest },
    /// The answer to one of this node's requests.
    InboundResponse { request_id: u64, response: SwapBytesResponse },
    /// One of this node's requests to `peer` failed, for the reason in `error`.
    RequestFailed { peer: String, request_id: u64, error: String },
    /// Any other event.
    Other,
}

/// A network event as plain values.
pub enum NetEventView {
    ListenAddr(Seq<char>),
    Discovered(Seq<PeerName>),
    Connected(Seq<char>),
    Gossip { source: Option<Seq<char>>, data: Seq<u8> },
    InboundRequest { peer: Seq<char>, request: RequestView },
    InboundResponse { request_id: u64, response: ResponseView },
    RequestFailed { peer: Seq<char>, request_id: u64, error: Seq<char> },
    Other,
}

impl DeepView for NetEvent {
    type V = NetEventView;

    open spec fn deep_view(&self) -> NetEventView {
        match self {
            NetEvent::ListenAddr(a) => NetEventView::ListenAddr(a@),
            NetEvent::Discovered(list) => NetEventView::Discovered(list.deep_view()),
            NetEvent::Connected(p) => NetEventView::Connected(p@),
            NetEvent::Gossip { source, data } => NetEventView::Gossip {
                source: match source {
                    Some(s) => Some(s@),
                    None => None,
                },
                data: data@,
            },
            NetEvent::InboundRequest { peer, request } => NetEventView::InboundRequest {
                peer: peer@,
                request: request@,
            },
            NetEvent::InboundResponse { request_id, response } => NetEventView::InboundResponse {
                request_id: *request_id,
                response: response@,
            },
            NetEvent::RequestFailed { peer, request_id, error } => NetEventView::RequestFailed {
                peer: peer@,
                request_id: *request_id,
                error: error@,
            },
            NetEvent::Other => NetEventView::Other,
        }
    }
}

/// For each discovered peer, in order: a notice, then its registration.
pub open spec fn discovery_actions(found: Seq<PeerName>) -> Seq<ActionView>
    decreases found.len(),
{
    if found.len() == 0 {
        Seq::empty()
    } else {
        let e = found.last();
        discovery_actions(found.drop_last()) + seq![
            ActionView::Show("[SYSTEM]: Discovered peer: "@ + e.0 + " at "@ + e.1),
            ActionView::RegisterPeer((found.len() - 1) as usize),
        ]
    }
}

/// The name a peer is shown by: its nickname, or its id when it has announced none.
pub open spec fn shown_name(node: NodeView, peer: Seq<char>) -> Seq<char> {
    match peer_position(node.peers, peer) {
        Some(i) => node.peers[i].1,
        None => peer,
    }
}

/// What a network event does to the node and what the node asks for.
/// A chat-topic message is read as `String::from_utf8_lossy` reads its bytes
/// (see [`gossip_step`]). A direct message is shown and acknowledged; a file
/// request is served. A file's bytes that answer a pending request end that
/// request: non-empty bytes are saved at the path it was made with, empty
/// ones are reported as a missing file; bytes that answer no pending request
/// are ignored. A failed request is reported under the peer's shown name: a
/// pending file request is reported as such and ends; any other request of
/// this node is a direct message.
pub open spec fn event_step(node: NodeView, event: NetEventView) -> (NodeView, Seq<ActionView>) {
    match event {
        NetEventView::ListenAddr(a) => (
            node,
            seq![ActionView::Show("[SYSTEM]: Listening on "@ + a)],
        ),
        NetEventView::Discovered(found) => (node, discovery_actions(found)),
        NetEventView::Connected(p) => (
            node,
            seq![ActionView::Show("[SYSTEM]: Connected to peer: "@ + p)],
        ),
        NetEventView::Gossip { source, data } => gossip_step(node, source, lossy_utf8(data)),
        NetEventView::InboundRequest { peer, request } => match request {
            RequestView::DirectMessage(m) => (
                node,
                seq![
                    ActionView::Show("[DM from "@ + shown_name(node, peer) + "]: "@ + m),
                    ActionView::Acknowledge,
                ],
            ),
            RequestView::FileRequest(f) => (node, seq![ActionView::ServeFile(f)]),
        },
        NetEventView::InboundResponse { request_id, response } => match response {
            ResponseView::Ack => (
                node,
                seq![ActionView::Show("[SYSTEM]: Direct message delivered."@)],
            ),
            ResponseView::FileData(data) => if node.pending.contains_key(request_id) {
                let path = node.pending[request_id];
                (
                    NodeView { pending: node.pending.remove(request_id), ..node },
                    if data.len() > 0 {
                        seq![
                            ActionView::SaveFile { path, data },
                            ActionView::Show("[SYSTEM]: File saved to "@ + path),
                        ]
                    } else {
                        seq![ActionView::Show("[SYSTEM]: File not found or empty."@)]
                    },
                )
            } else {
                (node, Seq::empty())
            },
        },
        NetEventView::RequestFailed { peer, request_id, error } => if node.pending.contains_key(
            request_id,
        ) {
            (
                NodeView { pending: node.pending.remove(request_id), ..node },
                seq![
                    ActionView::Show(
                        "[SYSTEM]: File request to "@ + shown_name(node, peer) + " failed: "@
                            + error,
                    ),
                ],
            )
        } else {
            (
                node,
                seq![
                    ActionView::Show(
                        "[SYSTEM]: Direct message to "@ + shown_name(node, peer) + " failed: "@
                            + error,
                    ),
                ],
            )
        },
        NetEventView::Other => (node, Seq::empty()),
    }
}

impl SwapBytesNode {
    /// Takes in a network event (see [`event_step`]).
    pub fn handle_event(&mut self, event: NetEvent) -> (actions: Vec<Action>)
        ensures
            (final(self)@, actions.deep_view()) == event_step(old(self)@, event.deep_view()),
            match event.deep_view() {
                NetEventView::Gossip { source, data } => valid_utf8(data) ==> (
                    final(self)@,
                    actions.deep_view(),
                ) == gossip_step(old(self)@, source, decode_utf8(data)),
                _ => true,
            },
            peers_unique(final(self)@.peers),
    {
        proof {
            use_type_invariant(&*self);
        }
        let mut actions: Vec<Action> = Vec::new();
        match event {
            NetEvent::ListenAddr(a) => {
                push_action(
                    &mut actions,
                    Action::Show(text2("[SYSTEM]: Listening on ", a.as_str())),
                );
                actions
            },
            NetEvent::Discovered(found) => {
                let mut i: usize = 0;
                while i < found.len()
                    invariant
                        i <= found@.len(),
                        actions.deep_view() == discovery_actions(
                            found.deep_view().take(i as int),
                        ),
                    decreases found@.len() - i,
                {
                    let ghost fv = found.deep_view();
                    assert(fv.take(i + 1).drop_last() =~= fv.take(i as int));
                    assert(fv.take(i + 1).last() == fv[i as int]);
                    let note = text4(
                        "[SYSTEM]: Discovered peer: ",
                        found[i].0.as_str(),
                        " at ",
                        found[i].1.as_str(),
                    );
                    push_action(&mut actions, Action::Show(note));
                    push_action(&mut actions, Action::RegisterPeer(i));
                    i = i + 1;
                    assert(actions.deep_view() =~= discovery_actions(fv.take(i as int)));
                }
                assert(found.deep_view().take(i as int) =~= found.deep_view());
                actions
            },
            NetEvent::Connected(p) => {
                push_action(
                    &mut actions,
                    Action::Show(text2("[SYSTEM]: Connected to peer: ", p.as_str())),
                );
                actions
            },
            NetEvent::Gossip { source, data } => {
                let text = text_from_bytes(data.as_slice());
                self.on_gossip(source, text)
            },
            NetEvent::InboundRequest { peer, request } => {
                match request {
                    SwapBytesRequest::DirectMessage(m) => {
                        proof {
                            lemma_first_match(self.peer_nicknames.deep_view(), peer_is(peer@));
                        }
                        let line = match find_peer(&self.peer_nicknames, &peer) {
                            Some(i) => text4(
                                "[DM from ",
                                self.peer_nicknames[i].1.as_str(),
                                "]: ",
                                m.as_str(),
                            ),
                            None => text4("[DM from ", peer.as_str(), "]: ", m.as_str()),
                        };
                        push_action(&mut actions, Action::Show(line));
                        push_action(&mut actions, Action::Acknowledge);
                    },
                    SwapBytesRequest::FileRequest(f) => {
                        push_action(&mut actions, Action::ServeFile(f));
                    },
                }
                actions
            },
            NetEvent::InboundResponse { request_id, response } => {
                match response {
                    SwapBytesResponse::Ack => {
                        push_action(
                            &mut actions,
                            Action::Show(String::from_str("[SYSTEM]: Direct message delivered.")),
                        );
                    },
                    SwapBytesResponse::FileData(data) => {
                        let mut pending: HashMap<u64, String> = HashMap::new();
                        std::mem::swap(&mut pending, &mut self.pending_file_requests);
                        let removed = pending.remove(&request_id);
                        self.pending_file_requests = pending;
                        match removed {
                            Some(path) => {
                                assert(self@.pending =~= old(self)@.pending.remove(request_id));
                                if data.len() > 0 {
                                    let note = text2("[SYSTEM]: File saved to ", path.as_str());
                                    push_action(&mut actions, Action::SaveFile { path, data });
                                    push_action(&mut actions, Action::Show(note));
                                } else {
                                    push_action(
                                        &mut actions,
                                        Action::Show(
                                            String::from_str("[SYSTEM]: File not found or empty."),
                                        ),
                                    );
                                }
                            },
                            None => {
                                assert(self@.pending =~= old(self)@.pending);
                            },
                        }
                    },
                }
                actions
            },
            NetEvent::RequestFailed { peer, request_id, error } => {
                proof {
                    lemma_first_match(self.peer_nicknames.deep_view(), peer_is(peer@));
                }
                let name = match find_peer(&self.peer_nicknames, &peer) {
                    Some(i) => self.peer_nicknames[i].1.clone(),
                    None => peer,
                };
                let mut pending: HashMap<u64, String> = HashMap::new();
                std::mem::swap(&mut pending, &mut self.pending_file_requests);
                let removed = pending.remove(&request_id);
                self.pending_file_requests = pending;
                let what = match removed {
                    Some(_) => {
                        assert(self@.pending =~= old(self)@.pending.remove(request_id));
                        "[SYSTEM]: File request to "
                    },
                    None => {
                        assert(self@.pending =~= old(self)@.pending);
                        "[SYSTEM]: Direct message to "
                    },
                };
                let note = text4(what, name.as_str(), " failed: ", error.as_str());
                push_action(&mut actions, Action::Show(note));
                actions
            },
            NetEvent::Other => actions,
        }
    }
}


/// The first eight chars of a peer id (all of it when shorter).
pub open spec fn short_id(p: Seq<char>) -> Seq<char> {
    if p.len() <= 8 {
        p
    } else {
        p.take(8)
    }
}

/// The side panel: `nickname: short id` for each known peer other than `local`.
pub open spec fn sidebar(peers: Seq<PeerName>, local: Seq<char>) -> Seq<Seq<char>>
    decreases peers.len(),
{
    if peers.len() == 0 {
        Seq::empty()
    } else {
        let rest = sidebar(peers.drop_last(), local);
        let e = peers.last();
        if e.0 != local {
            rest.push(e.1 + ": "@ + short_id(e.0))
        } else {
            rest
        }
    }
}

impl SwapBytesNode {
    /// The side panel's lines.
    pub fn peer_sidebar(&self) -> (v: Vec<String>)
        ensures
            v.deep_view() == sidebar(self@.peers, self@.local_peer),
    {
        let ghost peers = self.peer_nicknames.deep_view();
        let mut v: Vec<String> = Vec::new();
        let mut i: usize = 0;
        while i < self.peer_nicknames.len()
            invariant
                i <= peers.len(),
                peers == self.peer_nicknames.deep_view(),
                v.deep_view() == sidebar(peers.take(i as int), self.local_peer@),
            decreases peers.len() - i,
        {
            let e = &self.peer_nicknames[i];
            assert(peers.take(i + 1).drop_last() =~= peers.take(i as int));
            assert(peers.take(i + 1).last() == peers[i as int]);
            if !e.0.eq(&self.local_peer) {
                let id = e.0.as_str();
                let n = id.unicode_len();
                let cut = if n <= 8 {
                    n
                } else {
                    8
                };
                let short = id.substring_char(0, cut);
                assert(short@ =~= short_id(e.0@));
                let line = text3(e.1.as_str(), ": ", short);
                let ghost before = v.deep_view();
                v.push(line);
                assert(v.deep_view() =~= before.push(line@));
            }
            i = i + 1;
        }
        assert(peers.take(i as int) =~= peers);
        v
    }
}

} // verus!
