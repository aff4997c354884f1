//! What peers send each other: the request/response protocol's messages,
//! the nickname announcement and the reading of a chat-topic message.
use vstd::prelude::*;
use crate::text::{strip_repeated, starts_with, strip_prefix_repeated};
use vstd::utf8::{decode_utf8, encode_utf8, valid_utf8};

verus! {

/// A request sent directly to one peer.
#[derive(Debug, Clone, PartialEq, Eq)]
pub enum SwapBytesRequest {
    /// A private chat line.
    DirectMessage(String),
    /// Asks the peer for the contents of the file it has under this name.
    FileRequest(String),
}

/// The answer to a [`SwapBytesRequest`].
#[derive(Debug, Clone, PartialEq, Eq)]
pub enum SwapBytesResponse {
    /// A direct message arrived.
    Ack,
    /// The requested file's bytes; empty when the peer could not read it.
    FileData(Vec<u8>),
}

/// A request as plain text values.
pub enum RequestView {
    DirectMessage(Seq<char>),
    FileRequest(Seq<char>),
}

/// A response as plain values.
pub enum ResponseView {
    Ack,
    FileData(Seq<u8>),
}

impl View for SwapBytesRequest {
    type V = RequestView;

    open spec fn view(&self) -> RequestView {
        match self {
            SwapBytesRequest::DirectMessage(m) => RequestView::DirectMessage(m@),
            SwapBytesRequest::FileRequest(f) => RequestView::FileRequest(f@),
        }
    }
}

impl View for SwapBytesResponse {
    type V = ResponseView;

    open spec fn view(&self) -> ResponseView {
        match self {
            SwapBytesResponse::Ack => ResponseView::Ack,
            SwapBytesResponse::FileData(d) => ResponseView::FileData(d@),
        }
    }
}

/// The name a response is shown by.
pub open spec fn response_name(r: ResponseView) -> Seq<char> {
    match r {
        ResponseView::Ack => "Ack"@,
        ResponseView::FileData(_) => "FileData"@,
    }
}

impl SwapBytesResponse {
    /// The name this response is shown by: `Ack` or `FileData`.
    pub fn name(&self) -> (s: String)
        ensures
            s@ == response_name(self@),
    {
        match self {
            SwapBytesResponse::Ack => String::from_str("Ack"),
            SwapBytesResponse::FileData(_) => String::from_str("FileData"),
        }
    }
}

/// The marker that opens a nickname announcement.
pub open spec fn join_marker() -> Seq<char> {
    "JOIN "@
}

/// The announcement text of a nickname.
pub open spec fn announcement(nickname: Seq<char>) -> Seq<char> {
    join_marker() + nickname
}

/// How a chat-topic message reads.
#[derive(Debug, Clone, PartialEq, Eq)]
pub enum GossipText {
    /// A nickname announcement, with the nickname it carries.
    Join(String),
    /// A chat line.
    Chat(String),
}

/// How a chat-topic message reads, as plain text.
pub enum GossipView {
    Join(Seq<char>),
    Chat(Seq<char>),
}

impl View for GossipText {
    type V = GossipView;

    open spec fn view(&self) -> GossipView {
        match self {
            GossipText::Join(n) => GossipView::Join(n@),
            GossipText::Chat(t) => GossipView::Chat(t@),
        }
    }
}

/// A text that begins with the marker announces the nickname left after every
/// leading repetition of the marker is removed; any other text is a chat line.
pub open spec fn gossip_meaning(text: Seq<char>) -> GossipView {
    if join_marker().is_prefix_of(text) {
        GossipView::Join(strip_repeated(text, join_marker()))
    } else {
        GossipView::Chat(text)
    }
}

/// Reads a chat-topic message.
pub fn read_gossip(text: &str) -> (g: GossipText)
    ensures
        g@ == gossip_meaning(text@),
{
    if starts_with(text, "JOIN ") {
        GossipText::Join(strip_prefix_repeated(text, "JOIN "))
    } else {
        GossipText::Chat(String::from_str(text))
    }
}

/// The announcement text of `nickname`.
pub fn announcement_text(nickname: &str) -> (s: String)
    ensures
        s@ == announcement(nickname@),
{
    let mut s = String::from_str("JOIN ");
    s.append(nickname);
    s
}

/// The UTF-8 bytes that announce `nickname` on the chat topic.
pub fn announcement_payload(nickname: &str) -> (b: Vec<u8>)
    ensures
        b@ == encode_utf8(announcement(nickname@)),
{
    let s = announcement_text(nickname);
    s.as_str().as_bytes_vec()
}

/// What `String::from_utf8_lossy` makes of a byte sequence.
pub uninterp spec fn lossy_utf8(bytes: Seq<u8>) -> Seq<char>;

/// `String::from_utf8_lossy`: the text of `data`, every invalid UTF-8
/// sequence replaced by U+FFFD. Its documentation gives valid UTF-8 back
/// unchanged, so valid bytes decode as UTF-8; what replacement text invalid
/// bytes get is left to the name.
#[verifier::external_body]
pub(crate) fn text_from_bytes(data: &[u8]) -> (s: String)
    ensures
        s@ == lossy_utf8(data@),
        valid_utf8(data@) ==> s@ == decode_utf8(data@),
{
    String::from_utf8_lossy(data).into_owned()
}

} // verus!
