//! The terminal side of the node: the chat log, the input line, scrolling,
//! and how each chat line is styled.
use vstd::prelude::*;
use crate::text::{decimal, decimal_text, pop_char, push_char, starts_with};

verus! {

/// One line of the chat log and the time of day it was made, as the clock
/// showed it then (`HH:MM:SS`).
#[derive(Debug, Clone, PartialEq, Eq)]
pub struct ChatMessage {
    pub timestamp: String,
    pub content: String,
}

/// A chat line as plain text.
pub struct ChatMessageView {
    pub timestamp: Seq<char>,
    pub content: Seq<char>,
}

impl View for ChatMessage {
    type V = ChatMessageView;

    open spec fn view(&self) -> ChatMessageView {
        ChatMessageView { timestamp: self.timestamp@, content: self.content@ }
    }
}

impl DeepView for ChatMessage {
    type V = ChatMessageView;

    open spec fn deep_view(&self) -> ChatMessageView {
        self@
    }
}

impl ChatMessage {
    /// A chat line holding `content`, made at the time of day `timestamp`.
    pub fn new(timestamp: String, content: String) -> (m: ChatMessage)
        ensures
            m.timestamp@ == timestamp@,
            m.content@ == content@,
    {
        ChatMessage { timestamp, content }
    }
}

/// The greatest scroll offset (`u16::MAX`): scrolled to the bottom.
pub open spec fn bottom() -> u16 {
    0xffff
}

/// The state of the terminal screen.
pub struct TuiState {
    pub messages: Vec<ChatMessage>,
    pub input: String,
    pub scroll: u16,
    pub h_scroll: u16,
    pub auto_scroll: bool,
}

/// The screen state as plain values.
pub struct TuiView {
    pub messages: Seq<ChatMessageView>,
    pub input: Seq<char>,
    pub scroll: u16,
    /// The first column of the chat pane that is shown.
    pub h_scroll: u16,
    pub auto_scroll: bool,
}

impl View for TuiState {
    type V = TuiView;

    open spec fn view(&self) -> TuiView {
        TuiView {
            messages: self.messages.deep_view(),
            input: self.input@,
            scroll: self.scroll,
            h_scroll: self.h_scroll,
            auto_scroll: self.auto_scroll,
        }
    }
}

/// A key press or mouse-wheel turn, as far as the screen tells them apart.
#[derive(Debug, Clone, Copy, PartialEq, Eq)]
pub enum Key {
    Char(char),
    Backspace,
    Enter,
    Up,
    Down,
    Left,
    Right,
    /// The wheel turned up.
    WheelUp,
    /// The wheel turned down.
    WheelDown,
    /// The wheel turned up with Shift held.
    ShiftWheelUp,
    /// The wheel turned down with Shift held.
    ShiftWheelDown,
    Other,
}

/// What a key press asks of the node.
#[derive(Debug, Clone, PartialEq, Eq)]
pub enum KeyOutcome {
    /// Keep going.
    Continue,
    /// The input line was submitted; it holds the line as it was.
    Submit(String),
    /// Leave the program.
    Quit,
}

/// A key outcome as plain values.
pub enum OutcomeView {
    Continue,
    Submit(Seq<char>),
    Quit,
}

impl View for KeyOutcome {
    type V = OutcomeView;

    open spec fn view(&self) -> OutcomeView {
        match self {
            KeyOutcome::Continue => OutcomeView::Continue,
            KeyOutcome::Submit(l) => OutcomeView::Submit(l@),
            KeyOutcome::Quit => OutcomeView::Quit,
        }
    }
}

/// One less, or 0 at 0.
pub open spec fn step_back(v: u16) -> u16 {
    if v > 0 {
        (v - 1) as u16
    } else {
        0
    }
}

/// One more, or `u16::MAX` at `u16::MAX`.
pub open spec fn step_on(v: u16) -> u16 {
    if v < bottom() {
        (v + 1) as u16
    } else {
        bottom()
    }
}

/// What a key press does: `q` on an empty line quits; `G` jumps to the
/// bottom and follows new lines (so neither is typed then); any other char
/// is typed; Backspace erases the last char; Enter submits the line and
/// clears it. Up and Down, and the wheel turned up and down, move the
/// vertical offset by one row; Left and Right, and the wheel turned with
/// Shift held, move the horizontal offset by one column; both offsets stay
/// within `0..=u16::MAX`. Other keys do nothing.
pub open spec fn key_step(st: TuiView, key: Key) -> (TuiView, OutcomeView) {
    match key {
        Key::Char(c) => if c == 'q' && st.input.len() == 0 {
            (st, OutcomeView::Quit)
        } else if c == 'G' {
            (TuiView { scroll: bottom(), auto_scroll: true, ..st }, OutcomeView::Continue)
        } else {
            (TuiView { input: st.input.push(c), ..st }, OutcomeView::Continue)
        },
        Key::Backspace => (
            TuiView {
                input: if st.input.len() > 0 {
                    st.input.drop_last()
                } else {
                    st.input
                },
                ..st
            },
            OutcomeView::Continue,
        ),
        Key::Enter => (TuiView { input: Seq::empty(), ..st }, OutcomeView::Submit(st.input)),
        Key::Up | Key::WheelUp => (
            TuiView { scroll: step_back(st.scroll), ..st },
            OutcomeView::Continue,
        ),
        Key::Down | Key::WheelDown => (
            TuiView { scroll: step_on(st.scroll), ..st },
            OutcomeView::Continue,
        ),
        Key::Left | Key::ShiftWheelUp => (
            TuiView { h_scroll: step_back(st.h_scroll), ..st },
            OutcomeView::Continue,
        ),
        Key::Right | Key::ShiftWheelDown => (
            TuiView { h_scroll: step_on(st.h_scroll), ..st },
            OutcomeView::Continue,
        ),
        Key::Other => (st, OutcomeView::Continue),
    }
}

/// The number of chat lines as the screen counts them (a `u16`, wrapping).
pub open spec fn line_count(n: nat) -> int {
    n as int % 0x10000
}

/// `a - b`, or 0 when `b > a`.
pub open spec fn minus_or_zero(a: int, b: int) -> int {
    if a > b {
        a - b
    } else {
        0
    }
}

/// The largest useful scroll offset for `n` lines in a chat pane of
/// `height` rows, two of which are its border.
pub open spec fn max_scroll(n: nat, height: u16) -> int {
    minus_or_zero(line_count(n), minus_or_zero(height as int, 2))
}

/// Adding a chat line: it goes to the end of the log; while following,
/// the view jumps to the bottom.
pub open spec fn receive_step(st: TuiView, m: ChatMessageView) -> TuiView {
    TuiView {
        messages: st.messages.push(m),
        scroll: if st.auto_scroll {
            bottom()
        } else {
            st.scroll
        },
        ..st
    }
}

/// Fitting the view to a chat pane of `height` rows: the offset is clamped
/// to [`max_scroll`], and the view follows new lines exactly when it ends
/// up at that bottom offset.
pub open spec fn fit_step(st: TuiView, height: u16) -> TuiView {
    let top = max_scroll(st.messages.len(), height);
    let scroll: u16 = if st.scroll <= top {
        st.scroll
    } else {
        top as u16
    };
    TuiView { scroll, auto_scroll: scroll == top, ..st }
}

impl TuiState {
    /// An empty log, an empty input line, following the newest line.
    pub fn new() -> (s: TuiState)
        ensures
            s@.messages.len() == 0,
            s@.input.len() == 0,
            s@.scroll == 0,
            s@.h_scroll == 0,
            s@.auto_scroll,
    {
        TuiState {
            messages: Vec::new(),
            input: String::new(),
            scroll: 0,
            h_scroll: 0,
            auto_scroll: true,
        }
    }

    /// Applies a key press (see [`key_step`]).
    pub fn on_key(&mut self, key: Key) -> (r: KeyOutcome)
        ensures
            (final(self)@, r@) == key_step(old(self)@, key),
    {
        match key {
            Key::Char(c) => {
                if c == 'q' && self.input.as_str().is_empty() {
                    KeyOutcome::Quit
                } else if c == 'G' {
                    self.scroll = 0xffff;
                    self.auto_scroll = true;
                    KeyOutcome::Continue
                } else {
                    push_char(&mut self.input, c);
                    KeyOutcome::Continue
                }
            },
            Key::Backspace => {
                let _ = pop_char(&mut self.input);
                KeyOutcome::Continue
            },
            Key::Enter => {
                let mut line = String::new();
                std::mem::swap(&mut line, &mut self.input);
                KeyOutcome::Submit(line)
            },
            Key::Up | Key::WheelUp => {
                if self.scroll > 0 {
                    self.scroll = self.scroll - 1;
                }
                KeyOutcome::Continue
            },
            Key::Down | Key::WheelDown => {
                if self.scroll < 0xffff {
                    self.scroll = self.scroll + 1;
                }
                KeyOutcome::Continue
            },
            Key::Left | Key::ShiftWheelUp => {
                if self.h_scroll > 0 {
                    self.h_scroll = self.h_scroll - 1;
                }
                KeyOutcome::Continue
            },
            Key::Right | Key::ShiftWheelDown => {
                if self.h_scroll < 0xffff {
                    self.h_scroll = self.h_scroll + 1;
                }
                KeyOutcome::Continue
            },
            Key::Other => KeyOutcome::Continue,
        }
    }

    /// Adds a chat line to the log; while following, jumps to the bottom.
    pub fn receive(&mut self, msg: ChatMessage)
        ensures
            final(self)@ == receive_step(old(self)@, msg@),
    {
        let ghost before = self.messages.deep_view();
        self.messages.push(msg);
        assert(self.messages.deep_view() =~= before.push(msg@));
        if self.auto_scroll {
            self.scroll = 0xffff;
        }
    }

    /// Clamps the scroll offset to what a chat pane of `height` rows can
    /// show, and follows new lines exactly when the offset is at the bottom.
    pub fn fit_scroll(&mut self, height: u16)
        ensures
            final(self)@ == fit_step(old(self)@, height),
    {
        let lines = (self.messages.len() % 0x10000) as u16;
        let inner: u16 = if height > 2 {
            height - 2
        } else {
            0
        };
        let top: u16 = if lines > inner {
            lines - inner
        } else {
            0
        };
        if self.scroll > top {
            self.scroll = top;
        }
        self.auto_scroll = self.scroll == top;
    }

    /// The input pane's text: `> ` and the line being typed.
    pub fn input_line(&self) -> (s: String)
        ensures
            s@ == "> "@ + self@.input,
    {
        let mut s = String::from_str("> ");
        s.append(self.input.as_str());
        s
    }
}

/// The colour a chat line's body is drawn in.
#[derive(Debug, Clone, PartialEq, Eq)]
pub enum Tone {
    Gray,
    Yellow,
    White,
}

/// A chat line split for drawing: its time stamp, the label that opens it,
/// and the rest, drawn in `tone`.
#[derive(Debug, Clone, PartialEq, Eq)]
pub struct StyledLine {
    pub stamp: String,
    pub label: String,
    pub body: String,
    pub tone: Tone,
}

/// A styled line as plain values.
pub struct StyledView {
    pub stamp: Seq<char>,
    pub label: Seq<char>,
    pub body: Seq<char>,
    pub tone: Tone,
}

impl View for StyledLine {
    type V = StyledView;

    open spec fn view(&self) -> StyledView {
        StyledView { stamp: self.stamp@, label: self.label@, body: self.body@, tone: self.tone }
    }
}

/// System lines are gray under a `[SYSTEM]` label, direct messages yellow
/// under a `[DM from` or `[DM to` label, everything else white and unlabelled.
/// The stamp reads `[HH:MM:SS] `.
pub open spec fn styled(m: ChatMessageView) -> StyledView {
    let c = m.content;
    let stamp = "["@ + m.timestamp + "] "@;
    if "[SYSTEM]"@.is_prefix_of(c) {
        StyledView { stamp, label: "[SYSTEM]"@, body: c.skip(8), tone: Tone::Gray }
    } else if "[DM from"@.is_prefix_of(c) {
        StyledView { stamp, label: "[DM from"@, body: c.skip(8), tone: Tone::Yellow }
    } else if "[DM to"@.is_prefix_of(c) {
        StyledView { stamp, label: "[DM to"@, body: c.skip(6), tone: Tone::Yellow }
    } else {
        StyledView { stamp, label: Seq::empty(), body: c, tone: Tone::White }
    }
}

/// Splits a chat line for drawing.
pub fn style_line(m: &ChatMessage) -> (s: StyledLine)
    ensures
        s@ == styled(m@),
{
    proof {
        reveal_strlit("[SYSTEM]");
        reveal_strlit("[DM from");
        reveal_strlit("[DM to");
    }
    let mut stamp = String::from_str("[");
    stamp.append(m.timestamp.as_str());
    stamp.append("] ");
    let c = m.content.as_str();
    let n = c.unicode_len();
    if starts_with(c, "[SYSTEM]") {
        let body = String::from_str(c.substring_char(8, n));
        assert(body@ =~= m.content@.skip(8));
        StyledLine { stamp, label: String::from_str("[SYSTEM]"), body, tone: Tone::Gray }
    } else if starts_with(c, "[DM from") {
        let body = String::from_str(c.substring_char(8, n));
        assert(body@ =~= m.content@.skip(8));
        StyledLine { stamp, label: String::from_str("[DM from"), body, tone: Tone::Yellow }
    } else if starts_with(c, "[DM to") {
        let body = String::from_str(c.substring_char(6, n));
        assert(body@ =~= m.content@.skip(6));
        StyledLine { stamp, label: String::from_str("[DM to"), body, tone: Tone::Yellow }
    } else {
        StyledLine { stamp, label: String::new(), body: String::from_str(c), tone: Tone::White }
    }
}

/// The status bar's text for `peers` connected peers.
pub open spec fn status_text(peers: nat) -> Seq<char> {
    if peers > 0 {
        "Connected (Peers: "@ + decimal(peers) + ")"@
    } else {
        "Disconnected"@
    }
}

/// The status bar's text.
pub fn status_line(peers: usize) -> (s: String)
    ensures
        s@ == status_text(peers as nat),
{
    if peers > 0 {
        let mut s = String::from_str("Connected (Peers: ");
        let d = decimal_text(peers);
        s.append(d.as_str());
        s.append(")");
        s
    } else {
        String::from_str("Disconnected")
    }
}

/// The command summary shown at start and on `/help`.
pub open spec fn help_text() -> Seq<Seq<char>> {
    seq![
        "[SYSTEM]: Available Commands:"@,
        "[SYSTEM]: - /chat <message> - Send a message to all peers"@,
        "[SYSTEM]: - /dm <nickname> <message> - Send a direct message"@,
        "[SYSTEM]: - /getfile <nickname> <file_name> <local_path> - Request a file"@,
        "[SYSTEM]: - /list - List all known peers"@,
        "[SYSTEM]: - /help - Display this help message"@,
        "[SYSTEM]: - Press 'q' to quit"@,
    ]
}

/// The command summary, one line per entry.
pub fn help_lines() -> (v: Vec<String>)
    ensures
        v.deep_view() == help_text(),
{
    let mut v: Vec<String> = Vec::new();
    v.push(String::from_str("[SYSTEM]: Available Commands:"));
    v.push(String::from_str("[SYSTEM]: - /chat <message> - Send a message to all peers"));
    v.push(String::from_str("[SYSTEM]: - /dm <nickname> <message> - Send a direct message"));
    v.push(
        String::from_str(
            "[SYSTEM]: - /getfile <nickname> <file_name> <local_path> - Request a file",
        ),
    );
    v.push(String::from_str("[SYSTEM]: - /list - List all known peers"));
    v.push(String::from_str("[SYSTEM]: - /help - Display this help message"));
    v.push(String::from_str("[SYSTEM]: - Press 'q' to quit"));
    assert(v.deep_view() =~= help_text());
    v
}

} // verus!
