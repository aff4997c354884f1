use swapbytes::tui::{
    help_lines, status_line, style_line, ChatMessage, Key, KeyOutcome, TuiState, Tone,
};

fn msg(content: &str) -> ChatMessage {
    ChatMessage { timestamp: "12:34:56".to_string(), content: content.to_string() }
}

#[test]
fn new_message_keeps_its_parts() {
    let m = ChatMessage::new("09:05:00".to_string(), "hello".to_string());
    assert_eq!(m.timestamp, "09:05:00");
    assert_eq!(m.content, "hello");
}

#[test]
fn typing_and_erasing() {
    let mut st = TuiState::new();
    assert_eq!(st.on_key(Key::Char('h')), KeyOutcome::Continue);
    assert_eq!(st.on_key(Key::Char('i')), KeyOutcome::Continue);
    assert_eq!(st.input, "hi");
    st.on_key(Key::Backspace);
    assert_eq!(st.input, "h");
    st.on_key(Key::Backspace);
    st.on_key(Key::Backspace);
    assert_eq!(st.input, "");
}

#[test]
fn q_quits_only_on_empty_line() {
    let mut st = TuiState::new();
    st.on_key(Key::Char('a'));
    assert_eq!(st.on_key(Key::Char('q')), KeyOutcome::Continue);
    assert_eq!(st.input, "aq");
    let mut empty = TuiState::new();
    assert_eq!(empty.on_key(Key::Char('q')), KeyOutcome::Quit);
}

#[test]
fn capital_g_jumps_to_bottom_and_is_not_typed() {
    let mut st = TuiState::new();
    st.scroll = 3;
    st.auto_scroll = false;
    assert_eq!(st.on_key(Key::Char('G')), KeyOutcome::Continue);
    assert_eq!(st.scroll, u16::MAX);
    assert!(st.auto_scroll);
    assert_eq!(st.input, "");
}

#[test]
fn enter_submits_and_clears() {
    let mut st = TuiState::new();
    for c in "/list".chars() {
        st.on_key(Key::Char(c));
    }
    assert_eq!(st.on_key(Key::Enter), KeyOutcome::Submit("/list".to_string()));
    assert_eq!(st.input, "");
}

#[test]
fn arrows_scroll_within_bounds() {
    let mut st = TuiState::new();
    st.on_key(Key::Up);
    assert_eq!(st.scroll, 0);
    st.on_key(Key::Down);
    st.on_key(Key::Down);
    assert_eq!(st.scroll, 2);
    st.on_key(Key::Up);
    assert_eq!(st.scroll, 1);
    st.scroll = u16::MAX;
    st.on_key(Key::Down);
    assert_eq!(st.scroll, u16::MAX);
    st.on_key(Key::Other);
    assert_eq!(st.scroll, u16::MAX);
}

#[test]
fn receiving_follows_only_when_following() {
    let mut st = TuiState::new();
    st.receive(msg("a"));
    assert_eq!(st.messages.len(), 1);
    assert_eq!(st.scroll, u16::MAX);
    st.auto_scroll = false;
    st.scroll = 0;
    st.receive(msg("b"));
    assert_eq!(st.scroll, 0);
    assert_eq!(st.messages[1].content, "b");
}

#[test]
fn fit_scroll_clamps_and_sets_following() {
    let mut st = TuiState::new();
    for i in 0..10 {
        st.receive(msg(&format!("line {}", i)));
    }
    // 10 lines in a pane of 6 rows (4 inside the border): bottom offset 6.
    st.fit_scroll(6);
    assert_eq!(st.scroll, 6);
    assert!(st.auto_scroll);
    st.scroll = 2;
    st.fit_scroll(6);
    assert_eq!(st.scroll, 2);
    assert!(!st.auto_scroll);
    // A pane taller than the log: everything fits, offset 0.
    st.fit_scroll(40);
    assert_eq!(st.scroll, 0);
    assert!(st.auto_scroll);
    // A pane with no inner rows.
    st.scroll = 100;
    st.fit_scroll(1);
    assert_eq!(st.scroll, 10);
}

#[test]
fn fit_scroll_twice_is_fit_once() {
    let mut st = TuiState::new();
    for _ in 0..5 {
        st.receive(msg("x"));
    }
    st.scroll = 40;
    st.fit_scroll(4);
    let (s1, a1) = (st.scroll, st.auto_scroll);
    st.fit_scroll(4);
    assert_eq!((st.scroll, st.auto_scroll), (s1, a1));
}

#[test]
fn input_pane_text() {
    let mut st = TuiState::new();
    st.on_key(Key::Char('x'));
    assert_eq!(st.input_line(), "> x");
}

#[test]
fn styling_by_label() {
    let s = style_line(&msg("[SYSTEM]: hello"));
    assert_eq!(s.stamp, "[12:34:56] ");
    assert_eq!(s.label, "[SYSTEM]");
    assert_eq!(s.body, ": hello");
    assert_eq!(s.tone, Tone::Gray);
    let d = style_line(&msg("[DM from Bob]: hi"));
    assert_eq!((d.label.as_str(), d.body.as_str(), d.tone), ("[DM from", " Bob]: hi", Tone::Yellow));
    let t = style_line(&msg("[DM to Bob]: hi"));
    assert_eq!((t.label.as_str(), t.body.as_str(), t.tone), ("[DM to", " Bob]: hi", Tone::Yellow));
    let c = style_line(&msg("[Bob]: hi"));
    assert_eq!((c.label.as_str(), c.body.as_str(), c.tone), ("", "[Bob]: hi", Tone::White));
}

#[test]
fn styling_keeps_text() {
    for c in ["[SYSTEM]", "[DM fromX", "[DM to", "plain", "", "[SYSTEM]ü"] {
        let s = style_line(&msg(c));
        assert_eq!(format!("{}{}", s.label, s.body), c);
    }
}

#[test]
fn status_bar() {
    assert_eq!(status_line(0), "Disconnected");
    assert_eq!(status_line(3), "Connected (Peers: 3)");
    assert_eq!(status_line(12), "Connected (Peers: 12)");
}

#[test]
fn help_has_seven_lines() {
    let h = help_lines();
    assert_eq!(h.len(), 7);
    assert_eq!(h[0], "[SYSTEM]: Available Commands:");
    assert_eq!(h[6], "[SYSTEM]: - Press 'q' to quit");
}

#[test]
fn typing_non_ascii_and_erasing() {
    let mut st = TuiState::new();
    st.on_key(Key::Char('é'));
    st.on_key(Key::Char('ß'));
    assert_eq!(st.input, "éß");
    st.on_key(Key::Backspace);
    assert_eq!(st.input, "é");
}

#[test]
fn horizontal_scrolling_by_arrows_and_shift_wheel() {
    let mut st = TuiState::new();
    assert_eq!(st.on_key(Key::Left), KeyOutcome::Continue);
    assert_eq!(st.h_scroll, 0);
    st.on_key(Key::Right);
    st.on_key(Key::Right);
    assert_eq!(st.h_scroll, 2);
    st.on_key(Key::ShiftWheelUp);
    assert_eq!(st.h_scroll, 1);
    st.on_key(Key::ShiftWheelDown);
    assert_eq!(st.h_scroll, 2);
    assert_eq!(st.scroll, 0);
    st.h_scroll = u16::MAX;
    st.on_key(Key::Right);
    assert_eq!(st.h_scroll, u16::MAX);
}

#[test]
fn wheel_scrolls_vertically() {
    let mut st = TuiState::new();
    st.on_key(Key::WheelDown);
    st.on_key(Key::WheelDown);
    assert_eq!(st.scroll, 2);
    st.on_key(Key::WheelUp);
    assert_eq!(st.scroll, 1);
    assert_eq!(st.h_scroll, 0);
    st.on_key(Key::WheelUp);
    st.on_key(Key::WheelUp);
    assert_eq!(st.scroll, 0);
}
