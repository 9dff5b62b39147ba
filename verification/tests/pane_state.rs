//! The terminal pane: input edits, submissions, and the scrollback cap.

use frostbit::sidebar::{Sidebar, SidebarMessage};
use frostbit::terminal::{TerminalPane, TerminalPaneMessage};

#[test]
fn input_changed_tracks_text_and_count() {
    let mut pane = TerminalPane::default();
    pane.update(TerminalPaneMessage::InputChanged(String::from("hello")));
    assert_eq!(pane.input_value, "hello");
    assert_eq!(pane.char_num, 5);
    assert_eq!(pane.display_value, "");
}

#[test]
fn char_count_is_in_characters_not_bytes() {
    let mut pane = TerminalPane::default();
    pane.update(TerminalPaneMessage::InputChanged(String::from("héllo")));
    assert_eq!(pane.char_num, 5);
}

#[test]
fn submit_appends_a_line_and_clears_the_input() {
    let mut pane = TerminalPane::default();
    pane.update(TerminalPaneMessage::InputChanged(String::from("first")));
    pane.update(TerminalPaneMessage::InputSubmit);
    assert_eq!(pane.display_value, "first\n");
    assert_eq!(pane.input_value, "");
    assert_eq!(pane.char_num, 0);
    assert_eq!(pane.line_num, 1);
}

#[test]
fn empty_submit_is_ignored() {
    let mut pane = TerminalPane::default();
    pane.update(TerminalPaneMessage::InputSubmit);
    assert_eq!(pane.display_value, "");
    assert_eq!(pane.line_num, 0);
}

#[test]
fn full_scrollback_drops_the_oldest_line() {
    let mut pane = TerminalPane::default();
    // the cap admits 31 appended lines before dropping begins
    for i in 0..31 {
        pane.update(TerminalPaneMessage::InputChanged(format!("line {}", i)));
        pane.update(TerminalPaneMessage::InputSubmit);
    }
    assert_eq!(pane.line_num, 31);
    assert!(pane.display_value.starts_with("line 0\n"));
    // one more: the oldest line goes, the count stays put
    pane.update(TerminalPaneMessage::InputChanged(String::from("line 31")));
    pane.update(TerminalPaneMessage::InputSubmit);
    assert_eq!(pane.line_num, 31);
    assert!(pane.display_value.starts_with("line 1\n"));
    assert!(pane.display_value.ends_with("line 31\n"));
}

#[test]
fn sidebar_updates_keep_no_state() {
    let mut bar = Sidebar::default();
    assert_eq!(bar.width(), 100);
    assert_eq!(bar.height(), 100);
    bar.update(SidebarMessage::ConnectPressed);
    bar.update(SidebarMessage::DisconnectPressed);
    bar.update(SidebarMessage::RefreshPressed);
    assert_eq!(bar.width(), 100);
    assert_eq!(bar.height(), 100);
}
