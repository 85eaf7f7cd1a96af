use nami::input::{generate_hint_labels, parse_command, BrowserAction, InputHandler, Mode, SpecialKey};

#[test]
fn normal_mode_scroll() {
    let mut handler = InputHandler::new();
    assert_eq!(handler.mode(), Mode::Normal);
    assert_eq!(handler.handle_key('j', false, false), BrowserAction::ScrollDown(3));
    assert_eq!(handler.handle_key('k', false, false), BrowserAction::ScrollUp(3));
}

#[test]
fn normal_mode_gg_sequence() {
    let mut handler = InputHandler::new();
    let action1 = handler.handle_key('g', false, false);
    assert_eq!(action1, BrowserAction::Noop);
    let action2 = handler.handle_key('g', false, false);
    assert_eq!(action2, BrowserAction::ScrollToTop);
}

#[test]
fn normal_mode_gt_sequence() {
    let mut handler = InputHandler::new();
    handler.handle_key('g', false, false);
    let action = handler.handle_key('t', false, false);
    assert_eq!(action, BrowserAction::NextTab);
}

#[test]
fn enter_command_mode() {
    let mut handler = InputHandler::new();
    handler.handle_key(':', false, false);
    assert_eq!(handler.mode(), Mode::Command);
}

#[test]
fn enter_search_mode() {
    let mut handler = InputHandler::new();
    handler.handle_key('/', false, false);
    assert_eq!(handler.mode(), Mode::Search);
}

#[test]
fn escape_returns_to_normal() {
    let mut handler = InputHandler::new();
    handler.handle_key(':', false, false);
    assert_eq!(handler.mode(), Mode::Command);
    handler.handle_special_key(SpecialKey::Escape);
    assert_eq!(handler.mode(), Mode::Normal);
}

#[test]
fn insert_mode_typing() {
    let mut handler = InputHandler::new();
    handler.set_mode(Mode::Insert);
    handler.handle_key('h', false, false);
    handler.handle_key('i', false, false);
    assert_eq!(handler.command_buffer(), "hi");
}

#[test]
fn command_execution() {
    let mut handler = InputHandler::new();
    handler.handle_key(':', false, false);
    handler.handle_key('q', false, false);
    let action = handler.handle_special_key(SpecialKey::Enter);
    assert_eq!(action, BrowserAction::ExecuteCommand("q".to_string()));
}

#[test]
fn parse_command_open() {
    let action = parse_command("open https://example.com");
    assert_eq!(action, BrowserAction::ExecuteCommand("open https://example.com".to_string()));
}

#[test]
fn parse_command_quit() {
    let action = parse_command("quit");
    assert_eq!(action, BrowserAction::Quit);
}

#[test]
fn hint_label_generation() {
    let labels = generate_hint_labels(5);
    assert_eq!(labels.len(), 5);
    let unique: std::collections::HashSet<_> = labels.iter().collect();
    assert_eq!(unique.len(), 5);
}

#[test]
fn ctrl_keys_in_normal() {
    let mut handler = InputHandler::new();
    assert_eq!(handler.handle_key('t', true, false), BrowserAction::NewTab);
    assert_eq!(handler.handle_key('w', true, false), BrowserAction::CloseTab);
    assert_eq!(handler.handle_key('q', true, false), BrowserAction::Quit);
}

#[test]
fn mode_indicator() {
    let mut handler = InputHandler::new();
    assert_eq!(handler.mode_indicator(), "NORMAL");
    handler.set_mode(Mode::Insert);
    assert_eq!(handler.mode_indicator(), "INSERT");
    handler.set_mode(Mode::Command);
    assert_eq!(handler.mode_indicator(), "COMMAND");
}

#[test]
fn backspace_undoes_typing() {
    let mut handler = InputHandler::new();
    handler.handle_key(':', false, false);
    handler.handle_key('a', false, false);
    handler.handle_key('b', false, false);
    handler.handle_special_key(SpecialKey::Backspace);
    assert_eq!(handler.command_buffer(), "a");
    assert_eq!(handler.cursor_pos(), 1);
}

#[test]
fn hint_labels_are_distinct_for_many_links() {
    let labels = generate_hint_labels(800);
    let unique: std::collections::HashSet<_> = labels.iter().collect();
    assert_eq!(unique.len(), 800);
}

#[test]
fn hint_labels_run_through_the_alphabet() {
    assert_eq!(generate_hint_labels(3), vec!["a", "b", "c"]);
    let labels = generate_hint_labels(703);
    assert_eq!(labels[25], "z");
    assert_eq!(labels[26], "aa");
    assert_eq!(labels[27], "ab");
    assert_eq!(labels[52], "ba");
    assert_eq!(labels[701], "zz");
    assert_eq!(labels[702], "aaa");
}

#[test]
fn parse_command_aliases() {
    assert_eq!(parse_command("q"), BrowserAction::Quit);
    assert_eq!(parse_command("o"), BrowserAction::OpenUrl);
    assert_eq!(parse_command("bm"), BrowserAction::ToggleBookmark);
    assert_eq!(parse_command("  history  "), BrowserAction::ShowHistory);
}

#[test]
fn cursor_is_a_byte_offset() {
    let mut handler = InputHandler::new();
    handler.handle_key(':', false, false);
    handler.handle_key('é', false, false);
    handler.handle_special_key(SpecialKey::End);
    assert_eq!(handler.command_buffer(), "é");
    assert_eq!(handler.cursor_pos(), 2);
    assert!(handler.command_buffer().is_char_boundary(handler.cursor_pos()));
    handler.handle_key('x', false, false);
    handler.handle_special_key(SpecialKey::Left);
    assert_eq!(handler.command_buffer(), "éx");
    assert_eq!(handler.cursor_pos(), 2);
}

#[test]
fn cursor_stays_on_char_boundaries() {
    let mut handler = InputHandler::new();
    handler.handle_key('o', false, false);
    let keys = ['a', 'é', '日', '🦀', 'b'];
    let specials = [SpecialKey::Left, SpecialKey::Left, SpecialKey::Backspace, SpecialKey::Right, SpecialKey::Home, SpecialKey::Delete, SpecialKey::End];
    for round in 0..20 {
        handler.handle_key(keys[round % keys.len()], false, false);
        let buf = handler.command_buffer().to_string();
        assert!(handler.cursor_pos() <= buf.len());
        assert!(buf.is_char_boundary(handler.cursor_pos()));
        handler.handle_special_key(specials[round % specials.len()]);
        let buf = handler.command_buffer().to_string();
        assert!(handler.cursor_pos() <= buf.len());
        assert!(buf.is_char_boundary(handler.cursor_pos()));
    }
}
