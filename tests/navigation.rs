use vidtui::config::{
    modified_keys, str_to_key, Action, CommandLine, Event, Key, Keybinds, KeybindsAsStr, LineEvent, matches_name,
};
use vidtui::views::{next_selection, prev_selection, ContentType, Page, Screen, TabState, Window, WindowType};

fn labels(n: usize) -> ContentType {
    ContentType::ListContent((0..n).map(|i| i.to_string()).collect())
}

#[test]
fn named_keys() {
    assert_eq!(str_to_key("enter"), Key::Char('\n'));
    assert_eq!(str_to_key("ENTER"), Key::Char('\n'));
    assert_eq!(str_to_key("Page-Down"), Key::PageDown);
    assert_eq!(str_to_key("esc"), Key::Esc);
    assert_eq!(str_to_key("space"), Key::Char(' '));
    assert_eq!(str_to_key("backspace"), Key::Backspace);
    assert_eq!(str_to_key("delete"), Key::Delete);
}

#[test]
fn modified_key_names() {
    assert_eq!(str_to_key("A"), Key::Char('A'));
    assert_eq!(str_to_key("ctrl-c"), Key::Ctrl('c'));
    assert_eq!(str_to_key("Alt-x"), Key::Alt('x'));
    assert_eq!(str_to_key("f1"), Key::F(1));
    assert_eq!(str_to_key("F9"), Key::F(9));
    assert_eq!(str_to_key("f10"), Key::Null);
    assert_eq!(str_to_key("shift-a"), Key::Null);
    assert_eq!(modified_keys(""), Key::Null);
    assert!(matches_name("CtRl-", "ctrl-"));
    assert!(!matches_name("ctrl", "ctrl-"));
}

#[test]
fn default_names_give_default_keys() {
    let parsed = Keybinds::de_keybinds(&KeybindsAsStr::default());
    assert_eq!(parsed, Keybinds::default());
}

#[test]
fn key_actions() {
    let b = Keybinds::default();
    assert_eq!(b.action_for(Key::Char('q')), Action::Quit);
    assert_eq!(b.action_for(Key::Char('j')), Action::MoveDown);
    assert_eq!(b.action_for(Key::Char('\n')), Action::PlayVideo);
    assert_eq!(b.action_for(Key::Char('a')), Action::PlayAudio);
    assert_eq!(b.action_for(Key::Char('A')), Action::QueueAudio);
    assert_eq!(b.action_for(Key::F(2)), Action::SearchView);
    assert_eq!(b.action_for(Key::Char('/')), Action::StartSearch);
    assert_eq!(b.action_for(Key::Char('z')), Action::Ignore);
    let mut same = b;
    same.move_down = Key::Char('q');
    assert_eq!(same.action_for(Key::Char('q')), Action::Quit);
}

#[test]
fn command_line_editing() {
    let mut line = CommandLine::new();
    line.focus(Key::Char('/'));
    assert!(line.focused);
    assert_eq!(line.handle_key(Key::Char('l'), Key::Char('\n')), LineEvent::Edited);
    assert_eq!(line.handle_key(Key::Up, Key::Char('\n')), LineEvent::Unchanged);
    assert_eq!(line.handle_key(Key::Char('\n'), Key::Char('\n')), LineEvent::Submitted(vec!['/', 'l']));
    assert!(!line.focused);
    assert!(line.input.is_empty());
    line.focus(Key::F(1));
    line.handle_key(Key::Char('x'), Key::Char('\n'));
    line.handle_key(Key::Backspace, Key::Char('\n'));
    assert!(!line.focused);
}

#[test]
fn selection_bounds() {
    let mut w = Window::new("w".to_string(), 0, labels(2), WindowType::TopVideos);
    next_selection(&mut w, 2);
    assert_eq!(w.selected, 1);
    next_selection(&mut w, 2);
    assert_eq!(w.selected, 1);
    prev_selection(&mut w);
    prev_selection(&mut w);
    assert_eq!(w.selected, 0);
    let mut empty = Window::new("e".to_string(), 0, labels(0), WindowType::TopVideos);
    assert!(empty.move_down());
    assert_eq!(empty.selected, 0);
    w.selected = 1;
    w.refresh_rows(vec![vec!["only".to_string()]]);
    assert_eq!(w.selected, 0);
    w.replace_content(labels(5));
    assert_eq!(w.len(), 5);
}

#[test]
fn stacked_pages() {
    let mut s = Screen::new(
        vec![
            Window::new("a".to_string(), 0, labels(3), WindowType::TrendingVideos),
            Window::new("b".to_string(), 0, labels(3), WindowType::PopularVideos),
        ],
        vec!["A".to_string(), "B".to_string()],
        "Home".to_string(),
    );
    s.move_tab(true);
    s.move_tab(true);
    assert_eq!(s.get_current_view().tabs.selected, 1);
    s.move_down();
    assert_eq!(s.root.root_windows[1].selected, 1);
    assert_eq!(s.root.root_windows[0].selected, 0);
    let page = Page::new(
        vec![Window::new("pl".to_string(), 0, labels(10), WindowType::PlaylistVideos)],
        vec!["Videos".to_string()],
        String::new(),
    );
    s.push_view(page);
    s.move_down();
    s.move_down();
    s.move_up();
    assert_eq!(s.get_current_view().root_windows[0].selected, 1);
    assert_eq!(s.root.root_windows[1].selected, 1);
    s.pop_stack();
    s.pop_stack();
    assert_eq!(s.get_current_view().root_windows[1].title, "b");
    s.move_tab(false);
    s.move_tab(false);
    assert_eq!(s.get_current_view().tabs.selected, 0);
    let t = TabState::new(vec![], "t".to_string());
    assert_eq!(t.selected, 0);
}

#[test]
fn input_events() {
    let e: Event<Key> = Event::Input(Key::Esc);
    assert_ne!(e, Event::Tick);
    assert_eq!(Event::<Key>::Tick, Event::Tick);
}
