use gridplot::browser::{BrowserAction, DirEntry, FileBrowser};
use gridplot::drums::DrumMachine;
use gridplot::input::TextInput;
use gridplot::numfmt::{scalar_fixed2, scalar_trimmed};
use gridplot::scalar::Scalar;
use gridplot::state::{dispatch_key, AppCommand, Key, Screen};

fn chars(s: &str) -> Vec<char> {
    s.chars().collect()
}

fn entry(name: &str, is_dir: bool) -> DirEntry {
    DirEntry { name: chars(name), is_dir }
}

fn browser(names: &[(&str, bool)]) -> FileBrowser {
    let entries = names.iter().map(|(n, d)| entry(n, *d)).collect();
    FileBrowser::new(vec![chars("home")], entries)
}

#[test]
fn fixed_two_decimal_labels() {
    assert_eq!(scalar_fixed2(Scalar::new(0)), "0.00");
    assert_eq!(scalar_fixed2(Scalar::new(450)), "4.50");
    assert_eq!(scalar_fixed2(Scalar::new(-1250)), "-12.50");
    assert_eq!(scalar_fixed2(Scalar::new(12345)), "123.45");
    assert_eq!(scalar_fixed2(Scalar::new(-7)), "-0.07");
}

#[test]
fn trimmed_equation_numbers() {
    assert_eq!(scalar_trimmed(Scalar::new(450)), "4.5");
    assert_eq!(scalar_trimmed(Scalar::new(200)), "2");
    assert_eq!(scalar_trimmed(Scalar::new(-50)), "-0.5");
    assert_eq!(scalar_trimmed(Scalar::new(12345)), "123.45");
    assert_eq!(scalar_trimmed(Scalar::new(0)), "0");
}

#[test]
fn text_input_editing() {
    let mut t = TextInput::default();
    t.handle_event(Key::Char('h'));
    t.handle_event(Key::Char('i'));
    assert_eq!(t.content, chars("hi"));
    assert_eq!(t.cursor, 2);
    t.handle_event(Key::Left);
    t.handle_event(Key::Char('e'));
    assert_eq!(t.content, chars("hei"));
    assert_eq!(t.cursor, 2);
    t.handle_event(Key::Backspace);
    assert_eq!(t.content, chars("hi"));
    assert_eq!(t.cursor, 1);
    t.handle_event(Key::Delete);
    assert_eq!(t.content, chars("h"));
    t.handle_event(Key::Right);
    assert_eq!(t.cursor, 1);
    t.handle_event(Key::Right);
    assert_eq!(t.cursor, 1);
    t.handle_event(Key::Left);
    t.handle_event(Key::Left);
    assert_eq!(t.cursor, 0);
    t.handle_event(Key::Other);
    assert_eq!(t.content, chars("h"));
}

#[test]
fn text_input_rendered_line() {
    let mut t = TextInput::default();
    t.handle_event(Key::Char('a'));
    t.handle_event(Key::Char('b'));
    assert_eq!(t.rendered_line(), chars("ab "));
    t.focused = true;
    assert_eq!(t.rendered_line(), chars("ab_"));
    t.handle_event(Key::Left);
    assert_eq!(t.rendered_line(), chars("a_"));
}

#[test]
fn browser_moves_within_bounds() {
    let mut b = browser(&[("a", false), ("b", false), ("c", false)]);
    b.up();
    assert_eq!(b.selected_index, 0);
    b.down();
    b.down();
    assert_eq!(b.selected_index, 2);
    b.down();
    assert_eq!(b.selected_index, 2);
    b.up();
    assert_eq!(b.selected_index, 1);
}

#[test]
fn browser_traverses_into_directories_only() {
    let mut b = browser(&[("music", true), ("note.txt", false)]);
    let inner = vec![entry("song.mp3", false)];
    b.traverse_into(1, inner.clone());
    assert_eq!(b.current_path, vec![chars("home")]);
    assert_eq!(b.entries.len(), 2);
    b.traverse_into(0, inner);
    assert_eq!(b.current_path, vec![chars("home"), chars("music")]);
    assert_eq!(b.entries.len(), 1);
}

#[test]
fn browser_backtracks_at_index_zero_only() {
    let mut b = browser(&[("a", false)]);
    let parent = vec![entry("home", true), entry("etc", true)];
    b.backtrack(1, parent.clone());
    assert_eq!(b.current_path, vec![chars("home")]);
    b.backtrack(0, parent);
    assert!(b.current_path.is_empty());
    assert_eq!(b.entries.len(), 2);
}

#[test]
fn browser_recognizes_audio_extensions() {
    for (name, want) in [
        ("song.mp3", true),
        ("sound.wav", true),
        ("loop.ogg", true),
        ("notes.txt", false),
        (".mp3", false),
        ("mp3", false),
        ("tune.mp3.bak", false),
        ("deep.tar.ogg", true),
    ] {
        let b = browser(&[(name, false)]);
        assert_eq!(b.selected_is_audio(), want, "{}", name);
    }
}

#[test]
fn browser_selected_entry_accessors() {
    let b = browser(&[("a.mp3", false), ("b", true)]);
    let sel = b.selected_path().unwrap();
    assert_eq!(sel.name, chars("a.mp3"));
    assert_eq!(b.selected_file(), &chars("a.mp3"));
}

#[test]
fn browser_key_handling() {
    let mut b = browser(&[("song.mp3", false), ("music", true)]);
    assert_eq!(b.handle_event(Key::Down), BrowserAction::Stay);
    assert_eq!(b.selected_index, 1);
    assert_eq!(b.handle_event(Key::Enter), BrowserAction::EnterDir(1));
    assert_eq!(b.selected_index, 0);
    assert_eq!(b.handle_event(Key::Enter), BrowserAction::Stay);
    b.down();
    assert_eq!(b.handle_event(Key::Tab), BrowserAction::Parent(1));
    assert_eq!(b.selected_index, 0);
    assert_eq!(b.handle_event(Key::Other), BrowserAction::Stay);
}

#[test]
fn drum_machine_bindings() {
    let mut d = DrumMachine::new();
    assert!(d.source_for('k').is_none());
    d.add_source('k', "kick.wav".to_string());
    d.add_source('s', "snare.wav".to_string());
    assert_eq!(d.source_for('k').unwrap(), "kick.wav");
    assert_eq!(d.source_for('s').unwrap(), "snare.wav");
    d.add_source('k', "kick2.wav".to_string());
    assert_eq!(d.source_for('k').unwrap(), "kick2.wav");
    assert_eq!(d.source_for('s').unwrap(), "snare.wav");
    assert!(d.source_for('x').is_none());
    assert_eq!(d.bindings().len(), 2);
}

#[test]
fn key_dispatch() {
    assert_eq!(dispatch_key(&Screen::Home, Key::Char('q')), AppCommand::Quit);
    assert_eq!(dispatch_key(&Screen::FileBrowser, Key::Char('q')), AppCommand::Quit);
    assert_eq!(dispatch_key(&Screen::FileBrowser, Key::Down), AppCommand::Browser);
    assert_eq!(
        dispatch_key(&Screen::Home, Key::Char('a')),
        AppCommand::Switch(Screen::FileBrowser)
    );
    assert_eq!(dispatch_key(&Screen::Home, Key::Char('b')), AppCommand::Idle);
    assert_eq!(dispatch_key(&Screen::KeyBinding, Key::Enter), AppCommand::Idle);
    assert_eq!(dispatch_key(&Screen::Exiting, Key::Tab), AppCommand::Idle);
}
