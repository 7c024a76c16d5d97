use termnotes::app::{App, StoreError};
use termnotes::key::Key;
use termnotes::note::{Note, SavedNotes};
use termnotes::panes::{InputMode, MenuAction, ViewerAction, Windows};
use termnotes::text::Caret;

fn note(title: &str, text: &str, timestamp: &str) -> Note {
    Note { title: title.to_string(), text: text.to_string(), timestamp: timestamp.to_string() }
}

fn two_notes() -> SavedNotes {
    SavedNotes {
        notes: vec![
            note("first", "one", "2023-01-02 03:04:05"),
            note("second", "two", "2023-06-07 08:09:10"),
        ],
    }
}

fn press(app: &mut App, keys: &[Key]) {
    for key in keys {
        assert!(app.handle_key_at(*key, "2024-01-01 00:00:00".to_string()).is_none());
    }
}

fn type_text(app: &mut App, text: &str) {
    for c in text.chars() {
        let key = if c == '\n' { Key::Enter } else { Key::Char(c) };
        assert!(app.handle_key(key).is_none());
    }
}

fn labels_of(items: &Vec<(&str, usize)>) -> Vec<String> {
    items.iter().map(|item| item.0.to_string()).collect()
}

fn editing_app() -> App<'static> {
    let mut app = App::new(None);
    press(&mut app, &[Key::Enter, Key::Enter]);
    assert_eq!(app.active_window(), Windows::WRITER);
    assert_eq!(app.viewer_actions().input_mode, InputMode::Editing);
    app
}

#[test]
fn menu_action_numbers_its_labels_from_one() {
    let menu = MenuAction::new(vec!["a", "b", "c"]);
    assert_eq!(menu.stateful.items(), &vec![("a", 1), ("b", 2), ("c", 3)]);
    assert_eq!(menu.stateful.selected(), None);
    let empty = MenuAction::new(Vec::new());
    assert_eq!(empty.stateful.len(), 0);
}

#[test]
fn viewer_action_starts_in_normal_mode_without_text() {
    let viewer = ViewerAction::new(vec!["x", "y"]);
    assert_eq!(viewer.stateful.items(), &vec![("x", 1), ("y", 2)]);
    assert_eq!(viewer.stateful.selected(), None);
    assert_eq!(viewer.input_mode, InputMode::Normal);
    assert_eq!(viewer.input, "");
    assert_eq!(viewer.cursor(), None);
}

#[test]
fn program_starts_in_the_menu_with_first_action_selected() {
    let app = App::new(None);
    assert_eq!(app.active_window(), Windows::ACTIONS);
    assert_eq!(app.menu_actions().stateful.selected(), Some(0));
    assert_eq!(labels_of(app.menu_actions().stateful.items()), vec!["New note", "Quit"]);
    assert_eq!(
        labels_of(app.viewer_actions().stateful.items()),
        vec!["Start writing", "Cancel", "Save"]
    );
    assert_eq!(app.viewer_actions().stateful.selected(), None);
    assert_eq!(app.viewer_actions().input_mode, InputMode::Normal);
    assert_eq!(app.viewer_actions().input, "");
    assert_eq!(app.state_notes().stateful.len(), 0);
    assert_eq!(app.state_notes().stateful.selected(), None);
    assert!(!app.finished());
}

#[test]
fn program_starts_with_the_notes_that_were_kept() {
    let app = App::new(Some(two_notes()));
    assert_eq!(app.state_notes().stateful.items(), &two_notes().notes);
    assert_eq!(app.state_notes().stateful.selected(), None);
    assert_eq!(app.active_window(), Windows::ACTIONS);
}

#[test]
fn notes_pane_stays_closed_while_store_is_empty() {
    let mut app = App::new(None);
    press(&mut app, &[Key::Right]);
    assert_eq!(app.active_window(), Windows::ACTIONS);
    assert_eq!(app.menu_actions().stateful.selected(), Some(0));
    assert_eq!(app.state_notes().stateful.selected(), None);
    press(&mut app, &[Key::Down, Key::Right, Key::Right]);
    assert_eq!(app.active_window(), Windows::ACTIONS);
    assert_eq!(app.menu_actions().stateful.selected(), Some(1));
}

#[test]
fn right_opens_notes_and_left_returns_to_menu() {
    let mut app = App::new(Some(two_notes()));
    press(&mut app, &[Key::Down, Key::Right]);
    assert_eq!(app.active_window(), Windows::NOTES);
    assert_eq!(app.state_notes().stateful.selected(), Some(0));
    assert_eq!(app.menu_actions().stateful.selected(), None);
    press(&mut app, &[Key::Down]);
    assert_eq!(app.state_notes().stateful.selected(), Some(1));
    press(&mut app, &[Key::Down]);
    assert_eq!(app.state_notes().stateful.selected(), Some(0));
    press(&mut app, &[Key::Up]);
    assert_eq!(app.state_notes().stateful.selected(), Some(1));
    press(&mut app, &[Key::Left]);
    assert_eq!(app.active_window(), Windows::ACTIONS);
    assert_eq!(app.menu_actions().stateful.selected(), Some(0));
    assert_eq!(app.state_notes().stateful.selected(), None);
}

#[test]
fn menu_cursor_moves_and_wraps() {
    let mut app = App::new(None);
    press(&mut app, &[Key::Down]);
    assert_eq!(app.menu_actions().stateful.selected(), Some(1));
    press(&mut app, &[Key::Down]);
    assert_eq!(app.menu_actions().stateful.selected(), Some(0));
    press(&mut app, &[Key::Up]);
    assert_eq!(app.menu_actions().stateful.selected(), Some(1));
    assert_eq!(app.active_window(), Windows::ACTIONS);
}

#[test]
fn keys_without_meaning_change_nothing() {
    let mut app = App::new(Some(two_notes()));
    press(&mut app, &[Key::Other, Key::Left, Key::Backspace, Key::Char('x'), Key::Char('Q')]);
    assert_eq!(app.active_window(), Windows::ACTIONS);
    assert_eq!(app.menu_actions().stateful.selected(), Some(0));
    press(&mut app, &[Key::Right]);
    press(&mut app, &[Key::Other, Key::Right, Key::Enter, Key::Esc, Key::Backspace, Key::Char('x')]);
    assert_eq!(app.active_window(), Windows::NOTES);
    assert_eq!(app.state_notes().stateful.selected(), Some(0));
    press(&mut app, &[Key::Left, Key::Enter]);
    press(&mut app, &[Key::Other, Key::Left, Key::Right, Key::Backspace, Key::Char('x')]);
    assert_eq!(app.active_window(), Windows::WRITER);
    assert_eq!(app.viewer_actions().stateful.selected(), Some(0));
    assert_eq!(app.viewer_actions().input, "");
    press(&mut app, &[Key::Enter]);
    press(&mut app, &[Key::Other, Key::Left, Key::Right, Key::Up, Key::Down]);
    assert_eq!(app.viewer_actions().input_mode, InputMode::Editing);
    assert_eq!(app.viewer_actions().input, "");
    assert_eq!(app.state_notes().stateful.items(), &two_notes().notes);
}

#[test]
fn enter_on_new_note_opens_the_composer() {
    let mut app = App::new(None);
    press(&mut app, &[Key::Enter]);
    assert_eq!(app.active_window(), Windows::WRITER);
    assert_eq!(app.viewer_actions().input_mode, InputMode::Normal);
    assert_eq!(app.viewer_actions().stateful.selected(), Some(0));
    assert_eq!(app.menu_actions().stateful.selected(), Some(0));
    assert_eq!(app.viewer_actions().cursor(), None);
}

#[test]
fn composer_cursor_moves_and_wraps() {
    let mut app = App::new(None);
    press(&mut app, &[Key::Enter, Key::Down]);
    assert_eq!(app.viewer_actions().stateful.selected(), Some(1));
    press(&mut app, &[Key::Down]);
    assert_eq!(app.viewer_actions().stateful.selected(), Some(2));
    press(&mut app, &[Key::Down]);
    assert_eq!(app.viewer_actions().stateful.selected(), Some(0));
    press(&mut app, &[Key::Up]);
    assert_eq!(app.viewer_actions().stateful.selected(), Some(2));
}

#[test]
fn typing_appends_and_backspace_removes() {
    let mut app = editing_app();
    type_text(&mut app, "ab\nc");
    assert_eq!(app.viewer_actions().input, "ab\nc");
    press(&mut app, &[Key::Backspace]);
    assert_eq!(app.viewer_actions().input, "ab\n");
    press(&mut app, &[Key::Backspace, Key::Backspace, Key::Backspace]);
    assert_eq!(app.viewer_actions().input, "");
    press(&mut app, &[Key::Backspace]);
    assert_eq!(app.viewer_actions().input, "");
    assert_eq!(app.viewer_actions().input_mode, InputMode::Editing);
    type_text(&mut app, "é🐎");
    press(&mut app, &[Key::Backspace]);
    assert_eq!(app.viewer_actions().input, "é");
}

#[test]
fn quit_character_is_text_while_editing() {
    let mut app = editing_app();
    type_text(&mut app, "quiet q");
    assert_eq!(app.viewer_actions().input, "quiet q");
    assert!(!app.finished());
    assert_eq!(app.active_window(), Windows::WRITER);
}

#[test]
fn escape_leaves_editing_and_keeps_text() {
    let mut app = editing_app();
    type_text(&mut app, "draft");
    press(&mut app, &[Key::Esc]);
    assert_eq!(app.active_window(), Windows::WRITER);
    assert_eq!(app.viewer_actions().input_mode, InputMode::Normal);
    assert_eq!(app.viewer_actions().input, "draft");
    assert_eq!(app.viewer_actions().stateful.selected(), Some(0));
}

#[test]
fn escape_in_composer_returns_to_menu_and_keeps_text() {
    let mut app = editing_app();
    type_text(&mut app, "draft");
    press(&mut app, &[Key::Esc, Key::Esc]);
    assert_eq!(app.active_window(), Windows::ACTIONS);
    assert_eq!(app.viewer_actions().stateful.selected(), None);
    assert_eq!(app.viewer_actions().input, "draft");
    assert_eq!(app.menu_actions().stateful.selected(), Some(0));
    assert!(!app.finished());
}

#[test]
fn cancel_returns_to_menu_and_clears_text() {
    let mut app = editing_app();
    type_text(&mut app, "draft");
    press(&mut app, &[Key::Esc, Key::Down, Key::Enter]);
    assert_eq!(app.active_window(), Windows::ACTIONS);
    assert_eq!(app.viewer_actions().stateful.selected(), None);
    assert_eq!(app.viewer_actions().input, "");
    assert_eq!(app.state_notes().stateful.len(), 0);
}

#[test]
fn save_makes_a_note_of_the_text() {
    let mut app = editing_app();
    type_text(&mut app, "My Title\nline one\nline two");
    press(&mut app, &[Key::Esc, Key::Up]);
    assert_eq!(app.viewer_actions().stateful.selected(), Some(2));
    assert!(app.saves(Key::Enter));
    assert!(!app.saves(Key::Down));
    let exit = app.handle_key_at(Key::Enter, "2024-02-29 23:59:58".to_string());
    assert!(exit.is_none());
    assert_eq!(
        app.state_notes().stateful.items(),
        &vec![note("My Title", "line oneline two", "2024-02-29 23:59:58")]
    );
    assert_eq!(app.active_window(), Windows::ACTIONS);
    assert_eq!(app.viewer_actions().stateful.selected(), None);
    assert_eq!(app.viewer_actions().input, "");
    assert_eq!(app.viewer_actions().input_mode, InputMode::Normal);
    assert_eq!(app.menu_actions().stateful.selected(), Some(0));
}

#[test]
fn save_stamps_the_note_with_the_time() {
    let mut app = editing_app();
    type_text(&mut app, "My Title\nline one\nline two");
    press(&mut app, &[Key::Esc, Key::Up]);
    assert!(app.handle_key(Key::Enter).is_none());
    let notes = app.state_notes().stateful.items();
    assert_eq!(notes.len(), 1);
    assert_eq!(notes[0].title, "My Title");
    assert_eq!(notes[0].text, "line oneline two");
    let stamp: Vec<char> = notes[0].timestamp.chars().collect();
    assert_eq!(stamp.len(), 19);
    for (i, c) in stamp.iter().enumerate() {
        match i {
            4 | 7 => assert_eq!(*c, '-'),
            10 => assert_eq!(*c, ' '),
            13 | 16 => assert_eq!(*c, ':'),
            _ => assert!(c.is_ascii_digit()),
        }
    }
}

#[test]
fn save_with_empty_text_uses_fallback_title() {
    let mut app = App::new(None);
    press(&mut app, &[Key::Enter, Key::Up]);
    let exit = app.handle_key_at(Key::Enter, "2024-03-04 05:06:07".to_string());
    assert!(exit.is_none());
    assert_eq!(
        app.state_notes().stateful.items(),
        &vec![note("New note", "", "2024-03-04 05:06:07")]
    );
    assert_eq!(app.active_window(), Windows::ACTIONS);
}

#[test]
fn saved_notes_keep_their_order() {
    let mut app = App::new(Some(two_notes()));
    press(&mut app, &[Key::Enter, Key::Enter]);
    type_text(&mut app, "third\nthree");
    press(&mut app, &[Key::Esc, Key::Up]);
    assert!(app.handle_key_at(Key::Enter, "2024-01-01 00:00:00".to_string()).is_none());
    let titles: Vec<&str> =
        app.state_notes().stateful.items().iter().map(|n| n.title.as_str()).collect();
    assert_eq!(titles, vec!["first", "second", "third"]);
}

#[test]
fn timestamp_is_read_only_by_save() {
    let mut one = App::new(Some(two_notes()));
    let mut other = App::new(Some(two_notes()));
    let keys = [Key::Right, Key::Down, Key::Left, Key::Enter, Key::Enter, Key::Char('a'), Key::Esc];
    for key in keys {
        assert!(one.handle_key_at(key, "2024-01-01 00:00:00".to_string()).is_none());
        assert!(other.handle_key_at(key, String::new()).is_none());
        assert_eq!(one.active_window(), other.active_window());
        assert_eq!(one.viewer_actions().input, other.viewer_actions().input);
        assert_eq!(one.viewer_actions().input_mode, other.viewer_actions().input_mode);
        assert_eq!(
            one.viewer_actions().stateful.selected(),
            other.viewer_actions().stateful.selected()
        );
        assert_eq!(one.state_notes().stateful.selected(), other.state_notes().stateful.selected());
        assert_eq!(one.state_notes().stateful.items(), other.state_notes().stateful.items());
    }
}

#[test]
fn quit_character_ends_program_from_menu() {
    let mut app = App::new(Some(two_notes()));
    let exit = app.handle_key(Key::Char('q'));
    assert_eq!(exit, Some(two_notes()));
    assert!(app.finished());
    assert_eq!(app.state_notes().stateful.len(), 0);
}

#[test]
fn escape_ends_program_from_menu() {
    let mut app = App::new(Some(two_notes()));
    assert_eq!(app.handle_key(Key::Esc), Some(two_notes()));
    assert!(app.finished());
}

#[test]
fn enter_on_quit_ends_program() {
    let mut app = App::new(Some(two_notes()));
    press(&mut app, &[Key::Down]);
    assert_eq!(app.handle_key(Key::Enter), Some(two_notes()));
    assert!(app.finished());
}

#[test]
fn quit_character_ends_program_from_notes() {
    let mut app = App::new(Some(two_notes()));
    press(&mut app, &[Key::Right, Key::Down]);
    assert_eq!(app.handle_key(Key::Char('q')), Some(two_notes()));
    assert!(app.finished());
    assert_eq!(app.state_notes().stateful.selected(), None);
}

#[test]
fn quit_character_ends_program_from_composer() {
    let mut app = App::new(Some(two_notes()));
    press(&mut app, &[Key::Enter, Key::Down]);
    assert_eq!(app.handle_key(Key::Char('q')), Some(two_notes()));
    assert!(app.finished());
}

#[test]
fn quit_with_empty_store_hands_out_no_notes() {
    let mut app = App::new(None);
    assert_eq!(app.handle_key(Key::Char('q')), Some(SavedNotes { notes: Vec::new() }));
    assert!(app.finished());
}

#[test]
fn notes_are_handed_out_once() {
    let mut app = App::new(Some(two_notes()));
    let mut handed_out = 0;
    for key in [Key::Char('q'), Key::Char('q'), Key::Esc, Key::Enter, Key::Down, Key::Enter] {
        if app.handle_key(key).is_some() {
            handed_out += 1;
        }
    }
    assert_eq!(handed_out, 1);
    assert!(app.finished());
    assert_eq!(app.quit(), None);
    assert!(app.finished());
}

#[test]
fn finished_program_ignores_every_key() {
    let mut app = App::new(Some(two_notes()));
    press(&mut app, &[Key::Enter, Key::Enter, Key::Char('x'), Key::Esc]);
    assert!(app.quit().is_some());
    let keys = [
        Key::Char('q'),
        Key::Char('y'),
        Key::Enter,
        Key::Backspace,
        Key::Esc,
        Key::Up,
        Key::Down,
        Key::Left,
        Key::Right,
        Key::Other,
    ];
    for key in keys {
        assert_eq!(app.handle_key(key), None);
        assert!(app.finished());
        assert_eq!(app.active_window(), Windows::WRITER);
        assert_eq!(app.viewer_actions().input, "x");
        assert_eq!(app.viewer_actions().input_mode, InputMode::Normal);
        assert_eq!(app.viewer_actions().stateful.selected(), Some(0));
        assert_eq!(app.state_notes().stateful.len(), 0);
    }
}

#[test]
fn quit_hands_out_notes_and_then_nothing() {
    let mut app = App::new(Some(two_notes()));
    assert!(!app.finished());
    assert_eq!(app.quit(), Some(two_notes()));
    assert!(app.finished());
    assert_eq!(app.quit(), None);
    assert_eq!(app.active_window(), Windows::ACTIONS);
}

#[test]
fn add_note_appends() {
    let mut app = App::new(Some(two_notes()));
    app.add_note(note("third", "three", "2024-01-01 00:00:00"));
    assert_eq!(app.state_notes().stateful.len(), 3);
    assert_eq!(app.state_notes().stateful.items()[2].title, "third");
    assert_eq!(app.state_notes().stateful.items()[0].title, "first");
    assert_eq!(app.active_window(), Windows::ACTIONS);
}

#[test]
fn remove_note_by_position() {
    let mut app = App::new(Some(two_notes()));
    assert_eq!(app.remove_note(0), Ok(()));
    assert_eq!(app.state_notes().stateful.items(), &vec![note("second", "two", "2023-06-07 08:09:10")]);
    assert_eq!(app.remove_note(0), Ok(()));
    assert_eq!(app.state_notes().stateful.len(), 0);
}

#[test]
fn remove_note_out_of_range_is_refused() {
    let mut app = App::new(Some(two_notes()));
    assert_eq!(app.remove_note(2), Err(StoreError::OutOfRange));
    assert_eq!(app.remove_note(usize::MAX), Err(StoreError::OutOfRange));
    assert_eq!(app.state_notes().stateful.items(), &two_notes().notes);
    let mut empty = App::new(None);
    assert_eq!(empty.remove_note(0), Err(StoreError::OutOfRange));
}

#[test]
fn removing_the_selected_last_note_clears_the_selection() {
    let mut app = App::new(Some(two_notes()));
    press(&mut app, &[Key::Right, Key::Down]);
    assert_eq!(app.state_notes().stateful.selected(), Some(1));
    assert_eq!(app.remove_note(0), Ok(()));
    assert_eq!(app.state_notes().stateful.selected(), None);
    press(&mut app, &[Key::Down]);
    assert_eq!(app.state_notes().stateful.selected(), Some(0));
}

#[test]
fn cursor_is_shown_only_while_editing() {
    let mut app = App::new(None);
    assert_eq!(app.viewer_actions().cursor(), None);
    press(&mut app, &[Key::Enter]);
    assert_eq!(app.viewer_actions().cursor(), None);
    press(&mut app, &[Key::Enter]);
    assert_eq!(app.viewer_actions().cursor(), Some(Caret { line: 0, column: 0 }));
    type_text(&mut app, "Groceries\nMilk");
    assert_eq!(app.viewer_actions().cursor(), Some(Caret { line: 1, column: 4 }));
    press(&mut app, &[Key::Enter]);
    assert_eq!(app.viewer_actions().cursor(), Some(Caret { line: 2, column: 0 }));
    press(&mut app, &[Key::Esc]);
    assert_eq!(app.viewer_actions().cursor(), None);
}

#[test]
fn groceries_from_empty_store_to_next_run() {
    let mut app = App::new(None);
    assert_eq!(app.state_notes().stateful.len(), 0);
    press(&mut app, &[Key::Enter]);
    assert_eq!(app.active_window(), Windows::WRITER);
    press(&mut app, &[Key::Enter]);
    type_text(&mut app, "Groceries\nMilk\nEggs");
    press(&mut app, &[Key::Esc, Key::Down, Key::Down]);
    assert!(app.handle_key(Key::Enter).is_none());
    assert_eq!(app.active_window(), Windows::ACTIONS);

    press(&mut app, &[Key::Right]);
    assert_eq!(app.active_window(), Windows::NOTES);
    assert_eq!(app.state_notes().stateful.len(), 1);
    assert_eq!(app.state_notes().stateful.selected(), Some(0));
    assert_eq!(app.state_notes().stateful.items()[0].title, "Groceries");
    assert_eq!(app.state_notes().stateful.items()[0].text, "MilkEggs");

    let saved = app.handle_key(Key::Char('q')).expect("the quit key hands out the notes");
    assert_eq!(saved.notes.len(), 1);
    assert!(app.finished());
    let written = saved.notes[0].clone();

    let next = App::new(Some(saved));
    assert_eq!(next.state_notes().stateful.items(), &vec![written]);
    assert_eq!(next.state_notes().stateful.items()[0].title, "Groceries");
    assert_eq!(next.active_window(), Windows::ACTIONS);
    assert!(!next.finished());
}

#[test]
fn shown_actions_follow_the_keyboard() {
    let mut app = App::new(Some(two_notes()));
    assert_eq!(labels_of(app.shown_actions().items()), vec!["New note", "Quit"]);
    assert_eq!(app.shown_actions().selected(), Some(0));
    press(&mut app, &[Key::Right]);
    assert_eq!(labels_of(app.shown_actions().items()), vec!["New note", "Quit"]);
    assert_eq!(app.shown_actions().selected(), None);
    press(&mut app, &[Key::Left, Key::Enter, Key::Down]);
    assert_eq!(
        labels_of(app.shown_actions().items()),
        vec!["Start writing", "Cancel", "Save"]
    );
    assert_eq!(app.shown_actions().selected(), Some(1));
    press(&mut app, &[Key::Esc]);
    assert_eq!(labels_of(app.shown_actions().items()), vec!["New note", "Quit"]);
}

#[test]
fn open_note_is_the_selected_note_of_the_notes_pane() {
    let mut app = App::new(Some(two_notes()));
    assert_eq!(app.open_note(), None);
    press(&mut app, &[Key::Right]);
    assert_eq!(app.open_note(), Some(&note("first", "one", "2023-01-02 03:04:05")));
    press(&mut app, &[Key::Down]);
    assert_eq!(app.open_note(), Some(&note("second", "two", "2023-06-07 08:09:10")));
    assert_eq!(app.remove_note(1), Ok(()));
    assert_eq!(app.open_note(), None);
    press(&mut app, &[Key::Left]);
    assert_eq!(app.open_note(), None);
    press(&mut app, &[Key::Enter]);
    assert_eq!(app.open_note(), None);
}
