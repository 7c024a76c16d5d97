//! The program's state and the operations on it: one key press at a time,
//! and the note store behind the panes.

use vstd::prelude::*;
use crate::clock::utc_timestamp;
use crate::key::{Key, QUIT_CHAR};
use crate::machine::{
    lemma_step_keeps_invariants, menu_labels, viewer_labels, AppView, MENU_NEW_NOTE, MENU_QUIT,
    VIEWER_CANCEL, VIEWER_SAVE, VIEWER_START_WRITING,
};
use crate::note::{note_views, Note, NoteView, SavedNotes};
use crate::panes::{action_list, InputMode, MenuAction, NoteList, ViewerAction, Windows};
use crate::stateful_list::StatefulList;
use crate::text::LINE_BREAK;

verus! {

/// Why the note store refused an operation.
#[derive(Clone, Copy, Debug, PartialEq, Eq, Structural)]
pub enum StoreError {
    /// The store has no note at the position that was named.
    OutOfRange,
}

/// Whether `exit` is what a key press in state `before` hands out: all the
/// notes of the store, in order, where the key ends the program, and
/// nothing where it does not.
pub open spec fn hands_out(before: AppView, key: Key, exit: Option<SavedNotes>) -> bool {
    match exit {
        Some(saved) => before.exits(key) && note_views(saved.notes@) == before.state_notes.items,
        None => !before.exits(key),
    }
}

/// The whole state of the program: the three panes, which of them has the
/// keyboard, and whether the program is over.
pub struct App<'a> {
    menu_actions: MenuAction<'a>,
    state_notes: NoteList,
    viewer_actions: ViewerAction<'a>,
    active_window: Windows,
    finished: bool,
}

impl<'a> View for App<'a> {
    type V = AppView;

    closed spec fn view(&self) -> AppView {
        AppView {
            active_window: self.active_window,
            menu_actions: self.menu_actions@,
            state_notes: self.state_notes@,
            viewer_actions: self.viewer_actions@,
            finished: self.finished,
        }
    }
}

impl<'a> App<'a> {
    /// The program as it starts. `saved` is what was read from disk, or
    /// `None` where nothing could be read: the store is then empty, and the
    /// program starts all the same.
    pub fn new(saved: Option<SavedNotes>) -> (app: App<'a>)
        ensures
            app@ == AppView::initial(
                match saved {
                    Some(saved) => note_views(saved.notes@),
                    None => Seq::empty(),
                },
            ),
            app@.wf(),
            app@.focused(),
    {
        let notes = match saved {
            Some(saved) => saved.notes,
            None => Vec::new(),
        };
        let mut menu_actions = MenuAction::new(vec!["New note", "Quit"]);
        menu_actions.stateful.select_first();
        let state_notes = NoteList { stateful: StatefulList::with_items(notes) };
        let viewer_actions = ViewerAction::new(vec!["Start writing", "Cancel", "Save"]);
        proof {
            assert(menu_actions@.items =~= menu_labels());
            assert(viewer_actions@.actions.items =~= viewer_labels());
            assert(saved is None ==> state_notes@.items =~= Seq::<NoteView>::empty());
        }
        App {
            menu_actions,
            state_notes,
            viewer_actions,
            active_window: Windows::ACTIONS,
            finished: false,
        }
    }

    /// The pane that has the keyboard.
    pub fn active_window(&self) -> (window: Windows)
        ensures
            window == self@.active_window,
    {
        self.active_window
    }

    /// The menu.
    pub fn menu_actions(&self) -> (menu: &MenuAction<'a>)
        ensures
            menu@ == self@.menu_actions,
    {
        &self.menu_actions
    }

    /// The saved notes.
    pub fn state_notes(&self) -> (notes: &NoteList)
        ensures
            notes@ == self@.state_notes,
    {
        &self.state_notes
    }

    /// The composer.
    pub fn viewer_actions(&self) -> (viewer: &ViewerAction<'a>)
        ensures
            viewer@ == self@.viewer_actions,
    {
        &self.viewer_actions
    }

    /// The list of actions that is on show: the composer's while it has the
    /// keyboard, the menu's otherwise.
    pub fn shown_actions(&self) -> (actions: &StatefulList<(&'a str, usize)>)
        ensures
            action_list(actions@) == self@.shown_actions(),
    {
        match self.active_window {
            Windows::WRITER => &self.viewer_actions.stateful,
            _ => &self.menu_actions.stateful,
        }
    }

    /// The note that is open to be read: the one under the cursor, while
    /// the notes have the keyboard.
    pub fn open_note(&self) -> (note: Option<&Note>)
        ensures
            match note {
                Some(note) => self@.open_note() == Some(note@),
                None => self@.open_note() is None,
            },
    {
        match self.active_window {
            Windows::NOTES => match self.state_notes.stateful.selected() {
                Some(i) => Some(&self.state_notes.stateful.items()[i]),
                None => None,
            },
            _ => None,
        }
    }

    /// Whether the program is over.
    pub fn finished(&self) -> (finished: bool)
        ensures
            finished == self@.finished,
    {
        self.finished
    }

    /// Ends the program: hands out all the notes, in order, to be written to
    /// disk, and leaves the store empty. This happens once. Where the
    /// program is over already, nothing is handed out and nothing changes.
    pub fn quit(&mut self) -> (saved: Option<SavedNotes>)
        ensures
            final(self)@ == old(self)@.quit(),
            match saved {
                Some(saved) => !old(self)@.finished && note_views(saved.notes@)
                    == old(self)@.state_notes.items,
                None => old(self)@.finished,
            },
            old(self)@.wf() ==> final(self)@.wf(),
            final(self)@.finished,
    {
        if self.finished {
            return None;
        }
        let notes = self.state_notes.stateful.take_items();
        self.finished = true;
        proof {
            assert(final(self)@.state_notes.items =~= Seq::<NoteView>::empty());
        }
        Some(SavedNotes { notes })
    }

    /// Puts `note` behind the other notes.
    pub fn add_note(&mut self, note: Note)
        ensures
            final(self)@ == old(self)@.add_note(note@),
            old(self)@.wf() ==> final(self)@.wf(),
            old(self)@.wf() && old(self)@.focused() ==> final(self)@.focused(),
    {
        self.state_notes.stateful.push(note);
        proof {
            assert(final(self)@.state_notes.items =~= old(self)@.state_notes.items.push(note@));
        }
    }

    /// Takes the note at `index` out of the store. Where the store has no
    /// note there, nothing changes and the error says so. No key does this:
    /// it is there for a program that wants to offer it.
    pub fn remove_note(&mut self, index: usize) -> (done: Result<(), StoreError>)
        ensures
            match done {
                Ok(_) => index < old(self)@.state_notes.items.len() && final(self)@
                    == old(self)@.remove_note(index as int),
                Err(error) => error == StoreError::OutOfRange && index
                    >= old(self)@.state_notes.items.len() && final(self)@ == old(self)@,
            },
            old(self)@.wf() ==> final(self)@.wf(),
    {
        match self.state_notes.stateful.remove(index) {
            Some(_) => {
                proof {
                    assert(final(self)@.state_notes.items =~= old(self)@.state_notes.items.remove(
                        index as int,
                    ));
                }
                Ok(())
            },
            None => Err(StoreError::OutOfRange),
        }
    }

    /// Whether `key`, pressed now, saves the composer's text as a note.
    pub fn saves(&self, key: Key) -> (saves: bool)
        ensures
            saves == self@.saves(key),
    {
        let on_save = match self.viewer_actions.stateful.selected() {
            Some(current) => current == VIEWER_SAVE,
            None => false,
        };
        !self.finished && self.active_window == Windows::WRITER && self.viewer_actions.input_mode
            == InputMode::Normal && key == Key::Enter && on_save
    }

    /// Interprets one key press. Where the key saves a note, the note is
    /// stamped with the present time in UTC. Where the key ends the program,
    /// all the notes are handed out to be written to disk.
    pub fn handle_key(&mut self, key: Key) -> (exit: Option<SavedNotes>)
        ensures
            exists|timestamp: Seq<char>| final(self)@ == old(self)@.step(key, timestamp),
            !old(self)@.saves(key) ==> final(self)@ == old(self)@.step(key, Seq::empty()),
            hands_out(old(self)@, key, exit),
            old(self)@.wf() ==> final(self)@.wf(),
            old(self)@.wf() && old(self)@.focused() ==> final(self)@.focused(),
    {
        let timestamp = if self.saves(key) {
            utc_timestamp()
        } else {
            String::new()
        };
        self.handle_key_at(key, timestamp)
    }

    /// Interprets one key press made at the time `timestamp`. Where the key
    /// ends the program, all the notes are handed out to be written to disk.
    pub fn handle_key_at(&mut self, key: Key, timestamp: String) -> (exit: Option<SavedNotes>)
        ensures
            final(self)@ == old(self)@.step(key, timestamp@),
            hands_out(old(self)@, key, exit),
            old(self)@.wf() ==> final(self)@.wf(),
            old(self)@.wf() && old(self)@.focused() ==> final(self)@.focused(),
    {
        proof {
            if self@.wf() {
                lemma_step_keeps_invariants(self@, key, timestamp@);
            }
        }
        if self.finished {
            return None;
        }
        match self.active_window {
            Windows::ACTIONS => self.key_in_actions(key),
            Windows::NOTES => self.key_in_notes(key),
            Windows::WRITER => match self.viewer_actions.input_mode {
                InputMode::Normal => self.key_in_writer_normal(key, timestamp),
                InputMode::Editing => {
                    self.key_in_writer_editing(key);
                    None
                },
            },
        }
    }

    fn key_in_actions(&mut self, key: Key) -> (exit: Option<SavedNotes>)
        requires
            !old(self)@.finished,
            old(self)@.active_window == Windows::ACTIONS,
        ensures
            final(self)@ == old(self)@.step_actions(key),
            hands_out(old(self)@, key, exit),
    {
        match key {
            Key::Char(c) => if c == QUIT_CHAR {
                self.quit()
            } else {
                None
            },
            Key::Esc => self.quit(),
            Key::Down => {
                self.menu_actions.stateful.next();
                None
            },
            Key::Up => {
                self.menu_actions.stateful.previous();
                None
            },
            Key::Right => {
                if self.state_notes.stateful.len() > 0 {
                    self.state_notes.stateful.select_first();
                    self.active_window = Windows::NOTES;
                    self.menu_actions.stateful.unselect();
                }
                None
            },
            Key::Enter => match self.menu_actions.stateful.selected() {
                Some(current) => if current == MENU_NEW_NOTE {
                    self.active_window = Windows::WRITER;
                    self.viewer_actions.stateful.select_first();
                    None
                } else if current == MENU_QUIT {
                    self.quit()
                } else {
                    None
                },
                None => None,
            },
            _ => None,
        }
    }

    fn key_in_notes(&mut self, key: Key) -> (exit: Option<SavedNotes>)
        requires
            !old(self)@.finished,
            old(self)@.active_window == Windows::NOTES,
        ensures
            final(self)@ == old(self)@.step_notes(key),
            hands_out(old(self)@, key, exit),
    {
        match key {
            Key::Char(c) => if c == QUIT_CHAR {
                self.quit()
            } else {
                None
            },
            Key::Up => {
                self.state_notes.stateful.previous();
                None
            },
            Key::Down => {
                self.state_notes.stateful.next();
                None
            },
            Key::Left => {
                self.menu_actions.stateful.select_first();
                self.active_window = Windows::ACTIONS;
                self.state_notes.stateful.unselect();
                None
            },
            _ => None,
        }
    }

    fn leave_writer(&mut self)
        ensures
            final(self)@ == old(self)@.leave_writer(),
    {
        self.viewer_actions.stateful.unselect();
        self.active_window = Windows::ACTIONS;
    }

    /// Makes a note of the composer's text, stamped `timestamp`, puts it
    /// behind the other notes, and closes the empty composer.
    fn save(&mut self, timestamp: String)
        ensures
            final(self)@ == old(self)@.save(timestamp@),
    {
        let note = Note::compose(self.viewer_actions.input.as_str(), timestamp);
        self.viewer_actions.input.clear();
        self.add_note(note);
        self.leave_writer();
    }

    fn key_in_writer_normal(&mut self, key: Key, timestamp: String) -> (exit: Option<SavedNotes>)
        requires
            !old(self)@.finished,
            old(self)@.active_window == Windows::WRITER,
            old(self)@.viewer_actions.input_mode == InputMode::Normal,
        ensures
            final(self)@ == old(self)@.step_writer_normal(key, timestamp@),
            hands_out(old(self)@, key, exit),
    {
        match key {
            Key::Enter => {
                match self.viewer_actions.stateful.selected() {
                    Some(current) => if current == VIEWER_START_WRITING {
                        self.viewer_actions.input_mode = InputMode::Editing;
                    } else if current == VIEWER_CANCEL {
                        self.viewer_actions.input.clear();
                        self.leave_writer();
                    } else if current == VIEWER_SAVE {
                        self.save(timestamp);
                    },
                    None => {},
                }
                None
            },
            Key::Up => {
                self.viewer_actions.stateful.previous();
                None
            },
            Key::Down => {
                self.viewer_actions.stateful.next();
                None
            },
            Key::Esc => {
                self.leave_writer();
                None
            },
            Key::Char(c) => if c == QUIT_CHAR {
                self.quit()
            } else {
                None
            },
            _ => None,
        }
    }

    fn key_in_writer_editing(&mut self, key: Key)
        requires
            !old(self)@.finished,
            old(self)@.active_window == Windows::WRITER,
            old(self)@.viewer_actions.input_mode == InputMode::Editing,
        ensures
            final(self)@ == old(self)@.step_writer_editing(key),
            !old(self)@.exits(key),
    {
        match key {
            Key::Enter => {
                self.viewer_actions.input.push(LINE_BREAK);
            },
            Key::Char(c) => {
                self.viewer_actions.input.push(c);
            },
            Key::Backspace => {
                self.viewer_actions.input.pop();
            },
            Key::Esc => {
                self.viewer_actions.input_mode = InputMode::Normal;
            },
            _ => {},
        }
    }
}

} // verus!
