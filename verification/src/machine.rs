//! The state machine of the program as mathematics: what a state is, what
//! one key press makes of it, and what holds of every state that key
//! presses can reach.

use vstd::prelude::*;
use crate::key::{Key, QUIT_CHAR};
use crate::note::{composed, NoteView};
use crate::panes::{InputMode, ViewerView, Windows};
use crate::stateful_list::ListView;
use crate::text::LINE_BREAK;

verus! {

/// The labels of the menu, in order.
pub open spec fn menu_labels() -> Seq<Seq<char>> {
    seq!["New note"@, "Quit"@]
}

/// The labels of the composer's actions, in order.
pub open spec fn viewer_labels() -> Seq<Seq<char>> {
    seq!["Start writing"@, "Cancel"@, "Save"@]
}

/// Position of "New note" in the menu.
pub const MENU_NEW_NOTE: usize = 0;

/// Position of "Quit" in the menu.
pub const MENU_QUIT: usize = 1;

/// Position of "Start writing" among the composer's actions.
pub const VIEWER_START_WRITING: usize = 0;

/// Position of "Cancel" among the composer's actions.
pub const VIEWER_CANCEL: usize = 1;

/// Position of "Save" among the composer's actions.
pub const VIEWER_SAVE: usize = 2;

/// A state of the program.
pub struct AppView {
    /// The pane that has the keyboard.
    pub active_window: Windows,
    /// The menu's labels and its cursor.
    pub menu_actions: ListView<Seq<char>>,
    /// The saved notes, oldest first, and the cursor among them.
    pub state_notes: ListView<NoteView>,
    /// The composer.
    pub viewer_actions: ViewerView,
    /// Whether the notes have been handed out to be written to disk. Once
    /// they have, the program is over and no key changes anything.
    pub finished: bool,
}

impl AppView {
    /// The state in which the program starts, given the notes that were
    /// kept from the last run: the menu has the keyboard and its first
    /// action is selected.
    pub open spec fn initial(notes: Seq<NoteView>) -> AppView {
        AppView {
            active_window: Windows::ACTIONS,
            menu_actions: ListView::with_items(menu_labels()).select_first(),
            state_notes: ListView::with_items(notes),
            viewer_actions: ViewerView {
                actions: ListView::with_items(viewer_labels()),
                input_mode: InputMode::Normal,
                input: Seq::empty(),
            },
            finished: false,
        }
    }

    /// What every operation keeps: the two lists of actions are the ones
    /// the program starts with, each cursor points at an item of its list,
    /// and the composer is in `Editing` mode only while it has the keyboard.
    pub open spec fn wf(self) -> bool {
        &&& self.menu_actions.items == menu_labels()
        &&& self.viewer_actions.actions.items == viewer_labels()
        &&& self.menu_actions.wf()
        &&& self.state_notes.wf()
        &&& self.viewer_actions.actions.wf()
        &&& self.active_window != Windows::WRITER ==> self.viewer_actions.input_mode
            == InputMode::Normal
    }

    /// What key presses keep while the program runs: the cursors follow the
    /// keyboard. The pane that has the keyboard has a cursor, the notes have
    /// one only while they have the keyboard, the composer's actions only
    /// while the composer has it, and the menu keeps its cursor on "New
    /// note" while the composer is open.
    pub open spec fn focused(self) -> bool {
        !self.finished ==> match self.active_window {
            Windows::ACTIONS => {
                &&& self.menu_actions.selected is Some
                &&& self.state_notes.selected is None
                &&& self.viewer_actions.actions.selected is None
            },
            Windows::NOTES => {
                &&& self.menu_actions.selected is None
                &&& self.state_notes.selected is Some
                &&& self.viewer_actions.actions.selected is None
            },
            Windows::WRITER => {
                &&& self.menu_actions.selected == Some(MENU_NEW_NOTE as nat)
                &&& self.state_notes.selected is None
                &&& self.viewer_actions.actions.selected is Some
            },
        }
    }

    /// The actions that are on show: the composer's while it has the
    /// keyboard, the menu's otherwise.
    pub open spec fn shown_actions(self) -> ListView<Seq<char>> {
        if self.active_window == Windows::WRITER {
            self.viewer_actions.actions
        } else {
            self.menu_actions
        }
    }

    /// The note that is open to be read: the one under the cursor, while
    /// the notes have the keyboard.
    pub open spec fn open_note(self) -> Option<NoteView> {
        match self.state_notes.selected {
            Some(i) => if self.active_window == Windows::NOTES && i
                < self.state_notes.items.len() {
                Some(self.state_notes.items[i as int])
            } else {
                None
            },
            None => None,
        }
    }

    /// The state after the notes were handed out to be written to disk: the
    /// store is empty and the program is over. A program that is over stays
    /// as it is.
    pub open spec fn quit(self) -> AppView {
        if self.finished {
            self
        } else {
            AppView { state_notes: ListView::with_items(Seq::empty()), finished: true, ..self }
        }
    }

    /// The state with `note` behind the other notes.
    pub open spec fn add_note(self, note: NoteView) -> AppView {
        AppView { state_notes: self.state_notes.push(note), ..self }
    }

    /// The state without the note at `index`.
    pub open spec fn remove_note(self, index: int) -> AppView
        recommends
            0 <= index < self.state_notes.items.len(),
    {
        AppView { state_notes: self.state_notes.remove(index), ..self }
    }

    /// The state with the composer replaced.
    pub open spec fn with_viewer(self, viewer_actions: ViewerView) -> AppView {
        AppView { viewer_actions, ..self }
    }

    /// The state with the composer's text replaced.
    pub open spec fn with_input(self, input: Seq<char>) -> AppView {
        self.with_viewer(ViewerView { input, ..self.viewer_actions })
    }

    /// The state with the cursor among the composer's actions replaced.
    pub open spec fn with_actions(self, actions: ListView<Seq<char>>) -> AppView {
        self.with_viewer(ViewerView { actions, ..self.viewer_actions })
    }

    /// The state with the composer's mode replaced.
    pub open spec fn with_mode(self, input_mode: InputMode) -> AppView {
        self.with_viewer(ViewerView { input_mode, ..self.viewer_actions })
    }

    /// The composer is closed and the menu has the keyboard again. The menu
    /// still has the cursor it had when the composer was opened.
    pub open spec fn leave_writer(self) -> AppView {
        AppView {
            active_window: Windows::ACTIONS,
            ..self.with_actions(self.viewer_actions.actions.unselect())
        }
    }

    /// What a key makes of the state while the menu has the keyboard.
    pub open spec fn step_actions(self, key: Key) -> AppView {
        match key {
            Key::Char(c) => if c == QUIT_CHAR {
                self.quit()
            } else {
                self
            },
            Key::Esc => self.quit(),
            Key::Down => AppView { menu_actions: self.menu_actions.next(), ..self },
            Key::Up => AppView { menu_actions: self.menu_actions.previous(), ..self },
            Key::Right => if self.state_notes.items.len() > 0 {
                AppView {
                    active_window: Windows::NOTES,
                    menu_actions: self.menu_actions.unselect(),
                    state_notes: self.state_notes.select_first(),
                    ..self
                }
            } else {
                self
            },
            Key::Enter => if self.menu_actions.selected == Some(MENU_NEW_NOTE as nat) {
                AppView {
                    active_window: Windows::WRITER,
                    ..self.with_actions(self.viewer_actions.actions.select_first())
                }
            } else if self.menu_actions.selected == Some(MENU_QUIT as nat) {
                self.quit()
            } else {
                self
            },
            _ => self,
        }
    }

    /// What a key makes of the state while the notes have the keyboard.
    pub open spec fn step_notes(self, key: Key) -> AppView {
        match key {
            Key::Char(c) => if c == QUIT_CHAR {
                self.quit()
            } else {
                self
            },
            Key::Up => AppView { state_notes: self.state_notes.previous(), ..self },
            Key::Down => AppView { state_notes: self.state_notes.next(), ..self },
            Key::Left => AppView {
                active_window: Windows::ACTIONS,
                menu_actions: self.menu_actions.select_first(),
                state_notes: self.state_notes.unselect(),
                ..self
            },
            _ => self,
        }
    }

    /// The state after "Save": the text has become a note behind the other
    /// notes, the composer is empty and closed.
    pub open spec fn save(self, timestamp: Seq<char>) -> AppView {
        self.add_note(composed(self.viewer_actions.input, timestamp)).with_input(
            Seq::empty(),
        ).leave_writer()
    }

    /// What a key makes of the state while the composer has the keyboard and
    /// moves among its actions. `timestamp` is the time at which the key was
    /// pressed. "Cancel" and the escape key both give the keyboard back to
    /// the menu, but only "Cancel" throws the text away: after the escape key
    /// the text is still there when the composer is opened again.
    pub open spec fn step_writer_normal(self, key: Key, timestamp: Seq<char>) -> AppView {
        match key {
            Key::Enter => if self.viewer_actions.actions.selected == Some(
                VIEWER_START_WRITING as nat,
            ) {
                self.with_mode(InputMode::Editing)
            } else if self.viewer_actions.actions.selected == Some(VIEWER_CANCEL as nat) {
                self.with_input(Seq::empty()).leave_writer()
            } else if self.viewer_actions.actions.selected == Some(VIEWER_SAVE as nat) {
                self.save(timestamp)
            } else {
                self
            },
            Key::Up => self.with_actions(self.viewer_actions.actions.previous()),
            Key::Down => self.with_actions(self.viewer_actions.actions.next()),
            Key::Esc => self.leave_writer(),
            Key::Char(c) => if c == QUIT_CHAR {
                self.quit()
            } else {
                self
            },
            _ => self,
        }
    }

    /// What a key makes of the state while the composer has the keyboard and
    /// takes text. Every character is text here, the one that elsewhere
    /// ends the program too.
    pub open spec fn step_writer_editing(self, key: Key) -> AppView {
        match key {
            Key::Enter => self.with_input(self.viewer_actions.input.push(LINE_BREAK)),
            Key::Char(c) => self.with_input(self.viewer_actions.input.push(c)),
            Key::Backspace => if self.viewer_actions.input.len() > 0 {
                self.with_input(self.viewer_actions.input.drop_last())
            } else {
                self
            },
            Key::Esc => self.with_mode(InputMode::Normal),
            _ => self,
        }
    }

    /// What one key press makes of the state. `timestamp` is the time at
    /// which the key was pressed; only "Save" reads it. A key that has no
    /// meaning where it is pressed changes nothing.
    pub open spec fn step(self, key: Key, timestamp: Seq<char>) -> AppView {
        if self.finished {
            self
        } else {
            match self.active_window {
                Windows::ACTIONS => self.step_actions(key),
                Windows::NOTES => self.step_notes(key),
                Windows::WRITER => match self.viewer_actions.input_mode {
                    InputMode::Normal => self.step_writer_normal(key, timestamp),
                    InputMode::Editing => self.step_writer_editing(key),
                },
            }
        }
    }

    /// Whether the key ends the program: the notes are handed out to be
    /// written to disk and the program is over.
    pub open spec fn exits(self, key: Key) -> bool {
        !self.finished && match self.active_window {
            Windows::ACTIONS => key == Key::Char(QUIT_CHAR) || key == Key::Esc || (key
                == Key::Enter && self.menu_actions.selected == Some(MENU_QUIT as nat)),
            Windows::NOTES => key == Key::Char(QUIT_CHAR),
            Windows::WRITER => self.viewer_actions.input_mode == InputMode::Normal && key
                == Key::Char(QUIT_CHAR),
        }
    }

    /// Whether the key saves the composer's text as a note, which is when
    /// the time is read.
    pub open spec fn saves(self, key: Key) -> bool {
        &&& !self.finished
        &&& self.active_window == Windows::WRITER
        &&& self.viewer_actions.input_mode == InputMode::Normal
        &&& key == Key::Enter
        &&& self.viewer_actions.actions.selected == Some(VIEWER_SAVE as nat)
    }
}

/// The program starts in a state that is well formed and whose cursors
/// follow the keyboard, whatever notes were kept.
pub proof fn lemma_initial_state(notes: Seq<NoteView>)
    ensures
        AppView::initial(notes).wf(),
        AppView::initial(notes).focused(),
        AppView::initial(notes).active_window == Windows::ACTIONS,
        AppView::initial(notes).menu_actions.selected == Some(0nat),
        AppView::initial(notes).state_notes.items == notes,
        !AppView::initial(notes).finished,
{
}

/// No key press leads out of the well-formed states, nor out of those whose
/// cursors follow the keyboard.
pub proof fn lemma_step_keeps_invariants(state: AppView, key: Key, timestamp: Seq<char>)
    requires
        state.wf(),
    ensures
        state.step(key, timestamp).wf(),
        state.focused() ==> state.step(key, timestamp).focused(),
{
}

/// The operations on the note store keep a state well formed. Adding a note
/// also keeps the cursors where the keyboard is.
pub proof fn lemma_store_keeps_invariants(state: AppView, note: NoteView, index: int)
    requires
        state.wf(),
    ensures
        state.add_note(note).wf(),
        state.focused() ==> state.add_note(note).focused(),
        0 <= index < state.state_notes.items.len() ==> state.remove_note(index).wf(),
        state.quit().wf(),
        state.quit().focused(),
{
}

/// The notes get the keyboard only where there is a note to select. With an
/// empty store the key that opens them changes nothing, and whenever a key
/// does open them, the first note is selected.
pub proof fn lemma_notes_open_only_with_notes(state: AppView, key: Key, timestamp: Seq<char>)
    ensures
        !state.finished && state.active_window == Windows::ACTIONS
            && state.state_notes.items.len() == 0 ==> state.step(Key::Right, timestamp) == state,
        state.active_window != Windows::NOTES && state.step(key, timestamp).active_window
            == Windows::NOTES ==> {
            &&& key == Key::Right
            &&& state.state_notes.items.len() > 0
            &&& state.step(key, timestamp).state_notes.selected == Some(0nat)
            &&& state.step(key, timestamp).state_notes.items == state.state_notes.items
        },
{
}

/// While the notes have the keyboard and the cursors follow it, a note is
/// open to be read.
pub proof fn lemma_notes_pane_shows_a_note(state: AppView)
    requires
        state.wf(),
        state.focused(),
        !state.finished,
        state.active_window == Windows::NOTES,
    ensures
        state.open_note() is Some,
        state.state_notes.items.len() > 0,
{
}

/// Only the key that saves a note reads the time: every other key press
/// gives the same state whatever the time is.
pub proof fn lemma_only_save_reads_the_time(
    state: AppView,
    key: Key,
    timestamp: Seq<char>,
    other: Seq<char>,
)
    requires
        !state.saves(key),
    ensures
        state.step(key, timestamp) == state.step(key, other),
{
}

/// A key that saves a note puts the composed note behind the others, empties
/// and closes the composer, and gives the keyboard back to the menu.
pub proof fn lemma_save_appends_note(state: AppView, key: Key, timestamp: Seq<char>)
    requires
        state.saves(key),
    ensures
        state.step(key, timestamp).state_notes.items == state.state_notes.items.push(
            composed(state.viewer_actions.input, timestamp),
        ),
        state.step(key, timestamp).viewer_actions.input == Seq::<char>::empty(),
        state.step(key, timestamp).viewer_actions.actions.selected is None,
        state.step(key, timestamp).active_window == Windows::ACTIONS,
        !state.exits(key),
{
}

/// Leaving the composer by the escape key keeps the text that was typed;
/// leaving it by "Cancel" empties it. Either way the menu has the keyboard
/// afterwards and none of the composer's actions is selected.
pub proof fn lemma_escape_keeps_text_cancel_clears(state: AppView, timestamp: Seq<char>)
    requires
        !state.finished,
        state.active_window == Windows::WRITER,
        state.viewer_actions.input_mode == InputMode::Normal,
    ensures
        state.step(Key::Esc, timestamp) == state.leave_writer(),
        state.step(Key::Esc, timestamp).viewer_actions.input == state.viewer_actions.input,
        state.viewer_actions.actions.selected == Some(VIEWER_CANCEL as nat) ==> state.step(
            Key::Enter,
            timestamp,
        ) == state.with_input(Seq::empty()).leave_writer(),
        state.leave_writer().active_window == Windows::ACTIONS,
        state.leave_writer().viewer_actions.actions.selected is None,
{
}

/// The quit character ends the program from each of the three panes, unless
/// the composer is taking text. A key that ends the program hands out the
/// notes and leaves a program that is over; in a program that is over, no
/// key ends it again or changes anything.
pub proof fn lemma_quit_ends_program_once(state: AppView, key: Key, timestamp: Seq<char>)
    ensures
        !state.finished && !(state.active_window == Windows::WRITER
            && state.viewer_actions.input_mode == InputMode::Editing) ==> state.exits(
            Key::Char(QUIT_CHAR),
        ),
        state.exits(key) ==> state.step(key, timestamp) == state.quit() && state.step(
            key,
            timestamp,
        ).finished,
        !state.exits(key) ==> state.step(key, timestamp).finished == state.finished,
        state.finished ==> !state.exits(key) && state.step(key, timestamp) == state,
{
}

impl AppView {
    /// The state after the keys of `keys` were pressed in order, the key at
    /// each position at the time that `timestamps` has at that position.
    pub open spec fn run(self, keys: Seq<Key>, timestamps: Seq<Seq<char>>) -> AppView
        recommends
            keys.len() == timestamps.len(),
        decreases keys.len(),
    {
        if keys.len() == 0 {
            self
        } else {
            self.run(keys.drop_last(), timestamps.drop_last()).step(keys.last(), timestamps.last())
        }
    }

    /// How many times the notes are handed out to be written to disk while
    /// the keys of `keys` are pressed in order.
    pub open spec fn exits_during(self, keys: Seq<Key>, timestamps: Seq<Seq<char>>) -> nat
        recommends
            keys.len() == timestamps.len(),
        decreases keys.len(),
    {
        if keys.len() == 0 {
            0
        } else {
            let earlier = self.exits_during(keys.drop_last(), timestamps.drop_last());
            if self.run(keys.drop_last(), timestamps.drop_last()).exits(keys.last()) {
                earlier + 1
            } else {
                earlier
            }
        }
    }
}

/// Whatever keys are pressed, and however often the program is asked to
/// end, a running program hands out its notes at most once: exactly once if
/// the keys end it, and never if they do not.
pub proof fn lemma_notes_handed_out_once(
    state: AppView,
    keys: Seq<Key>,
    timestamps: Seq<Seq<char>>,
)
    requires
        !state.finished,
        keys.len() == timestamps.len(),
    ensures
        state.exits_during(keys, timestamps) == if state.run(keys, timestamps).finished {
            1nat
        } else {
            0nat
        },
    decreases keys.len(),
{
    if keys.len() > 0 {
        lemma_notes_handed_out_once(state, keys.drop_last(), timestamps.drop_last());
        lemma_quit_ends_program_once(
            state.run(keys.drop_last(), timestamps.drop_last()),
            keys.last(),
            timestamps.last(),
        );
    }
}

/// A program that is over hands out nothing more, whatever keys follow.
pub proof fn lemma_finished_hands_out_nothing(
    state: AppView,
    keys: Seq<Key>,
    timestamps: Seq<Seq<char>>,
)
    requires
        state.finished,
        keys.len() == timestamps.len(),
    ensures
        state.run(keys, timestamps) == state,
        state.exits_during(keys, timestamps) == 0,
    decreases keys.len(),
{
    if keys.len() > 0 {
        lemma_finished_hands_out_nothing(state, keys.drop_last(), timestamps.drop_last());
    }
}

/// The notes that a program hands out when it ends are the notes that the
/// next run starts with, in the same order, if the disk gives back what it
/// was given.
pub proof fn lemma_restart_restores_notes(state: AppView)
    ensures
        AppView::initial(state.state_notes.items).state_notes == ListView::with_items(
            state.state_notes.items,
        ),
{
}

} // verus!
