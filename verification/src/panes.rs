//! The three panes and what each of them holds: the menu with its actions,
//! the list of saved notes, and the composer with its actions, its mode and
//! the text typed so far.

use vstd::prelude::*;
use vstd::utf8::encode_utf8;
use crate::note::{note_views, Note, NoteView};
use crate::stateful_list::{ListView, StatefulList};
use crate::text::{break_count, caret_after, last_line, Caret};

verus! {

/// The pane that has the keyboard.
#[derive(Clone, Copy, Debug, PartialEq, Eq, Structural)]
pub enum Windows {
    ACTIONS,
    NOTES,
    WRITER,
}

/// What keys mean in the composer: `Normal` moves among its actions,
/// `Editing` types into the text.
#[derive(Clone, Copy, Debug, PartialEq, Eq, Structural)]
pub enum InputMode {
    Normal,
    Editing,
}

/// The labels numbered from one, in order.
pub open spec fn numbered<'a>(labels: Seq<&'a str>) -> Seq<(&'a str, usize)> {
    Seq::new(labels.len(), |i: int| (labels[i], (i + 1) as usize))
}

/// The characters of each label of `items`, in order.
pub open spec fn labels<'a>(items: Seq<(&'a str, usize)>) -> Seq<Seq<char>> {
    items.map_values(|item: (&'a str, usize)| item.0@)
}

/// A list of actions as the state machine sees it: the labels, and which
/// one is selected.
pub open spec fn action_list<'a>(list: ListView<(&'a str, usize)>) -> ListView<Seq<char>> {
    ListView { items: labels(list.items), selected: list.selected }
}

fn number_actions<'a>(actions: Vec<&'a str>) -> (items: Vec<(&'a str, usize)>)
    ensures
        items@ == numbered(actions@),
{
    let mut items: Vec<(&'a str, usize)> = Vec::new();
    let mut i: usize = 0;
    while i < actions.len()
        invariant
            i <= actions.len(),
            items@ == numbered(actions@.take(i as int)),
        decreases actions.len() - i,
    {
        items.push((actions[i], i + 1));
        i = i + 1;
        assert(items@ =~= numbered(actions@.take(i as int)));
    }
    assert(actions@.take(i as int) =~= actions@);
    items
}

/// The menu: the actions of the program.
pub struct MenuAction<'a> {
    pub stateful: StatefulList<(&'a str, usize)>,
}

impl<'a> View for MenuAction<'a> {
    type V = ListView<Seq<char>>;

    open spec fn view(&self) -> ListView<Seq<char>> {
        action_list(self.stateful@)
    }
}

impl<'a> MenuAction<'a> {
    /// A menu of the given actions, numbered from one, with none selected.
    pub fn new(actions: Vec<&'a str>) -> (menu: MenuAction<'a>)
        ensures
            menu.stateful@ == ListView::with_items(numbered(actions@)),
    {
        MenuAction { stateful: StatefulList::with_items(number_actions(actions)) }
    }
}

/// The saved notes, oldest first.
pub struct NoteList {
    pub stateful: StatefulList<Note>,
}

impl View for NoteList {
    type V = ListView<NoteView>;

    open spec fn view(&self) -> ListView<NoteView> {
        ListView { items: note_views(self.stateful@.items), selected: self.stateful@.selected }
    }
}

/// The composer as the state machine sees it.
pub struct ViewerView {
    pub actions: ListView<Seq<char>>,
    pub input_mode: InputMode,
    pub input: Seq<char>,
}

/// The composer: its actions, its mode, and the text typed so far.
pub struct ViewerAction<'a> {
    pub stateful: StatefulList<(&'a str, usize)>,
    pub input_mode: InputMode,
    pub input: String,
}

impl<'a> View for ViewerAction<'a> {
    type V = ViewerView;

    open spec fn view(&self) -> ViewerView {
        ViewerView {
            actions: action_list(self.stateful@),
            input_mode: self.input_mode,
            input: self.input@,
        }
    }
}

impl<'a> ViewerAction<'a> {
    /// A composer with the given actions, numbered from one, with none
    /// selected, in `Normal` mode and with no text.
    pub fn new(actions: Vec<&'a str>) -> (viewer: ViewerAction<'a>)
        ensures
            viewer.stateful@ == ListView::with_items(numbered(actions@)),
            viewer.input_mode == InputMode::Normal,
            viewer.input@ == Seq::<char>::empty(),
    {
        ViewerAction {
            input_mode: InputMode::Normal,
            input: String::new(),
            stateful: StatefulList::with_items(number_actions(actions)),
        }
    }

    /// Where the insertion point is to be shown: behind the text while the
    /// composer is `Editing`, nowhere otherwise.
    pub fn cursor(&self) -> (caret: Option<Caret>)
        ensures
            match caret {
                Some(at) => {
                    &&& self.input_mode == InputMode::Editing
                    &&& at.line == break_count(self.input@)
                    &&& at.column == encode_utf8(last_line(self.input@)).len()
                },
                None => self.input_mode == InputMode::Normal,
            },
    {
        match self.input_mode {
            InputMode::Normal => None,
            InputMode::Editing => Some(caret_after(self.input.as_str())),
        }
    }
}

} // verus!
