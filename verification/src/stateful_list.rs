//! A cursor over a sequence: the items of a list and the index of the one
//! that is selected, if any.

use vstd::prelude::*;

verus! {

/// The selection after one step forward in a list of `len` items: from no
/// selection to the first item, from the last item round to the first.
/// An empty list has nothing to select.
pub open spec fn next_index(selected: Option<nat>, len: nat) -> Option<nat> {
    if len == 0 {
        None
    } else {
        match selected {
            Some(i) => if i + 1 >= len {
                Some(0nat)
            } else {
                Some(i + 1)
            },
            None => Some(0nat),
        }
    }
}

/// The selection after one step back in a list of `len` items: from no
/// selection to the first item, from the first item round to the last.
/// An empty list has nothing to select.
pub open spec fn previous_index(selected: Option<nat>, len: nat) -> Option<nat> {
    if len == 0 {
        None
    } else {
        match selected {
            Some(i) => if i == 0 {
                Some((len - 1) as nat)
            } else {
                Some((i - 1) as nat)
            },
            None => Some(0nat),
        }
    }
}

/// What a [`StatefulList`] is, as mathematics: its items in order and the
/// position of the selected one.
pub struct ListView<T> {
    pub items: Seq<T>,
    pub selected: Option<nat>,
}

impl<T> ListView<T> {
    /// A selection always points at an item, so an empty list has none.
    pub open spec fn wf(self) -> bool {
        match self.selected {
            Some(i) => i < self.items.len(),
            None => true,
        }
    }

    /// The list of `items` with none selected.
    pub open spec fn with_items(items: Seq<T>) -> ListView<T> {
        ListView { items, selected: None }
    }

    /// The same items with the selection one step forward.
    pub open spec fn next(self) -> ListView<T> {
        ListView { items: self.items, selected: next_index(self.selected, self.items.len()) }
    }

    /// The same items with the selection one step back.
    pub open spec fn previous(self) -> ListView<T> {
        ListView { items: self.items, selected: previous_index(self.selected, self.items.len()) }
    }

    /// The same items with the first one selected, if there is one.
    pub open spec fn select_first(self) -> ListView<T> {
        ListView {
            items: self.items,
            selected: if self.items.len() > 0 {
                Some(0nat)
            } else {
                None
            },
        }
    }

    /// The same items with none selected.
    pub open spec fn unselect(self) -> ListView<T> {
        ListView { items: self.items, selected: None }
    }

    /// The list with `item` behind the others and the selection where it was.
    pub open spec fn push(self, item: T) -> ListView<T> {
        ListView { items: self.items.push(item), selected: self.selected }
    }

    /// The list without the item at `index`. The selection stays where it
    /// was if it still points at an item, and is cleared otherwise.
    pub open spec fn remove(self, index: int) -> ListView<T>
        recommends
            0 <= index < self.items.len(),
    {
        ListView {
            items: self.items.remove(index),
            selected: match self.selected {
                Some(i) => if i + 1 < self.items.len() {
                    Some(i)
                } else {
                    None
                },
                None => None,
            },
        }
    }
}

/// The selection after `steps` steps forward from `selected`.
pub open spec fn next_times(selected: Option<nat>, len: nat, steps: nat) -> Option<nat>
    decreases steps,
{
    if steps == 0 {
        selected
    } else {
        next_index(next_times(selected, len, (steps - 1) as nat), len)
    }
}

/// Stepping forward from item `start` counts up to the last item and then
/// begins again at the first: after `steps` steps the selection is at
/// `(start + steps) % len`.
pub proof fn lemma_next_times_counts_modulo(start: nat, len: nat, steps: nat)
    requires
        start < len,
    ensures
        next_times(Some(start), len, steps) == Some(((start + steps) % len) as nat),
    decreases steps,
{
    let n = len as int;
    if steps == 0 {
        vstd::arithmetic::div_mod::lemma_small_mod(start, len);
    } else {
        let x = start + steps - 1;
        lemma_next_times_counts_modulo(start, len, (steps - 1) as nat);
        assert((x + 1) % n == if x % n + 1 >= n {
            0
        } else {
            x % n + 1
        }) by (nonlinear_arith)
            requires
                n > 0,
                x >= 0,
        ;
    }
}

/// In a list of `len >= 1` items, `len` steps forward from the first item
/// lead back to the first item.
pub proof fn lemma_next_wraps_around(len: nat)
    requires
        len >= 1,
    ensures
        next_times(Some(0nat), len, len) == Some(0nat),
{
    lemma_next_times_counts_modulo(0, len, len);
    vstd::arithmetic::div_mod::lemma_mod_self_0(len as int);
}

/// In a list of `len >= 1` items, one step back from the first item leads
/// to the last item.
pub proof fn lemma_previous_wraps_around(len: nat)
    requires
        len >= 1,
    ensures
        previous_index(Some(0nat), len) == Some((len - 1) as nat),
{
}

/// A step forward and a step back undo each other wherever an item is
/// selected.
pub proof fn lemma_next_previous_inverse(selected: nat, len: nat)
    requires
        selected < len,
    ensures
        previous_index(next_index(Some(selected), len), len) == Some(selected),
        next_index(previous_index(Some(selected), len), len) == Some(selected),
{
}

/// An empty list never gets a selection: whatever is tried on it, nothing is
/// selected afterwards.
pub proof fn lemma_empty_list_stays_unselected<T>(list: ListView<T>)
    requires
        list.items.len() == 0,
    ensures
        list.next().selected is None,
        list.previous().selected is None,
        list.select_first().selected is None,
        list.unselect().selected is None,
{
}

/// Moving the selection keeps it on an item, and keeps the items.
pub proof fn lemma_navigation_keeps_wf<T>(list: ListView<T>)
    requires
        list.wf(),
    ensures
        list.next().wf(),
        list.previous().wf(),
        list.select_first().wf(),
        list.unselect().wf(),
        list.items.len() > 0 ==> list.next().selected is Some && list.previous().selected is Some,
{
}

/// A list of items with at most one of them selected.
pub struct StatefulList<T> {
    selected: Option<usize>,
    items: Vec<T>,
}

impl<T> View for StatefulList<T> {
    type V = ListView<T>;

    closed spec fn view(&self) -> ListView<T> {
        ListView {
            items: self.items@,
            selected: match self.selected {
                Some(i) => Some(i as nat),
                None => None,
            },
        }
    }
}

impl<T> StatefulList<T> {
    #[verifier::type_invariant]
    spec fn selection_in_range(&self) -> bool {
        match self.selected {
            Some(i) => i < self.items.len(),
            None => true,
        }
    }

    /// A list of the given items with none selected.
    pub fn with_items(items: Vec<T>) -> (list: StatefulList<T>)
        ensures
            list@ == ListView::with_items(items@),
    {
        StatefulList { selected: None, items }
    }

    /// Moves the selection one item forward, wrapping at the end. With
    /// nothing selected the first item becomes selected; an empty list stays
    /// without a selection.
    pub fn next(&mut self)
        ensures
            final(self)@ == old(self)@.next(),
            final(self)@.wf(),
    {
        proof {
            use_type_invariant(&*self);
        }
        if self.items.len() == 0 {
            return ;
        }
        let i: usize = match self.selected {
            Some(i) => if i >= self.items.len() - 1 {
                0
            } else {
                i + 1
            },
            None => 0,
        };
        self.selected = Some(i);
    }

    /// The index of the selected item, if one is selected.
    pub fn selected(&self) -> (index: Option<usize>)
        ensures
            match index {
                Some(i) => self@.selected == Some(i as nat) && i < self@.items.len(),
                None => self@.selected is None,
            },
    {
        proof {
            use_type_invariant(self);
        }
        self.selected
    }

    /// Selects the first item. An empty list has no first item and stays
    /// without a selection.
    pub fn select_first(&mut self)
        ensures
            final(self)@ == old(self)@.select_first(),
            final(self)@.wf(),
    {
        proof {
            use_type_invariant(&*self);
        }
        if self.items.len() > 0 {
            self.selected = Some(0);
        }
    }

    /// Moves the selection one item back, wrapping at the start. With
    /// nothing selected the first item becomes selected; an empty list stays
    /// without a selection.
    pub fn previous(&mut self)
        ensures
            final(self)@ == old(self)@.previous(),
            final(self)@.wf(),
    {
        proof {
            use_type_invariant(&*self);
        }
        if self.items.len() == 0 {
            return ;
        }
        let i: usize = match self.selected {
            Some(i) => if i == 0 {
                self.items.len() - 1
            } else {
                i - 1
            },
            None => 0,
        };
        self.selected = Some(i);
    }

    /// Clears the selection.
    pub fn unselect(&mut self)
        ensures
            final(self)@ == old(self)@.unselect(),
            final(self)@.wf(),
    {
        self.selected = None;
    }

    /// The items, in order.
    pub fn items(&self) -> (items: &Vec<T>)
        ensures
            items@ == self@.items,
    {
        &self.items
    }

    /// The number of items.
    pub fn len(&self) -> (len: usize)
        ensures
            len == self@.items.len(),
    {
        self.items.len()
    }

    /// Appends `item` behind the others. The selection stays where it is.
    pub fn push(&mut self, item: T)
        ensures
            final(self)@ == old(self)@.push(item),
            final(self)@.wf(),
    {
        proof {
            use_type_invariant(&*self);
        }
        let selected = self.selected;
        let mut items = self.take_items();
        items.push(item);
        self.put_items(items, selected);
    }

    /// Takes the item at `index` out of the list and hands it back, or hands
    /// back nothing and changes nothing where the list has no such position.
    /// A selection that still points at an item stays; one that would point
    /// past the end is cleared.
    pub fn remove(&mut self, index: usize) -> (removed: Option<T>)
        ensures
            match removed {
                Some(item) => {
                    &&& index < old(self)@.items.len()
                    &&& item == old(self)@.items[index as int]
                    &&& final(self)@ == old(self)@.remove(index as int)
                },
                None => index >= old(self)@.items.len() && final(self)@ == old(self)@,
            },
            final(self)@.wf(),
    {
        proof {
            use_type_invariant(&*self);
        }
        if index >= self.items.len() {
            return None;
        }
        let selected = match self.selected {
            Some(i) => if i + 1 < self.items.len() {
                Some(i)
            } else {
                None
            },
            None => None,
        };
        let mut items = self.take_items();
        let item = items.remove(index);
        self.put_items(items, selected);
        Some(item)
    }

    /// Empties the list and hands back what it held, in order.
    pub fn take_items(&mut self) -> (items: Vec<T>)
        ensures
            items@ == old(self)@.items,
            final(self)@ == ListView::with_items(Seq::<T>::empty()),
    {
        let mut items: Vec<T> = Vec::new();
        self.selected = None;
        core::mem::swap(&mut self.items, &mut items);
        items
    }

    /// Replaces what the list holds.
    fn put_items(&mut self, items: Vec<T>, selected: Option<usize>)
        requires
            selected matches Some(i) ==> i < items.len(),
        ensures
            final(self)@.items == items@,
            final(self)@.selected == match selected {
                Some(i) => Some(i as nat),
                None => None,
            },
    {
        *self = StatefulList { selected, items };
    }
}

} // verus!
