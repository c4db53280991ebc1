use vstd::prelude::*;
use crate::config::NameConfig;
use vstd::arithmetic::div_mod::{
    lemma_add_mod_noop, lemma_mod_add_multiples_vanish, lemma_mod_sub_multiples_vanish,
    lemma_small_mod, lemma_sub_mod_noop,
};

verus! {

/// Wrap-around navigation over an ordered collection.
pub trait State: Sized {
    /// The value after one step forward.
    spec fn after_next(&self) -> Self;

    /// The value after one step backward.
    spec fn after_previous(&self) -> Self;

    fn next(&mut self)
        ensures
            *final(self) == old(self).after_next(),
    ;

    fn previous(&mut self)
        ensures
            *final(self) == old(self).after_previous(),
    ;
}

/// Index selected by stepping forward from `selected` in a list of `len` items.
pub open spec fn next_index(selected: Option<usize>, len: nat) -> Option<usize> {
    if len == 0 {
        selected
    } else {
        match selected {
            Some(i) => if i + 1 >= len { Some(0usize) } else { Some((i + 1) as usize) },
            None => Some(0usize),
        }
    }
}

/// Index selected by stepping backward from `selected` in a list of `len` items.
pub open spec fn previous_index(selected: Option<usize>, len: nat) -> Option<usize> {
    if len == 0 {
        selected
    } else {
        match selected {
            Some(i) => if i == 0 || i >= len { Some((len - 1) as usize) } else { Some((i - 1) as usize) },
            None => Some(0usize),
        }
    }
}

/// What a list holds, which item is selected, and whether the list has focus.
pub struct ListView<T> {
    pub items: Seq<T>,
    pub selected: Option<usize>,
    pub is_selected: bool,
}

impl<T> ListView<T> {
    /// The same items and focus, with the first item selected if there is one.
    pub open spec fn selecting_first(self) -> ListView<T> {
        ListView { selected: if self.items.len() > 0 { Some(0usize) } else { None }, ..self }
    }

    /// Focused, with the first item selected if there is one.
    pub open spec fn focused_on_first(self) -> ListView<T> {
        ListView { is_selected: true, ..self.selecting_first() }
    }

    /// Neither focused nor selected.
    pub open spec fn cleared(self) -> ListView<T> {
        ListView { selected: None, is_selected: false, ..self }
    }

    /// Focus set as given, selection kept.
    pub open spec fn with_focus(self, is_selected: bool) -> ListView<T> {
        ListView { is_selected, ..self }
    }

    /// One step forward.
    pub open spec fn forward(self) -> ListView<T> {
        ListView { selected: next_index(self.selected, self.items.len()), ..self }
    }

    /// One step backward.
    pub open spec fn backward(self) -> ListView<T> {
        ListView { selected: previous_index(self.selected, self.items.len()), ..self }
    }

    /// A fresh list of the given items: nothing selected, no focus.
    pub open spec fn fresh(items: Seq<T>) -> ListView<T> {
        ListView { items, selected: None, is_selected: false }
    }
}

/// The selection after a step forward in a list of `item_count` items.
pub fn get_next_state_to_select(selected: Option<usize>, item_count: usize) -> (r: Option<usize>)
    ensures
        r == next_index(selected, item_count as nat),
{
    if item_count == 0 {
        return selected;
    }
    match selected {
        Some(i) => if i >= item_count - 1 { Some(0) } else { Some(i + 1) },
        None => Some(0),
    }
}

/// The selection after a step backward in a list of `item_count` items.
pub fn get_previous_state_to_select(selected: Option<usize>, item_count: usize) -> (r: Option<usize>)
    ensures
        r == previous_index(selected, item_count as nat),
{
    if item_count == 0 {
        return selected;
    }
    match selected {
        Some(i) => if i == 0 || i >= item_count { Some(item_count - 1) } else { Some(i - 1) },
        None => Some(0),
    }
}

/// An ordered list with an optional selection and a focus flag.
pub struct StatefulList<T> {
    pub items: Vec<T>,
    pub selected: Option<usize>,
    pub is_selected: bool,
}

impl<T> View for StatefulList<T> {
    type V = ListView<T>;

    open spec fn view(&self) -> ListView<T> {
        ListView { items: self.items@, selected: self.selected, is_selected: self.is_selected }
    }
}

impl<T> StatefulList<T> {
    /// A selection, when present, designates an item.
    pub open spec fn wf(&self) -> bool {
        self.selected is Some ==> self.selected->0 < self.items.len()
    }

    /// The index that `current` reports.
    pub open spec fn current_index(&self) -> usize {
        match self.selected {
            Some(i) => i,
            None => 0,
        }
    }

    /// The first index when there are items, no selection otherwise.
    pub open spec fn first_selection(&self) -> Option<usize> {
        if self.items.len() > 0 { Some(0usize) } else { None }
    }

    pub fn with_items(items: Vec<T>) -> (r: Self)
        ensures
            r.items@ == items@,
            r.selected is None,
            !r.is_selected,
            r.wf(),
    {
        StatefulList { items, selected: None, is_selected: false }
    }

    pub fn unselect(&mut self)
        ensures
            final(self).items@ == old(self).items@,
            final(self).selected is None,
            final(self).is_selected == old(self).is_selected,
    {
        self.selected = None;
    }

    /// Selects the first item, or nothing when the list is empty.
    pub fn select_first(&mut self)
        ensures
            final(self).items@ == old(self).items@,
            final(self).selected == old(self).first_selection(),
            final(self).is_selected == old(self).is_selected,
            final(self).wf(),
    {
        if self.items.len() > 0 {
            self.selected = Some(0);
        } else {
            self.selected = None;
        }
    }

    pub fn current(&self) -> (r: usize)
        ensures
            r == self.current_index(),
    {
        match self.selected {
            Some(i) => i,
            None => 0,
        }
    }

    pub fn current_item(&self) -> (r: &T)
        requires
            self.wf(),
            self.items.len() > 0,
        ensures
            *r == self.items@[self.current_index() as int],
    {
        &self.items[self.current()]
    }
}

impl<T> State for StatefulList<T> {
    open spec fn after_next(&self) -> Self {
        StatefulList {
            items: self.items,
            selected: next_index(self.selected, self.items@.len()),
            is_selected: self.is_selected,
        }
    }

    open spec fn after_previous(&self) -> Self {
        StatefulList {
            items: self.items,
            selected: previous_index(self.selected, self.items@.len()),
            is_selected: self.is_selected,
        }
    }

    fn next(&mut self) {
        let len = self.items.len();
        if len > 0 {
            self.selected = match self.selected {
                Some(i) => if i >= len - 1 { Some(0) } else { Some(i + 1) },
                None => Some(0),
            };
        }
    }

    fn previous(&mut self) {
        let len = self.items.len();
        if len > 0 {
            self.selected = match self.selected {
                Some(i) => if i == 0 || i >= len { Some(len - 1) } else { Some(i - 1) },
                None => Some(0),
            };
        }
    }
}

/// The row of tabs and which one is active.
pub struct TabsState {
    pub titles: Vec<String>,
    pub index: usize,
    pub is_selected: bool,
}

impl TabsState {
    /// The active tab is one of the tabs.
    pub open spec fn wf(&self) -> bool {
        self.index < self.titles.len()
    }

    pub fn new(config: &NameConfig) -> (r: Self)
        ensures
            r.titles@ == config.tabs_title@,
            r.index == 0,
            !r.is_selected,
    {
        let mut titles: Vec<String> = Vec::new();
        let mut i: usize = 0;
        while i < config.tabs_title.len()
            invariant
                i <= config.tabs_title.len(),
                titles@ == config.tabs_title@.subrange(0, i as int),
            decreases config.tabs_title.len() - i,
        {
            titles.push(config.tabs_title[i].clone());
            i = i + 1;
        }
        assert(titles@ == config.tabs_title@);
        TabsState { titles, index: 0, is_selected: false }
    }
}

impl State for TabsState {
    open spec fn after_next(&self) -> Self {
        TabsState {
            index: match next_index(Some(self.index), self.titles@.len()) {
                Some(i) => i,
                None => self.index,
            },
            ..*self
        }
    }

    open spec fn after_previous(&self) -> Self {
        TabsState {
            index: match previous_index(Some(self.index), self.titles@.len()) {
                Some(i) => i,
                None => self.index,
            },
            ..*self
        }
    }

    fn next(&mut self) {
        let len = self.titles.len();
        if len > 0 {
            self.index = if self.index >= len - 1 { 0 } else { self.index + 1 };
        }
    }

    fn previous(&mut self) {
        let len = self.titles.len();
        if len > 0 {
            self.index = if self.index == 0 || self.index >= len { len - 1 } else { self.index - 1 };
        }
    }
}

/// The list after `k` calls of `next`.
pub open spec fn repeat_next<T>(l: StatefulList<T>, k: nat) -> StatefulList<T>
    decreases k,
{
    if k == 0 {
        l
    } else {
        repeat_next(l, (k - 1) as nat).after_next()
    }
}

/// The list after `k` calls of `previous`.
pub open spec fn repeat_previous<T>(l: StatefulList<T>, k: nat) -> StatefulList<T>
    decreases k,
{
    if k == 0 {
        l
    } else {
        repeat_previous(l, (k - 1) as nat).after_previous()
    }
}

proof fn lemma_repeat_next_index<T>(l: StatefulList<T>, k: nat)
    requires
        l.wf(),
        l.selected is Some,
    ensures
        repeat_next(l, k).items == l.items,
        repeat_next(l, k).is_selected == l.is_selected,
        repeat_next(l, k).selected == Some(((l.selected->0 + k) % (l.items@.len() as int)) as usize),
    decreases k,
{
    let n = l.items@.len() as int;
    let i = l.selected->0 as int;
    if k == 0 {
        lemma_small_mod(i as nat, n as nat);
    } else {
        lemma_repeat_next_index(l, (k - 1) as nat);
        let r = (i + k - 1) % n;
        lemma_add_mod_noop(i + k - 1, 1, n);
        if n == 1 {
            assert((i + k) % n == 0);
        } else {
            lemma_small_mod(1, n as nat);
            if r + 1 < n {
                lemma_small_mod((r + 1) as nat, n as nat);
            } else {
                assert(r + 1 == n);
                assert(n % n == 0) by {
                    lemma_mod_add_multiples_vanish(0, n);
                    lemma_small_mod(0, n as nat);
                }
            }
        }
    }
}

proof fn lemma_repeat_previous_index<T>(l: StatefulList<T>, k: nat)
    requires
        l.wf(),
        l.selected is Some,
    ensures
        repeat_previous(l, k).items == l.items,
        repeat_previous(l, k).is_selected == l.is_selected,
        repeat_previous(l, k).selected == Some(((l.selected->0 - k) % (l.items@.len() as int)) as usize),
    decreases k,
{
    let n = l.items@.len() as int;
    let i = l.selected->0 as int;
    if k == 0 {
        lemma_small_mod(i as nat, n as nat);
    } else {
        lemma_repeat_previous_index(l, (k - 1) as nat);
        let r = (i - (k - 1)) % n;
        lemma_sub_mod_noop(i - (k - 1), 1, n);
        if n == 1 {
            assert((i - k) % n == 0);
        } else {
            lemma_small_mod(1, n as nat);
            if r > 0 {
                lemma_small_mod((r - 1) as nat, n as nat);
            } else {
                lemma_mod_add_multiples_vanish(-1, n);
                lemma_small_mod((n - 1) as nat, n as nat);
            }
        }
    }
}

/// Stepping forward as many times as the list has items, or backward as many
/// times, brings the selection back to where it started.
pub proof fn lemma_full_cycle<T>(l: StatefulList<T>)
    requires
        l.wf(),
        l.selected is Some,
    ensures
        repeat_next(l, l.items@.len()) == l,
        repeat_previous(l, l.items@.len()) == l,
{
    let n = l.items@.len() as int;
    let i = l.selected->0 as int;
    lemma_repeat_next_index(l, n as nat);
    lemma_repeat_previous_index(l, n as nat);
    lemma_mod_add_multiples_vanish(i, n);
    lemma_mod_sub_multiples_vanish(i, n);
    lemma_small_mod(i as nat, n as nat);
}

/// A step forward followed by a step backward leaves a selection where it was,
/// also when the first step wraps around the end.
pub proof fn lemma_next_then_previous<T>(l: StatefulList<T>)
    requires
        l.wf(),
        l.selected is Some,
    ensures
        l.after_next().after_previous() == l,
{
}

} // verus!
