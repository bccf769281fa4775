//! The file selection screen's state: which row is highlighted, which files
//! are chosen, and what the user has decided. Drawing stays with the
//! terminal front end.

use vstd::prelude::*;
use std::collections::HashSet;
use crate::scanner::VideoFile;

verus! {

broadcast use vstd::std_specs::hash::group_hash_axioms;

/// State of the file selection screen.
#[derive(Debug)]
pub struct AppState {
    pub files: Vec<VideoFile>,
    pub selected_files: HashSet<usize>,
    pub current_selection: usize,
    /// The highlighted row of the list, if any.
    pub highlighted: Option<usize>,
    pub should_quit: bool,
    pub confirmed: bool,
}

/// The row highlighted after moving down from `h` in a list of `len` rows:
/// the next row, wrapping from the last back to the first.
pub open spec fn next_index(h: Option<usize>, len: nat) -> nat {
    match h {
        Some(i) => if i >= len - 1 {
            0
        } else {
            (i + 1) as nat
        },
        None => 0,
    }
}

/// The row highlighted after moving up from `h` in a list of `len` rows:
/// the previous row, wrapping from the first to the last.
pub open spec fn previous_index(h: Option<usize>, len: nat) -> nat {
    match h {
        Some(i) => if i == 0 {
            (len - 1) as nat
        } else {
            (i - 1) as nat
        },
        None => 0,
    }
}

/// The chosen set after toggling the highlighted row.
pub open spec fn toggled(sel: Set<usize>, h: Option<usize>) -> Set<usize> {
    match h {
        Some(i) => if sel.contains(i) {
            sel.remove(i)
        } else {
            sel.insert(i)
        },
        None => sel,
    }
}

/// The files among the first `n` whose rows are chosen, in list order.
pub open spec fn chosen_files(files: Seq<VideoFile>, sel: Set<usize>, n: nat) -> Seq<VideoFile>
    decreases n,
{
    if n == 0 {
        Seq::empty()
    } else {
        let rest = chosen_files(files, sel, (n - 1) as nat);
        if sel.contains((n - 1) as usize) {
            rest.push(files[n - 1])
        } else {
            rest
        }
    }
}

/// `after` keeps the list, the chosen rows and the decisions of `before`.
pub open spec fn keeps_choices(before: AppState, after: AppState) -> bool {
    &&& after.files == before.files
    &&& after.selected_files@ == before.selected_files@
    &&& after.should_quit == before.should_quit
    &&& after.confirmed == before.confirmed
}

/// `after` keeps the list, the highlight and the decisions of `before`.
pub open spec fn keeps_highlight(before: AppState, after: AppState) -> bool {
    &&& after.files == before.files
    &&& after.highlighted == before.highlighted
    &&& after.current_selection == before.current_selection
    &&& after.should_quit == before.should_quit
    &&& after.confirmed == before.confirmed
}

/// `after` is `before` with the highlight moved down one row, wrapping;
/// an empty list has nothing to move.
pub open spec fn moved_down(before: AppState, after: AppState) -> bool {
    &&& keeps_choices(before, after)
    &&& if before.files@.len() == 0 {
        after.highlighted == before.highlighted && after.current_selection
            == before.current_selection
    } else {
        after.highlighted == Some(next_index(before.highlighted, before.files@.len()) as usize)
            && after.current_selection == next_index(before.highlighted, before.files@.len())
    }
}

/// `after` is `before` with the highlight moved up one row, wrapping; an
/// empty list has nothing to move.
pub open spec fn moved_up(before: AppState, after: AppState) -> bool {
    &&& keeps_choices(before, after)
    &&& if before.files@.len() == 0 {
        after.highlighted == before.highlighted && after.current_selection
            == before.current_selection
    } else {
        after.highlighted == Some(previous_index(before.highlighted, before.files@.len()) as usize)
            && after.current_selection == previous_index(before.highlighted, before.files@.len())
    }
}

/// A key the file selection screen reacts to.
#[derive(Debug, Clone, Copy, PartialEq, Eq, Structural)]
pub enum SelectionKey {
    /// `q` or Escape: leave without encoding.
    Quit,
    /// Down arrow or `j`.
    Down,
    /// Up arrow or `k`.
    Up,
    /// Space: choose or unchoose the highlighted file.
    Toggle,
    /// `a`: choose every file.
    SelectAll,
    /// `d`: choose none.
    DeselectAll,
    /// Enter: encode the chosen files.
    Confirm,
    /// Any other key, which changes nothing.
    Other,
}

/// The key that a typed character stands for.
pub open spec fn key_for_char(c: char) -> SelectionKey {
    if c == 'q' {
        SelectionKey::Quit
    } else if c == 'j' {
        SelectionKey::Down
    } else if c == 'k' {
        SelectionKey::Up
    } else if c == ' ' {
        SelectionKey::Toggle
    } else if c == 'a' {
        SelectionKey::SelectAll
    } else if c == 'd' {
        SelectionKey::DeselectAll
    } else {
        SelectionKey::Other
    }
}

/// Whether `key` ends the selection.
pub open spec fn ends_selection(key: SelectionKey) -> bool {
    key is Quit || key is Confirm
}

/// What pressing `key` does to the screen's state.
pub open spec fn key_handled(before: AppState, after: AppState, key: SelectionKey) -> bool {
    match key {
        SelectionKey::Quit => {
            &&& after.files == before.files
            &&& after.selected_files@ == before.selected_files@
            &&& after.highlighted == before.highlighted
            &&& after.current_selection == before.current_selection
            &&& after.should_quit
            &&& after.confirmed == before.confirmed
        },
        SelectionKey::Confirm => {
            &&& after.files == before.files
            &&& after.selected_files@ == before.selected_files@
            &&& after.highlighted == before.highlighted
            &&& after.current_selection == before.current_selection
            &&& after.should_quit == before.should_quit
            &&& after.confirmed
        },
        SelectionKey::Down => moved_down(before, after),
        SelectionKey::Up => moved_up(before, after),
        SelectionKey::Toggle => keeps_highlight(before, after) && after.selected_files@ == toggled(
            before.selected_files@,
            before.highlighted,
        ),
        SelectionKey::SelectAll => keeps_highlight(before, after) && after.selected_files@
            == before.selected_files@.union(Set::new(|i: usize| i < before.files@.len())),
        SelectionKey::DeselectAll => keeps_highlight(before, after) && after.selected_files@
            == Set::<usize>::empty(),
        SelectionKey::Other => keeps_highlight(before, after) && after.selected_files@
            == before.selected_files@,
    }
}

impl SelectionKey {
    /// The key that a typed character stands for: `q` quits, `j` and `k`
    /// move, space toggles, `a` and `d` choose all or none.
    pub fn from_char(c: char) -> (k: Self)
        ensures
            k == key_for_char(c),
    {
        if c == 'q' {
            SelectionKey::Quit
        } else if c == 'j' {
            SelectionKey::Down
        } else if c == 'k' {
            SelectionKey::Up
        } else if c == ' ' {
            SelectionKey::Toggle
        } else if c == 'a' {
            SelectionKey::SelectAll
        } else if c == 'd' {
            SelectionKey::DeselectAll
        } else {
            SelectionKey::Other
        }
    }
}

impl AppState {
    /// A screen listing `files`, the first highlighted, none chosen.
    pub fn new(files: Vec<VideoFile>) -> (s: Self)
        ensures
            s.files@ == files@,
            s.selected_files@ == Set::<usize>::empty(),
            s.current_selection == 0,
            s.highlighted == if files@.len() > 0 {
                Some(0usize)
            } else {
                None
            },
            !s.should_quit,
            !s.confirmed,
    {
        let highlighted = if files.len() > 0 {
            Some(0)
        } else {
            None
        };
        AppState {
            files,
            selected_files: HashSet::new(),
            current_selection: 0,
            highlighted,
            should_quit: false,
            confirmed: false,
        }
    }

    /// Move the highlight down, wrapping to the top.
    pub fn next(&mut self)
        ensures
            moved_down(*old(self), *final(self)),
    {
        if self.files.len() == 0 {
            return;
        }
        let i = match self.highlighted {
            Some(i) => if i >= self.files.len() - 1 {
                0
            } else {
                i + 1
            },
            None => 0,
        };
        self.highlighted = Some(i);
        self.current_selection = i;
    }

    /// Move the highlight up, wrapping to the bottom.
    pub fn previous(&mut self)
        ensures
            moved_up(*old(self), *final(self)),
    {
        if self.files.len() == 0 {
            return;
        }
        let i = match self.highlighted {
            Some(i) => if i == 0 {
                self.files.len() - 1
            } else {
                i - 1
            },
            None => 0,
        };
        self.highlighted = Some(i);
        self.current_selection = i;
    }

    /// Choose the highlighted file, or unchoose it if it is chosen.
    pub fn toggle_selection(&mut self)
        ensures
            final(self).files == old(self).files,
            final(self).selected_files@ == toggled(old(self).selected_files@, old(self).highlighted),
            final(self).highlighted == old(self).highlighted,
            final(self).current_selection == old(self).current_selection,
            final(self).should_quit == old(self).should_quit,
            final(self).confirmed == old(self).confirmed,
    {
        if let Some(i) = self.highlighted {
            if self.selected_files.contains(&i) {
                self.selected_files.remove(&i);
            } else {
                self.selected_files.insert(i);
            }
        }
    }

    /// Choose every file.
    pub fn select_all(&mut self)
        ensures
            final(self).files == old(self).files,
            final(self).selected_files@ == old(self).selected_files@.union(
                Set::new(|i: usize| i < old(self).files@.len()),
            ),
            final(self).highlighted == old(self).highlighted,
            final(self).current_selection == old(self).current_selection,
            final(self).should_quit == old(self).should_quit,
            final(self).confirmed == old(self).confirmed,
    {
        let ghost start = self.selected_files@;
        let n = self.files.len();
        for i in 0..n
            invariant
                n == self.files@.len(),
                self.files == old(self).files,
                self.highlighted == old(self).highlighted,
                self.current_selection == old(self).current_selection,
                self.should_quit == old(self).should_quit,
                self.confirmed == old(self).confirmed,
                self.selected_files@ == start.union(Set::new(|j: usize| j < i)),
        {
            self.selected_files.insert(i);
            assert(self.selected_files@ =~= start.union(Set::new(|j: usize| j < i + 1)));
        }
        assert(self.selected_files@ =~= start.union(Set::new(|j: usize| j < old(self).files@.len())));
    }

    /// Unchoose every file.
    pub fn deselect_all(&mut self)
        ensures
            final(self).files == old(self).files,
            final(self).selected_files@ == Set::<usize>::empty(),
            final(self).highlighted == old(self).highlighted,
            final(self).current_selection == old(self).current_selection,
            final(self).should_quit == old(self).should_quit,
            final(self).confirmed == old(self).confirmed,
    {
        self.selected_files.clear();
    }

    /// The chosen files, in list order.
    pub fn get_selected_files(&self) -> (r: Vec<&VideoFile>)
        ensures
            r@.map_values(|f: &VideoFile| *f) == chosen_files(
                self.files@,
                self.selected_files@,
                self.files@.len(),
            ),
    {
        let mut r: Vec<&VideoFile> = Vec::new();
        let n = self.files.len();
        for i in 0..n
            invariant
                n == self.files@.len(),
                r@.map_values(|f: &VideoFile| *f) == chosen_files(
                    self.files@,
                    self.selected_files@,
                    i as nat,
                ),
        {
            let ghost before = r@;
            if self.selected_files.contains(&i) {
                r.push(&self.files[i]);
                assert(r@.map_values(|f: &VideoFile| *f) =~= before.map_values(|f: &VideoFile| *f).push(
                    self.files@[i as int],
                ));
            }
        }
        r
    }

    /// React to one key press. Returns whether the selection is over: the
    /// user quit or confirmed.
    pub fn handle_key(&mut self, key: SelectionKey) -> (done: bool)
        ensures
            key_handled(*old(self), *final(self), key),
            done == ends_selection(key),
    {
        match key {
            SelectionKey::Quit => {
                self.should_quit = true;
                true
            },
            SelectionKey::Confirm => {
                self.confirmed = true;
                true
            },
            SelectionKey::Down => {
                self.next();
                false
            },
            SelectionKey::Up => {
                self.previous();
                false
            },
            SelectionKey::Toggle => {
                self.toggle_selection();
                false
            },
            SelectionKey::SelectAll => {
                self.select_all();
                false
            },
            SelectionKey::DeselectAll => {
                self.deselect_all();
                false
            },
            SelectionKey::Other => false,
        }
    }

    /// The outcome of the screen: nothing when the user quit, else the
    /// chosen files in list order.
    pub fn into_selection(self) -> (r: Vec<VideoFile>)
        ensures
            r@ == if self.should_quit {
                Seq::<VideoFile>::empty()
            } else {
                chosen_files(self.files@, self.selected_files@, self.files@.len())
            },
    {
        if self.should_quit {
            return Vec::new();
        }
        let ghost all = self.files@;
        let selected = self.selected_files;
        let mut rest = self.files;
        let mut r: Vec<VideoFile> = Vec::new();
        let n = rest.len();
        let mut i: usize = 0;
        while i < n
            invariant
                n == all.len(),
                i <= n,
                rest@ == all.subrange(i as int, n as int),
                r@ == chosen_files(all, selected@, i as nat),
            decreases n - i,
        {
            let f = rest.remove(0);
            assert(f == all[i as int]);
            if selected.contains(&i) {
                r.push(f);
            }
            assert(rest@ =~= all.subrange(i + 1, n as int));
            i = i + 1;
        }
        r
    }
}

/// Only the keys for choosing change which files are chosen: confirming,
/// quitting, moving and any other key leave the chosen set as it was, so
/// what a confirmed screen hands back is exactly the files the user chose,
/// in list order, and a quit screen hands back nothing.
pub proof fn lemma_only_choosing_keys_choose(before: AppState, after: AppState, key: SelectionKey)
    requires
        key_handled(before, after, key),
        !(key is Toggle || key is SelectAll || key is DeselectAll),
    ensures
        after.selected_files@ == before.selected_files@,
        after.files == before.files,
        key is Confirm ==> after.confirmed && after.should_quit == before.should_quit
            && chosen_files(after.files@, after.selected_files@, after.files@.len())
            == chosen_files(before.files@, before.selected_files@, before.files@.len()),
        key is Quit ==> after.should_quit,
{
}

/// Confirming with nothing chosen hands nothing back: no row is chosen for
/// the user.
pub proof fn lemma_nothing_chosen_nothing_encoded(files: Seq<VideoFile>, n: nat)
    ensures
        chosen_files(files, Set::<usize>::empty(), n) == Seq::<VideoFile>::empty(),
    decreases n,
{
    if n > 0 {
        lemma_nothing_chosen_nothing_encoded(files, (n - 1) as nat);
    }
}

/// Moving down and then up from a highlighted row comes back to that row,
/// and so does moving up and then down.
pub proof fn lemma_next_previous_inverse(i: usize, len: nat)
    requires
        i < len,
        len <= usize::MAX,
    ensures
        previous_index(Some(next_index(Some(i), len) as usize), len) == i,
        next_index(Some(previous_index(Some(i), len) as usize), len) == i,
{
}

/// Toggling the same row twice leaves the chosen set as it was.
pub proof fn lemma_toggle_twice(sel: Set<usize>, h: Option<usize>)
    ensures
        toggled(toggled(sel, h), h) == sel,
{
    match h {
        Some(i) => {
            if sel.contains(i) {
                assert(sel.remove(i).insert(i) =~= sel);
            } else {
                assert(sel.insert(i).remove(i) =~= sel);
            }
        },
        None => {},
    }
}

/// Choosing every file and then listing the chosen ones gives the whole
/// list, in order.
pub proof fn lemma_select_all_lists_every_file(files: Seq<VideoFile>, sel: Set<usize>, n: nat)
    requires
        n <= files.len(),
        forall|i: usize| i < files.len() ==> sel.contains(i),
        files.len() <= usize::MAX,
    ensures
        chosen_files(files, sel, n) == files.take(n as int),
    decreases n,
{
    if n > 0 {
        lemma_select_all_lists_every_file(files, sel, (n - 1) as nat);
        assert(sel.contains((n - 1) as usize));
        assert(files.take(n as int) =~= files.take(n - 1).push(files[n - 1]));
    } else {
        assert(files.take(0) =~= Seq::<VideoFile>::empty());
    }
}

} // verus!
