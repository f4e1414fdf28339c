//! The application state: the checklist, the input buffer, the current
//! interaction mode, the discovered save files, and the two cyclic
//! selections. Every operation keeps the selection invariant: a selection
//! is absent when its list is empty, and in range otherwise.
//!
//! All file and terminal I/O stays with the caller; operations that touch a
//! file are split into a part that decides what to read or write and a part
//! that records the outcome.

use vstd::arithmetic::div_mod::{
    lemma_fundamental_div_mod, lemma_mod_bound, lemma_mod_multiples_vanish, lemma_small_mod,
};
use vstd::prelude::*;

use crate::codec::{
    filter_file_list, keep_list_files, list_extension, names_view, parse_items, parse_todo_list,
    render_items, serialize_todos,
};
use crate::input_mode::InputMode;
use crate::text::{ends_with, pop_char, push_char, str_ends_with};
use crate::todo::{items_view, TodoItem};

verus! {

/// A selection into a list of length `len` is valid when it is absent for
/// an empty list and an in-range index otherwise; an absent selection is
/// also allowed for a nonempty list (nothing highlighted yet).
pub open spec fn sel_valid(sel: Option<usize>, len: nat) -> bool {
    match sel {
        Some(i) => i < len,
        None => true,
    }
}

/// The whole application state.
pub struct App {
    /// The checklist items, in display order.
    pub todos: Vec<TodoItem>,
    /// Text being typed: a new item's text while editing, a filename while
    /// saving.
    pub input: String,
    /// The active interaction mode.
    pub input_mode: InputMode,
    /// The highlighted item, if any.
    pub selected: Option<usize>,
    /// The save files last discovered, directory order kept.
    pub file_list: Vec<String>,
    /// The highlighted save file, if any.
    pub file_selected: Option<usize>,
    /// The file the session is bound to once a save or load targeted one.
    pub current_file: Option<String>,
    /// Free text shown to the user after an operation.
    pub message: String,
}

impl App {
    /// Both selections are valid for their lists.
    pub open spec fn inv(&self) -> bool {
        &&& sel_valid(self.selected, self.todos@.len())
        &&& sel_valid(self.file_selected, self.file_list@.len())
    }

    /// A freshly constructed application: empty list, empty buffers, mode
    /// `Normal`, nothing selected, no file bound.
    pub fn new() -> (app: App)
        ensures
            app.inv(),
            app.todos@.len() == 0,
            app.input@.len() == 0,
            app.input_mode == InputMode::Normal,
            app.selected is None,
            app.file_list@.len() == 0,
            app.file_selected is None,
            app.current_file is None,
            app.message@.len() == 0,
    {
        App {
            todos: Vec::new(),
            input: String::new(),
            input_mode: InputMode::Normal,
            selected: None,
            file_list: Vec::new(),
            file_selected: None,
            current_file: None,
            message: String::new(),
        }
    }

    /// Appends the input buffer as a new, uncompleted item and drains the
    /// buffer; with an empty buffer nothing happens.
    pub fn add_todo(&mut self)
        requires
            old(self).inv(),
        ensures
            final(self).inv(),
            old(self).input@.len() == 0 ==> *final(self) == *old(self),
            old(self).input@.len() > 0 ==> {
                &&& items_view(final(self).todos@) == items_view(old(self).todos@).push(
                    (old(self).input@, false),
                )
                &&& final(self).input@.len() == 0
            },
            final(self).input_mode == old(self).input_mode,
            final(self).selected == old(self).selected,
            final(self).file_list == old(self).file_list,
            final(self).file_selected == old(self).file_selected,
            final(self).current_file == old(self).current_file,
            final(self).message == old(self).message,
    {
        if !self.input.as_str().is_empty() {
            let ghost before = self.todos@;
            let text = self.input.clone();
            self.input = String::new();
            self.todos.push(TodoItem { text, completed: false });
            proof {
                assert(items_view(self.todos@) =~= items_view(before).push(
                    (old(self).input@, false),
                ));
            }
        }
    }

    /// The item list after a toggle at `sel`: the completion flag at a
    /// valid index flips, anything else leaves the list alone.
    pub open spec fn toggled(m: Seq<(Seq<char>, bool)>, sel: Option<usize>) -> Seq<
        (Seq<char>, bool),
    > {
        match sel {
            Some(i) => if i < m.len() {
                m.update(i as int, (m[i as int].0, !m[i as int].1))
            } else {
                m
            },
            None => m,
        }
    }

    /// Flips the completion flag of the selected item; with no valid
    /// selection nothing happens.
    pub fn toggle_todo(&mut self)
        requires
            old(self).inv(),
        ensures
            final(self).inv(),
            items_view(final(self).todos@) == Self::toggled(
                items_view(old(self).todos@),
                old(self).selected,
            ),
            final(self).input == old(self).input,
            final(self).input_mode == old(self).input_mode,
            final(self).selected == old(self).selected,
            final(self).file_list == old(self).file_list,
            final(self).file_selected == old(self).file_selected,
            final(self).current_file == old(self).current_file,
            final(self).message == old(self).message,
    {
        if let Some(i) = self.selected {
            if i < self.todos.len() {
                let ghost before = self.todos@;
                let it = self.todos.remove(i);
                let flipped = TodoItem { text: it.text, completed: !it.completed };
                self.todos.insert(i, flipped);
                proof {
                    assert(self.todos@ =~= before.update(i as int, flipped));
                    assert(items_view(self.todos@) =~= Self::toggled(
                        items_view(before),
                        Some(i),
                    ));
                }
            }
        }
    }

    /// Law: toggling the same selection twice returns every completion
    /// flag to its original value.
    pub proof fn lemma_toggle_twice(m: Seq<(Seq<char>, bool)>, sel: Option<usize>)
        ensures
            Self::toggled(Self::toggled(m, sel), sel) == m,
    {
        assert(Self::toggled(Self::toggled(m, sel), sel) =~= m);
    }

    /// The selection after removing the item at `i` from a list now
    /// `new_len` long: the last index when the removed index fell off the
    /// end, nothing when the list emptied, and unchanged otherwise.
    pub open spec fn selection_after_remove(i: usize, new_len: nat) -> Option<usize> {
        if i >= new_len {
            if new_len == 0 {
                None
            } else {
                Some((new_len - 1) as usize)
            }
        } else {
            Some(i)
        }
    }

    /// Removes the selected item. Removing the last-indexed item moves the
    /// selection to the new last index, or clears it when the list
    /// empties; otherwise the selection index stays and now names the item
    /// that shifted into the gap. With no valid selection nothing happens.
    pub fn remove_todo(&mut self)
        requires
            old(self).inv(),
        ensures
            final(self).inv(),
            match old(self).selected {
                Some(i) => i < old(self).todos@.len() ==> {
                    &&& items_view(final(self).todos@) == items_view(
                        old(self).todos@,
                    ).remove(i as int)
                    &&& final(self).selected == Self::selection_after_remove(
                        i,
                        final(self).todos@.len(),
                    )
                },
                None => *final(self) == *old(self),
            },
            old(self).selected is None || final(self).todos@.len() == old(self).todos@.len() - 1,
            final(self).input == old(self).input,
            final(self).input_mode == old(self).input_mode,
            final(self).file_list == old(self).file_list,
            final(self).file_selected == old(self).file_selected,
            final(self).current_file == old(self).current_file,
            final(self).message == old(self).message,
    {
        if let Some(i) = self.selected {
            let ghost before = self.todos@;
            self.todos.remove(i);
            proof {
                assert(items_view(self.todos@) =~= items_view(before).remove(i as int));
            }
            if i >= self.todos.len() {
                self.selected = if self.todos.is_empty() {
                    None
                } else {
                    Some(self.todos.len() - 1)
                };
            }
        }
    }
}

/// `(i + delta) mod len`, always non-negative: where a cyclic move by
/// `delta` lands from index `i` in a list of length `len`.
pub open spec fn wrapped(i: int, delta: int, len: int) -> int {
    (i + delta) % len
}

/// Cyclic index arithmetic without overflow: adds `delta` to `i` modulo
/// `len`, the result always in range.
fn wrap_add(i: usize, delta: i32, len: usize) -> (r: usize)
    requires
        len > 0,
        i < len,
    ensures
        r < len,
        r as int == wrapped(i as int, delta as int, len as int),
{
    let ghost l = len as int;
    if delta >= 0 {
        let d = (delta as usize) % len;
        let r = if i >= len - d {
            i - (len - d)
        } else {
            i + d
        };
        proof {
            let q = (delta as int) / l;
            lemma_fundamental_div_mod(delta as int, l);
            lemma_mod_bound(delta as int, l);
            assert(i + delta == l * q + (i + d));
            lemma_mod_multiples_vanish(q, i + d as int, l);
            if i + d < len {
                lemma_small_mod((i + d) as nat, len as nat);
            } else {
                lemma_mod_multiples_vanish(1, i + d - l, l);
                lemma_small_mod((i + d - l) as nat, len as nat);
            }
        }
        r
    } else {
        let mag = (-(delta as i64)) as usize;
        let d = mag % len;
        let r = if i >= d {
            i - d
        } else {
            i + (len - d)
        };
        proof {
            let q = (mag as int) / l;
            lemma_fundamental_div_mod(mag as int, l);
            lemma_mod_bound(mag as int, l);
            assert(mag as int == l * q + d);
            assert(l * (-q) == -(l * q)) by (nonlinear_arith);
            assert(i + delta == l * (-q) + (i - d));
            lemma_mod_multiples_vanish(-q, i - d as int, l);
            if i >= d {
                lemma_small_mod((i - d) as nat, len as nat);
            } else {
                lemma_mod_multiples_vanish(1, i - d as int, l);
                lemma_small_mod((i + l - d) as nat, len as nat);
            }
        }
        r
    }
}

impl App {
    /// The item selection after a cyclic move by `delta`: absent for an
    /// empty list; from an absent selection the first index when moving
    /// down and the last when moving up; otherwise `(i + delta) mod len`.
    pub open spec fn moved_selection(
        sel: Option<usize>,
        delta: int,
        len: nat,
    ) -> Option<usize> {
        if len == 0 {
            None
        } else {
            match sel {
                Some(i) => Some(wrapped(i as int, delta, len as int) as usize),
                None => if delta > 0 {
                    Some(0usize)
                } else {
                    Some((len - 1) as usize)
                },
            }
        }
    }

    /// Moves the item selection cyclically by `delta`, wrapping at both
    /// ends of the list.
    pub fn move_selection(&mut self, delta: i32)
        requires
            old(self).inv(),
        ensures
            final(self).inv(),
            final(self).selected == Self::moved_selection(
                old(self).selected,
                delta as int,
                old(self).todos@.len(),
            ),
            final(self).todos == old(self).todos,
            final(self).input == old(self).input,
            final(self).input_mode == old(self).input_mode,
            final(self).file_list == old(self).file_list,
            final(self).file_selected == old(self).file_selected,
            final(self).current_file == old(self).current_file,
            final(self).message == old(self).message,
    {
        let len = self.todos.len();
        if len == 0 {
            self.selected = None;
        } else {
            let new_index = match self.selected {
                Some(i) => wrap_add(i, delta, len),
                None => if delta > 0 {
                    0
                } else {
                    len - 1
                },
            };
            proof {
                if self.selected is Some {
                    lemma_mod_bound(self.selected.unwrap() + delta as int, len as int);
                }
            }
            self.selected = Some(new_index);
        }
    }

    /// Law: a cyclic move leaves the selection absent exactly on an empty
    /// list; on a nonempty list it always lands on a valid index. Together
    /// with the validity each operation preserves, a selection can only be
    /// absent on a nonempty list before the first move (a fresh or freshly
    /// loaded list with nothing highlighted yet).
    pub proof fn lemma_moved_selection_none_iff_empty(
        sel: Option<usize>,
        delta: int,
        len: nat,
    )
        requires
            sel_valid(sel, len),
            len <= usize::MAX,
        ensures
            Self::moved_selection(sel, delta, len) is None <==> len == 0,
            match Self::moved_selection(sel, delta, len) {
                Some(i) => i < len,
                None => len == 0,
            },
    {
        if len > 0 {
            if sel is Some {
                lemma_mod_bound(sel.unwrap() + delta, len as int);
            }
        }
    }

    /// Moves the file selection cyclically by `delta`: the identical
    /// wrap-around walk as `move_selection`, applied to the file list.
    pub fn move_file_selection(&mut self, delta: i32)
        requires
            old(self).inv(),
        ensures
            final(self).inv(),
            final(self).file_selected == Self::moved_selection(
                old(self).file_selected,
                delta as int,
                old(self).file_list@.len(),
            ),
            final(self).todos == old(self).todos,
            final(self).input == old(self).input,
            final(self).input_mode == old(self).input_mode,
            final(self).selected == old(self).selected,
            final(self).file_list == old(self).file_list,
            final(self).current_file == old(self).current_file,
            final(self).message == old(self).message,
    {
        let len = self.file_list.len();
        if len == 0 {
            self.file_selected = None;
        } else {
            let new_index = match self.file_selected {
                Some(i) => wrap_add(i, delta, len),
                None => if delta > 0 {
                    0
                } else {
                    len - 1
                },
            };
            self.file_selected = Some(new_index);
        }
    }

    /// The selection after `k` single steps down from `sel` in a list of
    /// length `len`.
    pub open spec fn stepped(sel: Option<usize>, k: nat, len: nat) -> Option<usize>
        decreases k,
    {
        if k == 0 {
            sel
        } else {
            Self::moved_selection(Self::stepped(sel, (k - 1) as nat, len), 1, len)
        }
    }

    /// Stepping down `k` times from index `i` lands on `(i + k) mod len`.
    proof fn lemma_stepped_index(i: usize, k: nat, len: nat)
        requires
            0 < len <= usize::MAX,
            i < len,
        ensures
            Self::stepped(Some(i), k, len) == Some(((i + k) % (len as int)) as usize),
        decreases k,
    {
        lemma_mod_bound(i + k, len as int);
        if k == 0 {
            lemma_small_mod(i as nat, len);
        } else {
            Self::lemma_stepped_index(i, (k - 1) as nat, len);
            let a = i + k - 1;
            let m = len as int;
            lemma_mod_bound(a, m);
            let prev = (a % m) as usize;
            assert(prev as int == a % m);
            assert(Self::stepped(Some(i), k, len) == Some(
                wrapped(prev as int, 1, m) as usize,
            ));
            lemma_fundamental_div_mod(a, m);
            let qa = a / m;
            assert(a == m * qa + (a % m));
            assert(a + 1 == m * qa + ((a % m) + 1));
            lemma_mod_multiples_vanish(qa, (a % m) + 1, m);
            assert((prev + 1) % m == (i + k) % m);
        }
    }

    /// Law: in a list of length `n`, moving the selection down one step at
    /// a time `n` times from index `0` returns it to index `0`.
    pub proof fn lemma_wrap_around(n: nat)
        requires
            0 < n <= usize::MAX,
        ensures
            Self::stepped(Some(0usize), n, n) == Some(0usize),
    {
        Self::lemma_stepped_index(0, n, n);
        lemma_mod_multiples_vanish(1, 0, n as int);
        lemma_small_mod(0, n);
    }
}

/// The filename an empty input buffer resolves to on save.
pub open spec fn default_filename() -> Seq<char> {
    seq!['t', 'o', 'd', 'o', '.', 'l', 'i', 's', 't']
}

/// The filename a save commits to: the default for an empty buffer, the
/// buffer itself when it already carries the save-file extension, and the
/// buffer with the extension appended otherwise.
pub open spec fn resolved_filename(input: Seq<char>) -> Seq<char> {
    if input.len() == 0 {
        default_filename()
    } else if ends_with(input, list_extension()) {
        input
    } else {
        input + list_extension()
    }
}

/// The status message after a successful save to `f`.
pub open spec fn saved_message(f: Seq<char>) -> Seq<char> {
    ("Todo list saved to ")@ + f
}

/// The status message after a failed save, `e` describing the failure.
pub open spec fn save_failed_message(e: Seq<char>) -> Seq<char> {
    ("Failed to save todo list: ")@ + e
}

/// The status message after a successful load from `f`.
pub open spec fn loaded_message(f: Seq<char>) -> Seq<char> {
    ("Todo list loaded from ")@ + f
}

/// The status message after a failed load, `e` describing the failure.
pub open spec fn load_failed_message(e: Seq<char>) -> Seq<char> {
    ("Failed to load todo list: ")@ + e
}

impl App {
    /// Enters `Editing`, clearing the status message and the input buffer.
    pub fn begin_edit(&mut self)
        requires
            old(self).inv(),
        ensures
            final(self).inv(),
            final(self).input_mode == InputMode::Editing,
            final(self).input@.len() == 0,
            final(self).message@.len() == 0,
            final(self).todos == old(self).todos,
            final(self).selected == old(self).selected,
            final(self).file_list == old(self).file_list,
            final(self).file_selected == old(self).file_selected,
            final(self).current_file == old(self).current_file,
    {
        self.input_mode = InputMode::Editing;
        self.input = String::new();
        self.message = String::new();
    }

    /// Appends one typed character to the input buffer.
    pub fn char_input(&mut self, c: char)
        requires
            old(self).inv(),
        ensures
            final(self).inv(),
            final(self).input@ == old(self).input@.push(c),
            final(self).input_mode == old(self).input_mode,
            final(self).todos == old(self).todos,
            final(self).selected == old(self).selected,
            final(self).file_list == old(self).file_list,
            final(self).file_selected == old(self).file_selected,
            final(self).current_file == old(self).current_file,
            final(self).message == old(self).message,
    {
        push_char(&mut self.input, c);
    }

    /// Removes the last character of the input buffer, if there is one.
    pub fn backspace(&mut self)
        requires
            old(self).inv(),
        ensures
            final(self).inv(),
            old(self).input@.len() == 0 ==> final(self).input@ == old(self).input@,
            old(self).input@.len() > 0 ==> final(self).input@ == old(self).input@.drop_last(),
            final(self).input_mode == old(self).input_mode,
            final(self).todos == old(self).todos,
            final(self).selected == old(self).selected,
            final(self).file_list == old(self).file_list,
            final(self).file_selected == old(self).file_selected,
            final(self).current_file == old(self).current_file,
            final(self).message == old(self).message,
    {
        pop_char(&mut self.input);
    }

    /// Leaves the current mode for `Normal`. Leaving `Saving` also clears
    /// the input buffer; leaving `Editing` keeps it (its contents persist
    /// until the next `begin_edit`), and nothing else changes.
    pub fn cancel(&mut self)
        requires
            old(self).inv(),
        ensures
            final(self).inv(),
            final(self).input_mode == InputMode::Normal,
            old(self).input_mode == InputMode::Saving ==> final(self).input@.len() == 0,
            old(self).input_mode != InputMode::Saving ==> final(self).input == old(self).input,
            final(self).todos == old(self).todos,
            final(self).selected == old(self).selected,
            final(self).file_list == old(self).file_list,
            final(self).file_selected == old(self).file_selected,
            final(self).current_file == old(self).current_file,
            final(self).message == old(self).message,
    {
        if matches!(self.input_mode, InputMode::Saving) {
            self.input = String::new();
        }
        self.input_mode = InputMode::Normal;
    }

    /// Replaces the file list with the given directory entries, keeping
    /// only save files; a selection that fell out of range is cleared.
    pub fn refresh_file_list(&mut self, names: &Vec<String>)
        requires
            old(self).inv(),
        ensures
            final(self).inv(),
            names_view(final(self).file_list@) == keep_list_files(names_view(names@)),
            match old(self).file_selected {
                Some(i) => final(self).file_selected == (if i < final(self).file_list@.len() {
                    Some(i)
                } else {
                    None::<usize>
                }),
                None => final(self).file_selected is None,
            },
            final(self).todos == old(self).todos,
            final(self).input == old(self).input,
            final(self).input_mode == old(self).input_mode,
            final(self).selected == old(self).selected,
            final(self).current_file == old(self).current_file,
            final(self).message == old(self).message,
    {
        self.file_list = filter_file_list(names);
        if let Some(i) = self.file_selected {
            if i >= self.file_list.len() {
                self.file_selected = None;
            }
        }
    }

    /// Enters `Loading`: replaces the file list with the save files among
    /// the given directory entries and selects the first, or nothing when
    /// none were found.
    pub fn start_loading(&mut self, names: &Vec<String>)
        requires
            old(self).inv(),
        ensures
            final(self).inv(),
            final(self).input_mode == InputMode::Loading,
            names_view(final(self).file_list@) == keep_list_files(names_view(names@)),
            final(self).file_selected == (if keep_list_files(names_view(names@)).len() > 0 {
                Some(0usize)
            } else {
                None::<usize>
            }),
            final(self).todos == old(self).todos,
            final(self).input == old(self).input,
            final(self).selected == old(self).selected,
            final(self).current_file == old(self).current_file,
            final(self).message == old(self).message,
    {
        self.input_mode = InputMode::Loading;
        self.file_list = filter_file_list(names);
        self.file_selected = if self.file_list.is_empty() {
            None
        } else {
            Some(0)
        };
    }

    /// Starts a save. With a file already bound to the session, returns its
    /// name for the caller to write to at once; otherwise enters `Saving`
    /// with a cleared input buffer and returns nothing.
    pub fn start_saving(&mut self) -> (to_save: Option<String>)
        requires
            old(self).inv(),
        ensures
            final(self).inv(),
            match old(self).current_file {
                Some(f) => {
                    &&& match to_save {
                        Some(t) => t@ == f@,
                        None => false,
                    }
                    &&& *final(self) == *old(self)
                },
                None => {
                    &&& to_save is None
                    &&& final(self).input_mode == InputMode::Saving
                    &&& final(self).input@.len() == 0
                    &&& final(self).todos == old(self).todos
                    &&& final(self).selected == old(self).selected
                    &&& final(self).file_list == old(self).file_list
                    &&& final(self).file_selected == old(self).file_selected
                    &&& final(self).current_file == old(self).current_file
                    &&& final(self).message == old(self).message
                },
            },
    {
        match &self.current_file {
            Some(f) => Some(f.clone()),
            None => {
                self.input_mode = InputMode::Saving;
                self.input = String::new();
                None
            },
        }
    }

    /// Resolves the filename a save commits to from the input buffer and
    /// returns it; a nonempty buffer that lacked the extension gets it
    /// appended, so the buffer then holds the resolved name itself.
    pub fn resolve_save_filename(&mut self) -> (filename: String)
        requires
            old(self).inv(),
        ensures
            final(self).inv(),
            filename@ == resolved_filename(old(self).input@),
            old(self).input@.len() == 0 ==> final(self).input == old(self).input,
            old(self).input@.len() > 0 ==> final(self).input@ == resolved_filename(
                old(self).input@,
            ),
            final(self).input_mode == old(self).input_mode,
            final(self).todos == old(self).todos,
            final(self).selected == old(self).selected,
            final(self).file_list == old(self).file_list,
            final(self).file_selected == old(self).file_selected,
            final(self).current_file == old(self).current_file,
            final(self).message == old(self).message,
    {
        if self.input.as_str().is_empty() {
            let f = String::from_str("todo.list");
            proof {
                reveal_strlit("todo.list");
                assert(f@ =~= default_filename());
            }
            f
        } else {
            proof {
                reveal_strlit(".list");
                assert((".list")@ =~= list_extension());
            }
            if !str_ends_with(self.input.as_str(), ".list") {
                self.input.append(".list");
            }
            self.input.clone()
        }
    }

    /// Records the outcome of writing a save file: on success, binds the
    /// session to the file and reports it; on failure, reports the error
    /// text and leaves the bound file alone. Either way the mode returns
    /// to `Normal`.
    pub fn finish_save(&mut self, filename: &str, err: Option<&str>)
        requires
            old(self).inv(),
        ensures
            final(self).inv(),
            final(self).input_mode == InputMode::Normal,
            match err {
                None => {
                    &&& final(self).message@ == saved_message(filename@)
                    &&& match final(self).current_file {
                        Some(f) => f@ == filename@,
                        None => false,
                    }
                },
                Some(e) => {
                    &&& final(self).message@ == save_failed_message(e@)
                    &&& final(self).current_file == old(self).current_file
                },
            },
            final(self).todos == old(self).todos,
            final(self).input == old(self).input,
            final(self).selected == old(self).selected,
            final(self).file_list == old(self).file_list,
            final(self).file_selected == old(self).file_selected,
    {
        match err {
            None => {
                let mut m = String::from_str("Todo list saved to ");
                m.append(filename);
                self.message = m;
                self.current_file = Some(filename.to_owned());
            },
            Some(e) => {
                let mut m = String::from_str("Failed to save todo list: ");
                m.append(e);
                self.message = m;
            },
        }
        self.input_mode = InputMode::Normal;
    }

    /// The file a commit in `Loading` would load: the selected entry of
    /// the file list, or nothing when nothing is selected.
    pub fn load_target(&self) -> (r: Option<String>)
        requires
            self.inv(),
        ensures
            match self.file_selected {
                Some(i) => match r {
                    Some(f) => f@ == self.file_list@[i as int]@,
                    None => false,
                },
                None => r is None,
            },
    {
        match self.file_selected {
            Some(i) => Some(self.file_list[i].clone()),
            None => None,
        }
    }

    /// Records the outcome of reading a save file. On success the list,
    /// the selection and the bound file are replaced wholesale: the parsed
    /// items, the first of them selected (none when the file held none),
    /// the read file bound. On failure only the error is reported and the
    /// list survives unchanged. Either way the mode returns to `Normal`.
    pub fn finish_load(&mut self, filename: &str, content: Result<&str, &str>)
        requires
            old(self).inv(),
        ensures
            final(self).inv(),
            final(self).input_mode == InputMode::Normal,
            match content {
                Ok(text) => {
                    &&& items_view(final(self).todos@) == parse_items(text@)
                    &&& match final(self).current_file {
                        Some(f) => f@ == filename@,
                        None => false,
                    }
                    &&& final(self).selected == (if parse_items(text@).len() > 0 {
                        Some(0usize)
                    } else {
                        None::<usize>
                    })
                    &&& final(self).message@ == loaded_message(filename@)
                },
                Err(e) => {
                    &&& final(self).message@ == load_failed_message(e@)
                    &&& final(self).todos == old(self).todos
                    &&& final(self).selected == old(self).selected
                    &&& final(self).current_file == old(self).current_file
                },
            },
            final(self).input == old(self).input,
            final(self).file_list == old(self).file_list,
            final(self).file_selected == old(self).file_selected,
    {
        match content {
            Ok(text) => {
                self.todos = parse_todo_list(text);
                self.current_file = Some(filename.to_owned());
                self.selected = if self.todos.is_empty() {
                    None
                } else {
                    Some(0)
                };
                let mut m = String::from_str("Todo list loaded from ");
                m.append(filename);
                self.message = m;
            },
            Err(e) => {
                let mut m = String::from_str("Failed to load todo list: ");
                m.append(e);
                self.message = m;
            },
        }
        self.input_mode = InputMode::Normal;
    }

    /// A fresh application holding the items parsed from a save file's
    /// text, bound to that file, nothing selected yet.
    pub fn load_from_file(filename: &str, content: &str) -> (app: App)
        ensures
            app.inv(),
            items_view(app.todos@) == parse_items(content@),
            match app.current_file {
                Some(f) => f@ == filename@,
                None => false,
            },
            app.input@.len() == 0,
            app.input_mode == InputMode::Normal,
            app.selected is None,
            app.file_list@.len() == 0,
            app.file_selected is None,
            app.message@.len() == 0,
    {
        let mut app = App::new();
        app.todos = parse_todo_list(content);
        app.current_file = Some(filename.to_owned());
        app
    }

    /// Serializes the current items into the text a save file holds; a
    /// pure read of the state.
    pub fn save_content(&self) -> (s: String)
        ensures
            s@ == render_items(items_view(self.todos@)),
    {
        serialize_todos(&self.todos)
    }
}

/// An abstract command, fed in by the event layer. Which commands do
/// anything depends on the current mode; the rest are no-ops.
pub enum Command {
    BeginEdit,
    Commit,
    Cancel,
    CharInput(char),
    Backspace,
    Move(i32),
    Toggle,
    Delete,
    BeginSave,
    BeginLoad,
    Quit,
}

/// What the caller must do after a command: nothing, stop the program,
/// write a save file, read one, or list the save directory. The outcome of
/// a write or read is handed back through `finish_save` or `finish_load`,
/// and a directory listing through `start_loading`.
pub enum Effect {
    Nothing,
    Quit,
    Write { filename: String, content: String },
    ReadFile { filename: String },
    RefreshFiles,
}

impl App {
    /// The mode controller: dispatches one command according to the
    /// current mode, as the transition table of the interaction design
    /// gives it. Commands outside the current mode's vocabulary leave the
    /// state untouched. The selection invariant survives every command,
    /// whatever the sequence fed in.
    pub fn apply(&mut self, cmd: Command) -> (eff: Effect)
        requires
            old(self).inv(),
        ensures
            final(self).inv(),
            match (old(self).input_mode, cmd) {
                (InputMode::Normal, Command::BeginEdit) => {
                    &&& eff is Nothing
                    &&& final(self).input_mode == InputMode::Editing
                    &&& final(self).input@.len() == 0
                    &&& final(self).message@.len() == 0
                    &&& final(self).todos == old(self).todos
                    &&& final(self).selected == old(self).selected
                    &&& final(self).file_list == old(self).file_list
                    &&& final(self).file_selected == old(self).file_selected
                    &&& final(self).current_file == old(self).current_file
                },
                (InputMode::Normal, Command::Quit) => {
                    &&& eff is Quit
                    &&& *final(self) == *old(self)
                },
                (InputMode::Normal, Command::Move(d)) => {
                    &&& eff is Nothing
                    &&& final(self).selected == Self::moved_selection(
                        old(self).selected,
                        d as int,
                        old(self).todos@.len(),
                    )
                    &&& final(self).todos == old(self).todos
                    &&& final(self).input == old(self).input
                    &&& final(self).input_mode == old(self).input_mode
                    &&& final(self).file_list == old(self).file_list
                    &&& final(self).file_selected == old(self).file_selected
                    &&& final(self).current_file == old(self).current_file
                    &&& final(self).message == old(self).message
                },
                (InputMode::Normal, Command::Toggle) => {
                    &&& eff is Nothing
                    &&& items_view(final(self).todos@) == Self::toggled(
                        items_view(old(self).todos@),
                        old(self).selected,
                    )
                    &&& final(self).input == old(self).input
                    &&& final(self).input_mode == old(self).input_mode
                    &&& final(self).selected == old(self).selected
                    &&& final(self).file_list == old(self).file_list
                    &&& final(self).file_selected == old(self).file_selected
                    &&& final(self).current_file == old(self).current_file
                    &&& final(self).message == old(self).message
                },
                (InputMode::Normal, Command::Delete) => {
                    &&& eff is Nothing
                    &&& match old(self).selected {
                        Some(i) => {
                            &&& items_view(final(self).todos@) == items_view(
                                old(self).todos@,
                            ).remove(i as int)
                            &&& final(self).selected == Self::selection_after_remove(
                                i,
                                final(self).todos@.len(),
                            )
                        },
                        None => *final(self) == *old(self),
                    }
                    &&& final(self).input == old(self).input
                    &&& final(self).input_mode == old(self).input_mode
                    &&& final(self).file_list == old(self).file_list
                    &&& final(self).file_selected == old(self).file_selected
                    &&& final(self).current_file == old(self).current_file
                    &&& final(self).message == old(self).message
                },
                (InputMode::Normal, Command::BeginSave) => match old(self).current_file {
                    Some(f) => {
                        &&& *final(self) == *old(self)
                        &&& match eff {
                            Effect::Write { filename, content } => {
                                &&& filename@ == f@
                                &&& content@ == render_items(items_view(old(self).todos@))
                            },
                            _ => false,
                        }
                    },
                    None => {
                        &&& eff is Nothing
                        &&& final(self).input_mode == InputMode::Saving
                        &&& final(self).input@.len() == 0
                        &&& final(self).todos == old(self).todos
                        &&& final(self).selected == old(self).selected
                        &&& final(self).file_list == old(self).file_list
                        &&& final(self).file_selected == old(self).file_selected
                        &&& final(self).current_file == old(self).current_file
                        &&& final(self).message == old(self).message
                    },
                },
                (InputMode::Normal, Command::BeginLoad) => {
                    &&& eff is RefreshFiles
                    &&& *final(self) == *old(self)
                },
                (InputMode::Editing, Command::Commit) => {
                    &&& eff is Nothing
                    &&& old(self).input@.len() == 0 ==> *final(self) == *old(self)
                    &&& old(self).input@.len() > 0 ==> {
                        &&& items_view(final(self).todos@) == items_view(old(self).todos@).push(
                            (old(self).input@, false),
                        )
                        &&& final(self).input@.len() == 0
                    }
                    &&& final(self).input_mode == old(self).input_mode
                    &&& final(self).selected == old(self).selected
                    &&& final(self).file_list == old(self).file_list
                    &&& final(self).file_selected == old(self).file_selected
                    &&& final(self).current_file == old(self).current_file
                    &&& final(self).message == old(self).message
                },
                (InputMode::Editing, Command::CharInput(c)) => {
                    &&& eff is Nothing
                    &&& final(self).input@ == old(self).input@.push(c)
                    &&& final(self).input_mode == old(self).input_mode
                    &&& final(self).todos == old(self).todos
                    &&& final(self).selected == old(self).selected
                    &&& final(self).file_list == old(self).file_list
                    &&& final(self).file_selected == old(self).file_selected
                    &&& final(self).current_file == old(self).current_file
                    &&& final(self).message == old(self).message
                },
                (InputMode::Editing, Command::Backspace) => {
                    &&& eff is Nothing
                    &&& old(self).input@.len() == 0 ==> final(self).input@ == old(self).input@
                    &&& old(self).input@.len() > 0 ==> final(self).input@ == old(
                        self,
                    ).input@.drop_last()
                    &&& final(self).input_mode == old(self).input_mode
                    &&& final(self).todos == old(self).todos
                    &&& final(self).selected == old(self).selected
                    &&& final(self).file_list == old(self).file_list
                    &&& final(self).file_selected == old(self).file_selected
                    &&& final(self).current_file == old(self).current_file
                    &&& final(self).message == old(self).message
                },
                (InputMode::Editing, Command::Cancel) => {
                    &&& eff is Nothing
                    &&& final(self).input_mode == InputMode::Normal
                    &&& final(self).input == old(self).input
                    &&& final(self).todos == old(self).todos
                    &&& final(self).selected == old(self).selected
                    &&& final(self).file_list == old(self).file_list
                    &&& final(self).file_selected == old(self).file_selected
                    &&& final(self).current_file == old(self).current_file
                    &&& final(self).message == old(self).message
                },
                (InputMode::Saving, Command::Commit) => match eff {
                    Effect::Write { filename, content } => {
                        &&& filename@ == resolved_filename(old(self).input@)
                        &&& content@ == render_items(items_view(old(self).todos@))
                        &&& final(self).input_mode == InputMode::Saving
                        &&& old(self).input@.len() == 0 ==> final(self).input == old(self).input
                        &&& old(self).input@.len() > 0 ==> final(self).input@ == resolved_filename(
                            old(self).input@,
                        )
                        &&& final(self).todos == old(self).todos
                        &&& final(self).selected == old(self).selected
                        &&& final(self).file_list == old(self).file_list
                        &&& final(self).file_selected == old(self).file_selected
                        &&& final(self).current_file == old(self).current_file
                        &&& final(self).message == old(self).message
                    },
                    _ => false,
                },
                (InputMode::Saving, Command::CharInput(c)) => {
                    &&& eff is Nothing
                    &&& final(self).input@ == old(self).input@.push(c)
                    &&& final(self).input_mode == old(self).input_mode
                    &&& final(self).todos == old(self).todos
                    &&& final(self).selected == old(self).selected
                    &&& final(self).file_list == old(self).file_list
                    &&& final(self).file_selected == old(self).file_selected
                    &&& final(self).current_file == old(self).current_file
                    &&& final(self).message == old(self).message
                },
                (InputMode::Saving, Command::Backspace) => {
                    &&& eff is Nothing
                    &&& old(self).input@.len() == 0 ==> final(self).input@ == old(self).input@
                    &&& old(self).input@.len() > 0 ==> final(self).input@ == old(
                        self,
                    ).input@.drop_last()
                    &&& final(self).input_mode == old(self).input_mode
                    &&& final(self).todos == old(self).todos
                    &&& final(self).selected == old(self).selected
                    &&& final(self).file_list == old(self).file_list
                    &&& final(self).file_selected == old(self).file_selected
                    &&& final(self).current_file == old(self).current_file
                    &&& final(self).message == old(self).message
                },
                (InputMode::Saving, Command::Cancel) => {
                    &&& eff is Nothing
                    &&& final(self).input_mode == InputMode::Normal
                    &&& final(self).input@.len() == 0
                    &&& final(self).todos == old(self).todos
                    &&& final(self).selected == old(self).selected
                    &&& final(self).file_list == old(self).file_list
                    &&& final(self).file_selected == old(self).file_selected
                    &&& final(self).current_file == old(self).current_file
                    &&& final(self).message == old(self).message
                },
                (InputMode::Loading, Command::Commit) => match old(self).file_selected {
                    Some(i) => {
                        &&& *final(self) == *old(self)
                        &&& match eff {
                            Effect::ReadFile { filename } => filename@ == old(self).file_list@[
                                i as int
                            ]@,
                            _ => false,
                        }
                    },
                    None => {
                        &&& eff is Nothing
                        &&& final(self).input_mode == InputMode::Normal
                        &&& final(self).input == old(self).input
                        &&& final(self).todos == old(self).todos
                        &&& final(self).selected == old(self).selected
                        &&& final(self).file_list == old(self).file_list
                        &&& final(self).file_selected == old(self).file_selected
                        &&& final(self).current_file == old(self).current_file
                        &&& final(self).message == old(self).message
                    },
                },
                (InputMode::Loading, Command::Move(d)) => {
                    &&& eff is Nothing
                    &&& final(self).file_selected == Self::moved_selection(
                        old(self).file_selected,
                        d as int,
                        old(self).file_list@.len(),
                    )
                    &&& final(self).file_list == old(self).file_list
                    &&& final(self).todos == old(self).todos
                    &&& final(self).selected == old(self).selected
                    &&& final(self).input == old(self).input
                    &&& final(self).input_mode == old(self).input_mode
                    &&& final(self).current_file == old(self).current_file
                    &&& final(self).message == old(self).message
                },
                (InputMode::Loading, Command::Cancel) => {
                    &&& eff is Nothing
                    &&& final(self).input_mode == InputMode::Normal
                    &&& final(self).input == old(self).input
                    &&& final(self).todos == old(self).todos
                    &&& final(self).selected == old(self).selected
                    &&& final(self).file_list == old(self).file_list
                    &&& final(self).file_selected == old(self).file_selected
                    &&& final(self).current_file == old(self).current_file
                    &&& final(self).message == old(self).message
                },
                _ => {
                    &&& eff is Nothing
                    &&& *final(self) == *old(self)
                },
            },
    {
        match self.input_mode {
            InputMode::Normal => match cmd {
                Command::BeginEdit => {
                    self.begin_edit();
                    Effect::Nothing
                },
                Command::Quit => Effect::Quit,
                Command::Move(d) => {
                    self.move_selection(d);
                    Effect::Nothing
                },
                Command::Toggle => {
                    self.toggle_todo();
                    Effect::Nothing
                },
                Command::Delete => {
                    self.remove_todo();
                    Effect::Nothing
                },
                Command::BeginSave => match self.start_saving() {
                    Some(f) => {
                        let content = self.save_content();
                        Effect::Write { filename: f, content }
                    },
                    None => Effect::Nothing,
                },
                Command::BeginLoad => Effect::RefreshFiles,
                _ => Effect::Nothing,
            },
            InputMode::Editing => match cmd {
                Command::Commit => {
                    self.add_todo();
                    Effect::Nothing
                },
                Command::CharInput(c) => {
                    self.char_input(c);
                    Effect::Nothing
                },
                Command::Backspace => {
                    self.backspace();
                    Effect::Nothing
                },
                Command::Cancel => {
                    self.cancel();
                    Effect::Nothing
                },
                _ => Effect::Nothing,
            },
            InputMode::Saving => match cmd {
                Command::Commit => {
                    let filename = self.resolve_save_filename();
                    let content = self.save_content();
                    Effect::Write { filename, content }
                },
                Command::CharInput(c) => {
                    self.char_input(c);
                    Effect::Nothing
                },
                Command::Backspace => {
                    self.backspace();
                    Effect::Nothing
                },
                Command::Cancel => {
                    self.cancel();
                    Effect::Nothing
                },
                _ => Effect::Nothing,
            },
            InputMode::Loading => match cmd {
                Command::Commit => match self.load_target() {
                    Some(f) => Effect::ReadFile { filename: f },
                    None => {
                        self.input_mode = InputMode::Normal;
                        Effect::Nothing
                    },
                },
                Command::Move(d) => {
                    self.move_file_selection(d);
                    Effect::Nothing
                },
                Command::Cancel => {
                    self.cancel();
                    Effect::Nothing
                },
                _ => Effect::Nothing,
            },
        }
    }
}

} // verus!
