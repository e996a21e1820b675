//! State of the desktop interface that its logic reads and changes, and
//! the text helpers its views use. Drawing runs outside the library.

use vstd::prelude::*;
use crate::library::{lookup_item, Library, LibraryView};
use crate::media::MediaItemView;
use crate::queue::{PlayQueue, PlayQueueView, RepeatMode};
use crate::text::{char_vec, decimal, push_char, push_decimal, push_str, spec_lowercase, string_from_chars};
use crate::tui::{enqueued, find_matching, matching_indices, UiAction, UiActionView};

verus! {

/// Active view in the main panel.
#[derive(Debug, Clone, Copy, PartialEq, Eq, Structural)]
pub enum Screen {
    Library,
    NowPlaying,
    Queue,
    Equalizer,
}

/// Library view layout mode.
#[derive(Debug, Clone, Copy, PartialEq, Eq, Structural)]
pub enum LibraryViewMode {
    List,
    Grid,
}

/// The desktop interface's state.
#[derive(Debug)]
pub struct GuiState {
    pub library: Library,
    pub queue: PlayQueue,
    pub view: Screen,
    pub selected_index: usize,
    pub search_query: String,
    pub search_results: Vec<usize>,
    pub library_view_mode: LibraryViewMode,
    pub current_playing_id: Option<u128>,
}

/// The abstract value of a [`GuiState`].
pub struct GuiStateView {
    pub library: LibraryView,
    pub queue: PlayQueueView,
    pub view: Screen,
    pub selected_index: usize,
    pub search_query: Seq<char>,
    pub search_results: Seq<usize>,
    pub library_view_mode: LibraryViewMode,
    pub current_playing_id: Option<u128>,
}

impl View for GuiState {
    type V = GuiStateView;

    open spec fn view(&self) -> GuiStateView {
        GuiStateView {
            library: self.library@,
            queue: self.queue@,
            view: self.view,
            selected_index: self.selected_index,
            search_query: self.search_query@,
            search_results: self.search_results@,
            library_view_mode: self.library_view_mode,
            current_playing_id: self.current_playing_id,
        }
    }
}

impl GuiStateView {
    /// Number of entries in the active view's list.
    pub open spec fn list_len(self) -> int {
        match self.view {
            Screen::Library => if self.search_query.len() > 0 {
                self.search_results.len() as int
            } else {
                self.library.items.len() as int
            },
            Screen::Queue => self.queue.items.len() as int,
            Screen::NowPlaying => 0,
            Screen::Equalizer => 10,
        }
    }

    /// The state after the search results are recomputed from the query.
    pub open spec fn update_search(self) -> GuiStateView {
        if self.search_query.len() == 0 {
            GuiStateView { search_results: Seq::empty(), ..self }
        } else {
            let r = matching_indices(self.library.items, spec_lowercase(self.search_query));
            GuiStateView {
                search_results: r,
                selected_index: if self.selected_index >= r.len() && r.len() > 0 {
                    (r.len() - 1) as usize
                } else {
                    self.selected_index
                },
                ..self
            }
        }
    }

    /// The state and action after choosing library item `index`: an
    /// existing item becomes the one playing, and starts an empty queue.
    pub open spec fn play_item(self, index: usize) -> (GuiStateView, UiActionView) {
        if index < self.library.items.len() {
            let it = self.library.items[index as int];
            (
                GuiStateView {
                    current_playing_id: Some(it.id),
                    queue: if self.queue.items.len() == 0 { enqueued(self.queue, it.id) } else { self.queue },
                    ..self
                },
                UiActionView::Play { item_id: it.id, path: it.path },
            )
        } else {
            (self, UiActionView::Nothing)
        }
    }
}

impl GuiStateView {
    /// The state after deleting queue entry `index`: the selection stays
    /// within the queue, and a current position at or after the deleted
    /// entry moves back by one (not below the first entry).
    pub open spec fn queue_deleted(self, index: usize) -> GuiStateView {
        let items = self.queue.items.remove(index as int);
        let sel = if self.selected_index >= items.len() && items.len() > 0 {
            (items.len() - 1) as usize
        } else {
            self.selected_index
        };
        let pos = match self.queue.position {
            Some(p) => if index <= p && p > 0 { Some((p - 1) as usize) } else { Some(p) },
            None => None,
        };
        GuiStateView { queue: PlayQueueView { items, position: pos, ..self.queue }, selected_index: sel, ..self }
    }

    /// The state and action after jumping to queue entry `index`: it
    /// becomes the current position, and the item it names, if the library
    /// has it, becomes the one playing.
    pub open spec fn queue_activated(self, index: usize) -> (GuiStateView, UiActionView) {
        let q = PlayQueueView { position: Some(index), ..self.queue };
        let id = self.queue.items[index as int];
        match lookup_item(self.library.items, id) {
            Some(it) => (
                GuiStateView { queue: q, current_playing_id: Some(id), ..self },
                UiActionView::Play { item_id: id, path: it.path },
            ),
            None => (GuiStateView { queue: q, ..self }, UiActionView::Nothing),
        }
    }
}

impl GuiState {
    /// A fresh interface on a library: library view in list layout,
    /// nothing selected, searched or playing, with an empty queue.
    pub fn new(library: Library) -> (g: GuiState)
        ensures
            g@ == (GuiStateView {
                library: library@,
                queue: PlayQueueView { items: Seq::empty(), position: None, repeat_mode: RepeatMode::Off, shuffle: false },
                view: Screen::Library,
                selected_index: 0,
                search_query: Seq::empty(),
                search_results: Seq::empty(),
                library_view_mode: LibraryViewMode::List,
                current_playing_id: None,
            }),
    {
        let g = GuiState {
            library,
            queue: PlayQueue::new(),
            view: Screen::Library,
            selected_index: 0,
            search_query: String::new(),
            search_results: Vec::new(),
            library_view_mode: LibraryViewMode::List,
            current_playing_id: None,
        };
        assert(g.search_results@ =~= Seq::<usize>::empty());
        g
    }

    /// Recomputes the search results from the query.
    pub fn update_search(&mut self)
        ensures
            final(self)@ == old(self)@.update_search(),
    {
        if self.search_query.as_str().is_empty() {
            self.search_results.clear();
            assert(self.search_results@ =~= Seq::<usize>::empty());
            return;
        }
        self.search_results = find_matching(&self.library.items, self.search_query.as_str());
        if self.selected_index >= self.search_results.len() && self.search_results.len() > 0 {
            self.selected_index = self.search_results.len() - 1;
        }
    }

    /// Number of entries in the active view's list.
    pub fn list_len(&self) -> (n: usize)
        ensures
            n == self@.list_len(),
    {
        match self.view {
            Screen::Library => {
                if !self.search_query.as_str().is_empty() {
                    self.search_results.len()
                } else {
                    self.library.items.len()
                }
            },
            Screen::Queue => self.queue.len(),
            Screen::NowPlaying => 0,
            Screen::Equalizer => 10,
        }
    }

    /// Plays library item `index`, if there is one.
    pub fn play_item(&mut self, index: usize) -> (action: UiAction)
        ensures
            (final(self)@, action@) == old(self)@.play_item(index),
    {
        if index < self.library.items.len() {
            let id = self.library.items[index].id;
            let path = crate::text::copy_string(&self.library.items[index].path);
            self.current_playing_id = Some(id);
            if self.queue.is_empty() {
                self.queue.enqueue(id);
            }
            UiAction::Play { item_id: id, path }
        } else {
            UiAction::Nothing
        }
    }

    /// Deletes queue entry `index` (the queue view's delete key).
    pub fn queue_delete(&mut self, index: usize)
        requires
            index < old(self)@.queue.items.len(),
        ensures
            final(self)@ == old(self)@.queue_deleted(index),
    {
        self.queue.items.remove(index);
        if self.selected_index >= self.queue.items.len() && self.queue.items.len() > 0 {
            self.selected_index = self.queue.items.len() - 1;
        }
        match self.queue.position {
            Some(p) => {
                if index <= p && p > 0 {
                    self.queue.position = Some(p - 1);
                }
            },
            None => {},
        }
    }

    /// Jumps to queue entry `index` (a double click in the queue view) and
    /// plays its item if the library has it.
    pub fn queue_activate(&mut self, index: usize) -> (action: UiAction)
        requires
            index < old(self)@.queue.items.len(),
        ensures
            (final(self)@, action@) == old(self)@.queue_activated(index),
    {
        self.queue.position = Some(index);
        let id = self.queue.items[index];
        match self.library.find_by_id(id) {
            Some(it) => {
                let path = crate::text::copy_string(&it.path);
                self.current_playing_id = Some(id);
                UiAction::Play { item_id: id, path }
            },
            None => UiAction::Nothing,
        }
    }

    /// Cycles the queue's repeat mode (Off, One, All).
    pub fn toggle_repeat(&mut self)
        ensures
            final(self)@ == (GuiStateView {
                queue: PlayQueueView { repeat_mode: old(self)@.queue.repeat_mode.spec_cycle(), ..old(self)@.queue },
                ..old(self)@
            }),
    {
        self.queue.repeat_mode = self.queue.repeat_mode.cycle();
    }

    /// Turns shuffle on or off.
    pub fn toggle_shuffle(&mut self)
        ensures
            final(self)@ == (GuiStateView {
                queue: PlayQueueView { shuffle: !old(self)@.queue.shuffle, ..old(self)@.queue },
                ..old(self)@
            }),
    {
        self.queue.shuffle = !self.queue.shuffle;
    }

    /// Empties the queue and resets the selection (the queue view's clear
    /// button).
    pub fn clear_queue(&mut self)
        ensures
            final(self)@ == (GuiStateView {
                queue: PlayQueueView { items: Seq::empty(), position: None, ..old(self)@.queue },
                selected_index: 0,
                ..old(self)@
            }),
    {
        self.queue.clear();
        self.selected_index = 0;
    }

    /// The text of queue row `i`.
    pub fn queue_row_text(&self, i: usize) -> (res: String)
        requires
            i < self@.queue.items.len(),
        ensures
            res@ == queue_row(self@.library.items, self@.queue.items[i as int], i as nat, self@.queue.position == Some(i)),
    {
        let mut s = String::new();
        if self.queue.position == Some(i) {
            push_str(&mut s, "\u{25B6} ");
        } else {
            push_str(&mut s, "  ");
        }
        let qlen = self.queue.items.len();
        assert(i < qlen);
        let n1: usize = i + 1;
        let n: u64 = n1 as u64;
        let mut digits = String::new();
        push_decimal(&mut digits, n);
        let dl = char_vec(digits.as_str()).len();
        let mut k: usize = dl;
        let ghost pre = s@;
        while k < 3
            invariant
                dl <= k <= 3 || (dl > 3 && k == dl),
                s@ == pre + Seq::new((k - dl) as nat, |j: int| ' '),
            decreases 3 - k,
        {
            push_char(&mut s, ' ');
            assert(s@ =~= pre + Seq::new((k + 1 - dl) as nat, |j: int| ' '));
            k = k + 1;
        }
        assert(digits@ == decimal(n as nat));
        proof {
            if dl < 3 {
                assert(Seq::new((3 - dl) as nat, |j: int| ' ') =~= Seq::new((3 - decimal(n as nat).len()) as nat, |j: int| ' '));
            } else {
                assert(Seq::new((k - dl) as nat, |j: int| ' ') =~= Seq::<char>::empty());
            }
        }
        push_str(&mut s, digits.as_str());
        push_str(&mut s, ". ");
        match self.library.find_by_id(self.queue.items[i]) {
            Some(it) => {
                match &it.artist {
                    Some(a) => push_str(&mut s, a.as_str()),
                    None => push_str(&mut s, "Unknown"),
                }
                push_str(&mut s, " \u{2013} ");
                push_str(&mut s, it.title.as_str());
            },
            None => push_str(&mut s, "(unknown)"),
        }
        proof {
            reveal_strlit("\u{25B6} ");
            reveal_strlit("  ");
        }
        assert(s@ =~= queue_row(self@.library.items, self@.queue.items[i as int], i as nat, self@.queue.position == Some(i)));
        s
    }

    /// Moves the selection by one arrow key in the grid layout of
    /// `item_count` cells, `columns` to a row. Only the selection changes,
    /// and a selection within the cells stays within them.
    pub fn grid_key(&mut self, key: ArrowKey, item_count: usize, columns: usize)
        ensures
            final(self)@ == (GuiStateView {
                selected_index: grid_moved(old(self)@.selected_index as int, item_count as int, columns as int, key) as usize,
                ..old(self)@
            }),
            old(self).selected_index < item_count ==> final(self).selected_index < item_count,
    {
        let sel = self.selected_index;
        match key {
            ArrowKey::Right => {
                if item_count > 0 && sel < item_count - 1 {
                    self.selected_index = sel + 1;
                }
            },
            ArrowKey::Left => {
                if sel > 0 {
                    self.selected_index = sel - 1;
                }
            },
            ArrowKey::Down => {
                if columns < item_count && sel < item_count - columns {
                    self.selected_index = sel + columns;
                }
            },
            ArrowKey::Up => {
                if sel >= columns {
                    self.selected_index = sel - columns;
                }
            },
        }
    }

    /// Moves the selection by one arrow key in the list layout of
    /// `item_count` rows. Only the selection changes, and a selection
    /// within the rows stays within them.
    pub fn list_key(&mut self, key: ArrowKey, item_count: usize)
        ensures
            final(self)@ == (GuiStateView {
                selected_index: list_moved(old(self)@.selected_index as int, item_count as int, key) as usize,
                ..old(self)@
            }),
            old(self).selected_index < item_count ==> final(self).selected_index < item_count,
    {
        let sel = self.selected_index;
        match key {
            ArrowKey::Down => {
                if item_count > 0 && sel < item_count - 1 {
                    self.selected_index = sel + 1;
                }
            },
            ArrowKey::Up => {
                if sel > 0 {
                    self.selected_index = sel - 1;
                }
            },
            _ => {},
        }
    }
}

/// An arrow key of the library views.
#[derive(Debug, Clone, Copy, PartialEq, Eq, Structural)]
pub enum ArrowKey {
    Up,
    Down,
    Left,
    Right,
}

/// The selection after one arrow key in the grid layout, `columns` cells
/// to a row and `count` cells in all: left and right step one cell, up and
/// down one row, and a step that would leave the cells is not taken.
pub open spec fn grid_moved(sel: int, count: int, columns: int, key: ArrowKey) -> int {
    match key {
        ArrowKey::Right => if sel + 1 < count { sel + 1 } else { sel },
        ArrowKey::Left => if sel > 0 { sel - 1 } else { sel },
        ArrowKey::Down => if sel + columns < count { sel + columns } else { sel },
        ArrowKey::Up => if sel >= columns { sel - columns } else { sel },
    }
}

/// The selection after one arrow key in the list layout of `count` rows:
/// up and down step one row within the list; left and right do nothing.
pub open spec fn list_moved(sel: int, count: int, key: ArrowKey) -> int {
    match key {
        ArrowKey::Down => if sel + 1 < count { sel + 1 } else { sel },
        ArrowKey::Up => if sel > 0 { sel - 1 } else { sel },
        _ => sel,
    }
}

/// A number right-aligned in three columns (`{:>3}`).
pub open spec fn padded3(n: nat) -> Seq<char> {
    let d = decimal(n);
    if d.len() < 3 { Seq::new((3 - d.len()) as nat, |i: int| ' ') + d } else { d }
}

/// The queue view's row for entry `i` naming item `id`: a play mark on the
/// current entry, the entry's number, and the item's artist and title
/// ("Unknown" for a missing artist), or "(unknown)" for an item the library
/// lacks.
pub open spec fn queue_row(items: Seq<MediaItemView>, id: u128, i: nat, current: bool) -> Seq<char> {
    let mark = if current { "\u{25B6} "@ } else { "  "@ };
    let name = match lookup_item(items, id) {
        Some(it) => {
            let artist = match it.artist {
                Some(a) => a,
                None => "Unknown"@,
            };
            artist + " \u{2013} "@ + it.title
        },
        None => "(unknown)"@,
    };
    mark + padded3(i + 1) + ". "@ + name
}

/// `s` cut to at most `max_len` characters: a longer text keeps its first
/// `max_len - 1` characters (none when `max_len` is 0) and gets an ellipsis.
pub open spec fn truncated(s: Seq<char>, max_len: nat) -> Seq<char> {
    if s.len() <= max_len {
        s
    } else {
        s.take(if max_len > 0 { max_len - 1 } else { 0 }) + seq!['\u{2026}']
    }
}

/// Truncates a text to `max_len` characters, marking a cut with an
/// ellipsis.
pub fn truncate_str(s: &str, max_len: usize) -> (res: String)
    ensures
        res@ == truncated(s@, max_len as nat),
{
    let cs = char_vec(s);
    if cs.len() <= max_len {
        return string_from_chars(cs.as_slice());
    }
    let keep_n: usize = if max_len > 0 { max_len - 1 } else { 0 };
    let mut out: Vec<char> = Vec::new();
    let mut i: usize = 0;
    while i < keep_n
        invariant
            i <= keep_n,
            keep_n < cs.len(),
            out@ == cs@.take(i as int),
        decreases keep_n - i,
    {
        out.push(cs[i]);
        i = i + 1;
        assert(out@ =~= cs@.take(i as int));
    }
    let mut res = string_from_chars(out.as_slice());
    push_char(&mut res, '\u{2026}');
    res
}

} // verus!
