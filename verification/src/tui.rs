//! State and key handling of the interactive terminal interface.
//!
//! The terminal loop itself (drawing, reading keys, driving the audio
//! engine) runs outside the library: it hands each key to
//! [`handle_normal_input`] or [`handle_search_input`], which update the
//! state and say what the engine is to do.

use vstd::prelude::*;
use crate::library::{folded_has, items_view, lookup_item, opt_contains_folded, opt_folded_has, Library, LibraryView};
use crate::media::{MediaItem, MediaItemView};
use crate::queue::{PlayQueue, PlayQueueView};
use crate::seqs::{keep, lemma_keep_step};
use crate::text::{char_vec, contains_folded, copy_string, lowercase, push_char, spec_lowercase, string_from_chars};

verus! {

/// Which view is active in the terminal interface.
#[derive(Debug, Clone, Copy, PartialEq, Eq, Structural)]
pub enum Screen {
    Library,
    NowPlaying,
    Queue,
    Equalizer,
}

impl Screen {
    /// The view after this one: library, now playing, queue, equalizer,
    /// and back to the library.
    pub open spec fn spec_cycle(self) -> Screen {
        match self {
            Screen::Library => Screen::NowPlaying,
            Screen::NowPlaying => Screen::Queue,
            Screen::Queue => Screen::Equalizer,
            Screen::Equalizer => Screen::Library,
        }
    }

    /// The view after this one.
    pub fn cycle(self) -> (res: Screen)
        ensures
            res == self.spec_cycle(),
    {
        match self {
            Screen::Library => Screen::NowPlaying,
            Screen::NowPlaying => Screen::Queue,
            Screen::Queue => Screen::Equalizer,
            Screen::Equalizer => Screen::Library,
        }
    }
}

/// Cycling through the views comes back after four steps and never stays
/// on the same view.
pub proof fn lemma_view_cycle_period(v: Screen)
    ensures
        v.spec_cycle().spec_cycle().spec_cycle().spec_cycle() == v,
        v.spec_cycle() != v,
{
}

/// Input mode: normal navigation or typing a search.
#[derive(Debug, Clone, Copy, PartialEq, Eq, Structural)]
pub enum InputMode {
    Normal,
    Search,
}

/// A key press, as far as the interface tells keys apart.
#[derive(Debug, Clone, Copy, PartialEq, Eq, Structural)]
pub enum Key {
    Char(char),
    Left,
    Right,
    Up,
    Down,
    Enter,
    Tab,
    Esc,
    Backspace,
    Other,
}

/// What the audio engine is to do after a key press.
#[derive(Debug)]
pub enum UiAction {
    /// Nothing.
    Nothing,
    /// Toggle between playing and paused.
    TogglePlayback,
    /// Seek by this many seconds (negative: backwards).
    SeekBy { seconds: i64 },
    /// Raise (`up`) or lower an equalizer band by one decibel.
    ShiftEqBand { band: usize, up: bool },
    /// Open the file at `path` and play it; `item_id` is now playing.
    Play { item_id: u128, path: String },
    /// Switch to the equalizer preset after the current one.
    NextEqPreset,
    /// Raise the volume by five percent.
    VolumeUp,
    /// Lower the volume by five percent.
    VolumeDown,
    ToggleMute,
    ToggleEq,
    ToggleNormalize,
}

/// The abstract value of a [`UiAction`].
pub enum UiActionView {
    Nothing,
    TogglePlayback,
    SeekBy { seconds: i64 },
    ShiftEqBand { band: usize, up: bool },
    Play { item_id: u128, path: Seq<char> },
    NextEqPreset,
    VolumeUp,
    VolumeDown,
    ToggleMute,
    ToggleEq,
    ToggleNormalize,
}

impl View for UiAction {
    type V = UiActionView;

    open spec fn view(&self) -> UiActionView {
        match self {
            UiAction::Nothing => UiActionView::Nothing,
            UiAction::TogglePlayback => UiActionView::TogglePlayback,
            UiAction::SeekBy { seconds } => UiActionView::SeekBy { seconds: *seconds },
            UiAction::ShiftEqBand { band, up } => UiActionView::ShiftEqBand { band: *band, up: *up },
            UiAction::Play { item_id, path } => UiActionView::Play { item_id: *item_id, path: path@ },
            UiAction::NextEqPreset => UiActionView::NextEqPreset,
            UiAction::VolumeUp => UiActionView::VolumeUp,
            UiAction::VolumeDown => UiActionView::VolumeDown,
            UiAction::ToggleMute => UiActionView::ToggleMute,
            UiAction::ToggleEq => UiActionView::ToggleEq,
            UiAction::ToggleNormalize => UiActionView::ToggleNormalize,
        }
    }
}

/// An item matches a lower-cased query in the interface's search when its
/// title, artist or album contains the query, ignoring case.
pub open spec fn listing_match(item: MediaItemView, q: Seq<char>) -> bool {
    folded_has(item.title, q) || opt_folded_has(item.artist, q) || opt_folded_has(item.album, q)
}

/// The indices of the items that match `q`, in order.
pub open spec fn matching_indices(items: Seq<MediaItemView>, q: Seq<char>) -> Seq<usize> {
    keep(Seq::new(items.len(), |i: int| i as usize), |i: usize| listing_match(items[i as int], q))
}

/// The indices of the items whose title, artist or album contains `query`,
/// ignoring case.
pub fn find_matching(items: &Vec<MediaItem>, query: &str) -> (res: Vec<usize>)
    ensures
        res@ == matching_indices(items_view(items@), spec_lowercase(query@)),
{
    let ghost its = items_view(items@);
    let ghost ql = spec_lowercase(query@);
    let ghost idx = Seq::new(its.len(), |i: int| i as usize);
    let ghost f = |i: usize| listing_match(its[i as int], ql);
    let lowered = lowercase(query);
    let q = char_vec(lowered.as_str());
    let mut out: Vec<usize> = Vec::new();
    let mut i: usize = 0;
    while i < items.len()
        invariant
            i <= items.len(),
            its == items_view(items@),
            idx == Seq::new(its.len(), |i: int| i as usize),
            f == (|i: usize| listing_match(its[i as int], ql)),
            q@ == ql,
            out@ == keep(idx.take(i as int), f),
        decreases items.len() - i,
    {
        proof {
            lemma_keep_step(idx, f, i as int);
        }
        let it = &items[i];
        assert(its[i as int] == it@);
        if contains_folded(it.title.as_str(), &q) || opt_contains_folded(&it.artist, &q)
            || opt_contains_folded(&it.album, &q) {
            out.push(i);
        }
        i = i + 1;
    }
    assert(idx.take(i as int) =~= idx);
    out
}

/// State of the terminal interface that its key handling reads and
/// changes: the library, the play queue, the active view and selection,
/// and the search.
#[derive(Debug)]
pub struct App {
    pub library: Library,
    pub queue: PlayQueue,
    pub view: Screen,
    pub selected_index: usize,
    pub search_query: String,
    pub search_results: Vec<usize>,
    pub input_mode: InputMode,
    pub running: bool,
}

/// The abstract value of an [`App`].
pub struct AppView {
    pub library: LibraryView,
    pub queue: PlayQueueView,
    pub view: Screen,
    pub selected_index: usize,
    pub search_query: Seq<char>,
    pub search_results: Seq<usize>,
    pub input_mode: InputMode,
    pub running: bool,
}

impl View for App {
    type V = AppView;

    open spec fn view(&self) -> AppView {
        AppView {
            library: self.library@,
            queue: self.queue@,
            view: self.view,
            selected_index: self.selected_index,
            search_query: self.search_query@,
            search_results: self.search_results@,
            input_mode: self.input_mode,
            running: self.running,
        }
    }
}

impl AppView {
    /// The state the key handling relies on: search results point at
    /// library items, and a queue position is at most the queue's length.
    pub open spec fn wf(self) -> bool {
        &&& forall|k: int| 0 <= k < self.search_results.len() ==> #[trigger] self.search_results[k] < self.library.items.len()
        &&& match self.queue.position {
            Some(p) => p <= self.queue.items.len(),
            None => true,
        }
    }

    /// What a key press in normal mode reads must exist: Enter and 'a' in
    /// the library view read the selected library entry, and 'p' reads the
    /// queue entry before the current one.
    pub open spec fn key_ok(self, key: Key) -> bool {
        let selected_ok = match self.selected_library_index() {
            Some(i) => i < self.library.items.len(),
            None => true,
        };
        let back_ok = match self.queue.position {
            Some(p) => p > 0 ==> p - 1 < self.queue.items.len(),
            None => true,
        };
        match key {
            Key::Enter => selected_ok,
            Key::Char(c) => (c == 'a' ==> selected_ok) && (c == 'p' ==> back_ok),
            _ => true,
        }
    }

    /// Number of entries in the active view's list.
    pub open spec fn list_len(self) -> int {
        match self.view {
            Screen::Library => if self.input_mode == InputMode::Search || self.search_query.len() > 0 {
                self.search_results.len() as int
            } else {
                self.library.items.len() as int
            },
            Screen::Queue => self.queue.items.len() as int,
            Screen::NowPlaying => 0,
            Screen::Equalizer => 10,
        }
    }

    /// The state after moving the selection up.
    pub open spec fn select_prev(self) -> AppView {
        if self.selected_index > 0 {
            AppView { selected_index: (self.selected_index - 1) as usize, ..self }
        } else {
            self
        }
    }

    /// The state after moving the selection down, within the list.
    pub open spec fn select_next(self) -> AppView {
        if self.list_len() > 0 && self.selected_index < self.list_len() - 1 {
            AppView { selected_index: (self.selected_index + 1) as usize, ..self }
        } else {
            self
        }
    }

    /// The library index of the selected entry: through the search results
    /// while a query is typed, else the selection itself.
    pub open spec fn selected_library_index(self) -> Option<usize> {
        if self.view != Screen::Library {
            None
        } else if self.search_query.len() > 0 {
            if self.selected_index < self.search_results.len() {
                Some(self.search_results[self.selected_index as int])
            } else {
                None
            }
        } else if self.selected_index < self.library.items.len() {
            Some(self.selected_index)
        } else {
            None
        }
    }

    /// The state after the search results are recomputed from the query;
    /// with matches, the selection is kept within them.
    pub open spec fn update_search(self) -> AppView {
        if self.search_query.len() == 0 {
            AppView { search_results: Seq::empty(), ..self }
        } else {
            let r = matching_indices(self.library.items, spec_lowercase(self.search_query));
            AppView {
                search_results: r,
                selected_index: if self.selected_index >= r.len() && r.len() > 0 {
                    (r.len() - 1) as usize
                } else {
                    self.selected_index
                },
                ..self
            }
        }
    }
}


/// The queue after `enqueue(id)`: the id is appended, and a queue without
/// a position gets position 0.
pub open spec fn enqueued(q: PlayQueueView, id: u128) -> PlayQueueView {
    PlayQueueView {
        items: q.items.push(id),
        position: if q.position is None { Some(0usize) } else { q.position },
        ..q
    }
}

/// Play the item with `id` if the library has it.
pub open spec fn play_if_found(items: Seq<MediaItemView>, id: u128) -> UiActionView {
    match lookup_item(items, id) {
        Some(it) => UiActionView::Play { item_id: id, path: it.path },
        None => UiActionView::Nothing,
    }
}

impl AppView {
    /// The state and action after Enter in normal mode: in the library the
    /// selected item plays (and starts an empty queue); in the queue the
    /// selected entry becomes current and plays; in the equalizer the next
    /// preset is chosen.
    pub open spec fn enter_key(self) -> (AppView, UiActionView) {
        match self.view {
            Screen::Library => match self.selected_library_index() {
                Some(idx) => {
                    let it = self.library.items[idx as int];
                    (
                        AppView {
                            queue: if self.queue.items.len() == 0 { enqueued(self.queue, it.id) } else { self.queue },
                            ..self
                        },
                        UiActionView::Play { item_id: it.id, path: it.path },
                    )
                },
                None => (self, UiActionView::Nothing),
            },
            Screen::Queue => if self.selected_index < self.queue.items.len() {
                let q = PlayQueueView { position: Some(self.selected_index), ..self.queue };
                (
                    AppView { queue: q, ..self },
                    match q.current() {
                        Some(id) => play_if_found(self.library.items, id),
                        None => UiActionView::Nothing,
                    },
                )
            } else {
                (self, UiActionView::Nothing)
            },
            Screen::Equalizer => (self, UiActionView::NextEqPreset),
            Screen::NowPlaying => (self, UiActionView::Nothing),
        }
    }

    /// The state after deleting the selected queue entry: the selection
    /// stays within the queue, and a current position at or after the
    /// selection moves back by one.
    pub open spec fn delete_selected(self) -> AppView {
        let items = self.queue.items.remove(self.selected_index as int);
        let sel = if self.selected_index >= items.len() && items.len() > 0 {
            (items.len() - 1) as usize
        } else {
            self.selected_index
        };
        let pos = match self.queue.position {
            Some(p) => if sel <= p && p > 0 { Some((p - 1) as usize) } else { Some(p) },
            None => None,
        };
        AppView { queue: PlayQueueView { items, position: pos, ..self.queue }, selected_index: sel, ..self }
    }

    /// The state and action after a key press in normal mode.
    pub open spec fn normal_key(self, key: Key) -> (AppView, UiActionView) {
        match key {
            Key::Left => if self.view == Screen::Equalizer {
                (self, UiActionView::ShiftEqBand { band: if self.selected_index < 9 { self.selected_index } else { 9 }, up: false })
            } else {
                (self, UiActionView::SeekBy { seconds: -10i64 })
            },
            Key::Right => if self.view == Screen::Equalizer {
                (self, UiActionView::ShiftEqBand { band: if self.selected_index < 9 { self.selected_index } else { 9 }, up: true })
            } else {
                (self, UiActionView::SeekBy { seconds: 10i64 })
            },
            Key::Up => (self.select_prev(), UiActionView::Nothing),
            Key::Down => (self.select_next(), UiActionView::Nothing),
            Key::Enter => self.enter_key(),
            Key::Tab => (AppView { view: self.view.spec_cycle(), selected_index: 0, ..self }, UiActionView::Nothing),
            Key::Char(c) => if c == 'q' {
                (AppView { running: false, ..self }, UiActionView::Nothing)
            } else if c == ' ' {
                (self, UiActionView::TogglePlayback)
            } else if c == '/' {
                (
                    AppView {
                        input_mode: InputMode::Search,
                        search_query: Seq::empty(),
                        search_results: Seq::empty(),
                        view: Screen::Library,
                        ..self
                    },
                    UiActionView::Nothing,
                )
            } else if c == '+' || c == '=' {
                (self, UiActionView::VolumeUp)
            } else if c == '-' {
                (self, UiActionView::VolumeDown)
            } else if c == 'm' {
                (self, UiActionView::ToggleMute)
            } else if c == 'n' {
                match self.queue.next_position() {
                    Some(n) => (
                        AppView { queue: PlayQueueView { position: Some(n), ..self.queue }, ..self },
                        play_if_found(self.library.items, self.queue.items[n as int]),
                    ),
                    None => (self, UiActionView::Nothing),
                }
            } else if c == 'p' {
                match self.queue.prev_position() {
                    Some(n) => (
                        AppView { queue: PlayQueueView { position: Some(n), ..self.queue }, ..self },
                        play_if_found(self.library.items, self.queue.items[n as int]),
                    ),
                    None => (self, UiActionView::Nothing),
                }
            } else if c == 'r' {
                (AppView { queue: PlayQueueView { repeat_mode: self.queue.repeat_mode.spec_cycle(), ..self.queue }, ..self }, UiActionView::Nothing)
            } else if c == 's' {
                (AppView { queue: PlayQueueView { shuffle: !self.queue.shuffle, ..self.queue }, ..self }, UiActionView::Nothing)
            } else if c == 'e' {
                if self.view == Screen::Equalizer {
                    (self, UiActionView::ToggleEq)
                } else {
                    (AppView { view: Screen::Equalizer, selected_index: 0, ..self }, UiActionView::Nothing)
                }
            } else if c == 'N' {
                (self, UiActionView::ToggleNormalize)
            } else if c == 'a' {
                if self.view == Screen::Library {
                    match self.selected_library_index() {
                        Some(idx) => (AppView { queue: enqueued(self.queue, self.library.items[idx as int].id), ..self }, UiActionView::Nothing),
                        None => (self, UiActionView::Nothing),
                    }
                } else {
                    (self, UiActionView::Nothing)
                }
            } else if c == 'd' {
                if self.view == Screen::Queue && self.selected_index < self.queue.items.len() {
                    (self.delete_selected(), UiActionView::Nothing)
                } else {
                    (self, UiActionView::Nothing)
                }
            } else if c == 'c' {
                if self.view == Screen::Queue {
                    (
                        AppView { queue: PlayQueueView { items: Seq::empty(), position: None, ..self.queue }, selected_index: 0, ..self },
                        UiActionView::Nothing,
                    )
                } else {
                    (self, UiActionView::Nothing)
                }
            } else {
                (self, UiActionView::Nothing)
            },
            _ => (self, UiActionView::Nothing),
        }
    }

    /// The state after a key press in search mode: typing edits the query
    /// and recomputes the results with the selection at the top; Escape
    /// leaves the search and clears it; Enter leaves it and keeps it.
    pub open spec fn search_key(self, key: Key) -> AppView {
        match key {
            Key::Esc => AppView {
                input_mode: InputMode::Normal,
                search_query: Seq::empty(),
                search_results: Seq::empty(),
                selected_index: 0,
                ..self
            },
            Key::Enter => AppView { input_mode: InputMode::Normal, ..self },
            Key::Backspace => AppView {
                selected_index: 0,
                ..AppView {
                    search_query: if self.search_query.len() > 0 { self.search_query.drop_last() } else { self.search_query },
                    ..self
                }.update_search()
            },
            Key::Char(c) => AppView {
                selected_index: 0,
                ..AppView { search_query: self.search_query.push(c), ..self }.update_search()
            },
            Key::Up => self.select_prev(),
            Key::Down => self.select_next(),
            _ => self,
        }
    }
}

/// The results of a search are indices of the listed items.
proof fn lemma_matching_in_range(items: Seq<MediaItemView>, q: Seq<char>)
    ensures
        forall|k: int| 0 <= k < matching_indices(items, q).len() ==> #[trigger] matching_indices(items, q)[k] < items.len(),
{
    let idx = Seq::new(items.len(), |i: int| i as usize);
    let f = |i: usize| listing_match(items[i as int], q);
    crate::seqs::lemma_keep_members(idx, f);
    assert forall|k: int| 0 <= k < matching_indices(items, q).len() implies #[trigger] matching_indices(items, q)[k] < items.len() by {
        let j = choose|j: int| 0 <= j < idx.len() && idx[j] == keep(idx, f)[k];
        assert(idx[j] == j as usize);
    }
}

impl App {
    /// A fresh interface on a library: library view, nothing selected or
    /// searched, normal mode, running, with an empty queue.
    pub fn new(library: Library) -> (app: App)
        ensures
            app@ == (AppView {
                library: library@,
                queue: PlayQueueView { items: Seq::empty(), position: None, repeat_mode: crate::queue::RepeatMode::Off, shuffle: false },
                view: Screen::Library,
                selected_index: 0,
                search_query: Seq::empty(),
                search_results: Seq::empty(),
                input_mode: InputMode::Normal,
                running: true,
            }),
            app@.wf(),
    {
        let app = App {
            library,
            queue: PlayQueue::new(),
            view: Screen::Library,
            selected_index: 0,
            search_query: String::new(),
            search_results: Vec::new(),
            input_mode: InputMode::Normal,
            running: true,
        };
        assert(app.search_results@ =~= Seq::<usize>::empty());
        app
    }

    /// Number of entries in the active view's list.
    pub fn list_len(&self) -> (n: usize)
        ensures
            n == self@.list_len(),
    {
        match self.view {
            Screen::Library => {
                if self.input_mode == InputMode::Search || !self.search_query.as_str().is_empty() {
                    self.search_results.len()
                } else {
                    self.library.items.len()
                }
            },
            Screen::Queue => self.queue.len(),
            Screen::NowPlaying => 0,
            Screen::Equalizer => 10,
        }
    }

    /// Moves the selection up.
    pub fn select_prev(&mut self)
        ensures
            final(self)@ == old(self)@.select_prev(),
    {
        if self.selected_index > 0 {
            self.selected_index = self.selected_index - 1;
        }
    }

    /// Moves the selection down, within the list.
    pub fn select_next(&mut self)
        ensures
            final(self)@ == old(self)@.select_next(),
    {
        let len = self.list_len();
        if len > 0 && self.selected_index < len - 1 {
            self.selected_index = self.selected_index + 1;
        }
    }

    /// Recomputes the search results from the query.
    pub fn update_search(&mut self)
        ensures
            final(self)@ == old(self)@.update_search(),
            forall|k: int| 0 <= k < final(self)@.search_results.len() ==>
                #[trigger] final(self)@.search_results[k] < final(self)@.library.items.len(),
    {
        if self.search_query.as_str().is_empty() {
            self.search_results.clear();
            assert(self.search_results@ =~= Seq::<usize>::empty());
            return;
        }
        let results = find_matching(&self.library.items, self.search_query.as_str());
        proof {
            lemma_matching_in_range(self@.library.items, spec_lowercase(self@.search_query));
        }
        self.search_results = results;
        if self.selected_index >= self.search_results.len() && self.search_results.len() > 0 {
            self.selected_index = self.search_results.len() - 1;
        }
    }

    /// The library index of the selected entry.
    pub fn selected_library_index(&self) -> (res: Option<usize>)
        ensures
            res == self@.selected_library_index(),
    {
        if self.view != Screen::Library {
            return None;
        }
        if !self.search_query.as_str().is_empty() {
            if self.selected_index < self.search_results.len() {
                Some(self.search_results[self.selected_index])
            } else {
                None
            }
        } else if self.selected_index < self.library.items.len() {
            Some(self.selected_index)
        } else {
            None
        }
    }
}


/// The play action for the item with `id`, if the library has it.
fn play_action(library: &Library, id: u128) -> (res: UiAction)
    ensures
        res@ == play_if_found(library@.items, id),
{
    match library.find_by_id(id) {
        Some(it) => UiAction::Play { item_id: id, path: copy_string(&it.path) },
        None => UiAction::Nothing,
    }
}

/// Handles a key press in normal mode: updates the interface state and
/// returns what the audio engine is to do.
pub fn handle_normal_input(app: &mut App, key: Key) -> (action: UiAction)
    requires
        old(app)@.key_ok(key),
    ensures
        (final(app)@, action@) == old(app)@.normal_key(key),
        old(app)@.wf() ==> final(app)@.wf(),
{
    match key {
        Key::Left | Key::Right => {
            let up = key == Key::Right;
            if app.view == Screen::Equalizer {
                let band = if app.selected_index < 9 { app.selected_index } else { 9 };
                UiAction::ShiftEqBand { band, up }
            } else if up {
                UiAction::SeekBy { seconds: 10 }
            } else {
                UiAction::SeekBy { seconds: -10 }
            }
        },
        Key::Up => {
            app.select_prev();
            UiAction::Nothing
        },
        Key::Down => {
            app.select_next();
            UiAction::Nothing
        },
        Key::Enter => enter_key(app),
        Key::Tab => {
            app.view = app.view.cycle();
            app.selected_index = 0;
            UiAction::Nothing
        },
        Key::Char(c) => char_key(app, c),
        _ => UiAction::Nothing,
    }
}

fn enter_key(app: &mut App) -> (action: UiAction)
    requires
        old(app)@.key_ok(Key::Enter),
    ensures
        (final(app)@, action@) == old(app)@.enter_key(),
        old(app)@.wf() ==> final(app)@.wf(),
{
    match app.view {
        Screen::Library => match app.selected_library_index() {
            Some(idx) => {
                let id = app.library.items[idx].id;
                let path = copy_string(&app.library.items[idx].path);
                if app.queue.is_empty() {
                    app.queue.enqueue(id);
                }
                UiAction::Play { item_id: id, path }
            },
            None => UiAction::Nothing,
        },
        Screen::Queue => {
            if app.selected_index < app.queue.len() {
                app.queue.position = Some(app.selected_index);
                match app.queue.current() {
                    Some(id) => play_action(&app.library, id),
                    None => UiAction::Nothing,
                }
            } else {
                UiAction::Nothing
            }
        },
        Screen::Equalizer => UiAction::NextEqPreset,
        Screen::NowPlaying => UiAction::Nothing,
    }
}

fn char_key(app: &mut App, c: char) -> (action: UiAction)
    requires
        old(app)@.key_ok(Key::Char(c)),
    ensures
        (final(app)@, action@) == old(app)@.normal_key(Key::Char(c)),
        old(app)@.wf() ==> final(app)@.wf(),
{
    if c == 'q' {
        app.running = false;
        UiAction::Nothing
    } else if c == ' ' {
        UiAction::TogglePlayback
    } else if c == '/' {
        app.input_mode = InputMode::Search;
        app.search_query = String::new();
        app.search_results = Vec::new();
        app.view = Screen::Library;
        assert(app.search_results@ =~= Seq::<usize>::empty());
        UiAction::Nothing
    } else if c == '+' || c == '=' {
        UiAction::VolumeUp
    } else if c == '-' {
        UiAction::VolumeDown
    } else if c == 'm' {
        UiAction::ToggleMute
    } else if c == 'n' {
        match app.queue.advance() {
            Some(next) => play_action(&app.library, next),
            None => UiAction::Nothing,
        }
    } else if c == 'p' {
        match app.queue.go_back() {
            Some(prev) => play_action(&app.library, prev),
            None => UiAction::Nothing,
        }
    } else if c == 'r' {
        app.queue.repeat_mode = app.queue.repeat_mode.cycle();
        UiAction::Nothing
    } else if c == 's' {
        app.queue.shuffle = !app.queue.shuffle;
        UiAction::Nothing
    } else if c == 'e' {
        if app.view == Screen::Equalizer {
            UiAction::ToggleEq
        } else {
            app.view = Screen::Equalizer;
            app.selected_index = 0;
            UiAction::Nothing
        }
    } else if c == 'N' {
        UiAction::ToggleNormalize
    } else if c == 'a' {
        if app.view == Screen::Library {
            match app.selected_library_index() {
                Some(idx) => {
                    let id = app.library.items[idx].id;
                    app.queue.enqueue(id);
                },
                None => {},
            }
        }
        UiAction::Nothing
    } else if c == 'd' {
        if app.view == Screen::Queue && app.selected_index < app.queue.len() {
            app.queue.items.remove(app.selected_index);
            if app.selected_index >= app.queue.len() && !app.queue.is_empty() {
                app.selected_index = app.queue.len() - 1;
            }
            match app.queue.position {
                Some(pos) => {
                    if app.selected_index <= pos && pos > 0 {
                        app.queue.position = Some(pos - 1);
                    }
                },
                None => {},
            }
        }
        UiAction::Nothing
    } else if c == 'c' {
        if app.view == Screen::Queue {
            app.queue.clear();
            app.selected_index = 0;
        }
        UiAction::Nothing
    } else {
        UiAction::Nothing
    }
}

/// Handles a key press while a search is typed.
pub fn handle_search_input(app: &mut App, key: Key)
    ensures
        final(app)@ == old(app)@.search_key(key),
        old(app)@.wf() ==> final(app)@.wf(),
{
    match key {
        Key::Esc => {
            app.input_mode = InputMode::Normal;
            app.search_query = String::new();
            app.search_results = Vec::new();
            app.selected_index = 0;
            assert(app.search_results@ =~= Seq::<usize>::empty());
        },
        Key::Enter => {
            app.input_mode = InputMode::Normal;
        },
        Key::Backspace => {
            let mut cs = char_vec(app.search_query.as_str());
            if cs.len() > 0 {
                cs.pop();
            }
            app.search_query = string_from_chars(cs.as_slice());
            app.update_search();
            app.selected_index = 0;
        },
        Key::Char(c) => {
            push_char(&mut app.search_query, c);
            app.update_search();
            app.selected_index = 0;
        },
        Key::Up => app.select_prev(),
        Key::Down => app.select_next(),
        _ => {},
    }
}


/// The queue and action after skipping forward: the queue advances and
/// the new current item plays if the library has it.
pub open spec fn skipped_forward(q: PlayQueueView, items: Seq<MediaItemView>) -> (PlayQueueView, UiActionView) {
    match q.next_position() {
        Some(n) => (PlayQueueView { position: Some(n), ..q }, play_if_found(items, q.items[n as int])),
        None => (q, UiActionView::Nothing),
    }
}

/// The queue and action after skipping back.
pub open spec fn skipped_back(q: PlayQueueView, items: Seq<MediaItemView>) -> (PlayQueueView, UiActionView) {
    match q.prev_position() {
        Some(n) => (PlayQueueView { position: Some(n), ..q }, play_if_found(items, q.items[n as int])),
        None => (q, UiActionView::Nothing),
    }
}

/// Skips to the next queue entry (also when a track finishes, and on a
/// media key): the queue advances and the new item is to play.
pub fn skip_forward(queue: &mut PlayQueue, library: &Library) -> (action: UiAction)
    ensures
        (final(queue)@, action@) == skipped_forward(old(queue)@, library@.items),
{
    match queue.advance() {
        Some(next) => play_action(library, next),
        None => UiAction::Nothing,
    }
}

/// Skips to the previous queue entry.
pub fn skip_back(queue: &mut PlayQueue, library: &Library) -> (action: UiAction)
    requires
        match old(queue)@.position {
            Some(p) => p <= old(queue)@.items.len(),
            None => true,
        },
    ensures
        (final(queue)@, action@) == skipped_back(old(queue)@, library@.items),
{
    match queue.go_back() {
        Some(prev) => play_action(library, prev),
        None => UiAction::Nothing,
    }
}

/// The decoder moved on to the next track by itself: the queue follows,
/// and the item now playing is returned (`None`: the queue had no next
/// entry and is unchanged).
pub fn on_track_changed(queue: &mut PlayQueue) -> (now_playing: Option<u128>)
    ensures
        match old(queue)@.next_position() {
            Some(n) => final(queue)@ == (PlayQueueView { position: Some(n), ..old(queue)@ })
                && now_playing == Some(old(queue)@.items[n as int]),
            None => final(queue)@ == old(queue)@ && now_playing is None,
        },
{
    match queue.advance() {
        Some(_) => queue.current(),
        None => None,
    }
}

/// The path of the entry after the current one, to prepare for gapless
/// playback, if the library has that item.
pub fn next_to_prepare(queue: &PlayQueue, library: &Library) -> (res: Option<String>)
    requires
        match queue@.position {
            Some(p) => p < usize::MAX,
            None => true,
        },
    ensures
        crate::text::opt_seq(res) == match queue@.position {
            Some(p) => if p + 1 < queue@.items.len() {
                match lookup_item(library@.items, queue@.items[p + 1]) {
                    Some(it) => Some(it.path),
                    None => None,
                }
            } else {
                None
            },
            None => None,
        },
{
    match queue.position {
        Some(p) => {
            let next = p + 1;
            if next < queue.items.len() {
                match library.find_by_id(queue.items[next]) {
                    Some(it) => Some(copy_string(&it.path)),
                    None => None,
                }
            } else {
                None
            }
        },
        None => None,
    }
}

/// Enter in the queue view plays the selected entry: the queue moves to
/// the selected position, and the item of that entry plays when the library
/// has it (with its own path); nothing else of the state changes.
pub proof fn lemma_enter_in_queue(a: AppView)
    requires
        a.view == Screen::Queue,
        a.selected_index < a.queue.items.len(),
    ensures
        ({
            let (b, act) = a.normal_key(Key::Enter);
            let id = a.queue.items[a.selected_index as int];
            &&& b == (AppView { queue: PlayQueueView { position: Some(a.selected_index), ..a.queue }, ..a })
            &&& b.queue.position == Some(a.selected_index)
            &&& match lookup_item(a.library.items, id) {
                Some(it) => act == UiActionView::Play { item_id: id, path: it.path },
                None => act == UiActionView::Nothing,
            }
        }),
{
}

/// Enter in the library view plays the selected library item with its
/// path; an empty queue gets that item as its only entry (current when the
/// queue had no position), a non-empty queue is left as it is.
pub proof fn lemma_enter_in_library(a: AppView)
    requires
        a.view == Screen::Library,
        a.search_query.len() == 0,
        a.selected_index < a.library.items.len(),
    ensures
        ({
            let (b, act) = a.normal_key(Key::Enter);
            let it = a.library.items[a.selected_index as int];
            &&& act == UiActionView::Play { item_id: it.id, path: it.path }
            &&& a.queue.items.len() == 0 ==> b.queue.items == seq![it.id]
                && b.queue.position == (if a.queue.position is None { Some(0usize) } else { a.queue.position })
            &&& a.queue.items.len() > 0 ==> b.queue == a.queue
            &&& b.view == a.view && b.selected_index == a.selected_index && b.library == a.library
        }),
{
    let (b, act) = a.normal_key(Key::Enter);
    if a.queue.items.len() == 0 {
        assert(b.queue.items =~= seq![a.library.items[a.selected_index as int].id]);
    }
}

/// The queue keys of normal mode. 'n' moves to the next queue entry (from
/// the last one back to the first only under repeat-all) and plays its
/// item; 'p' moves to the entry before the current one and plays its item;
/// without a current entry neither moves. 'a' in the library appends the
/// selected library item to the queue. 'd' in the queue removes the
/// selected entry. 'c' in the queue empties it.
pub proof fn lemma_queue_keys(a: AppView)
    requires
        a.queue.items.len() <= usize::MAX,
    ensures
        ({
            let (b, act) = a.normal_key(Key::Char('n'));
            match a.queue.position {
                Some(p) => if p + 1 < a.queue.items.len() {
                    &&& b == (AppView { queue: PlayQueueView { position: Some((p + 1) as usize), ..a.queue }, ..a })
                    &&& act == match lookup_item(a.library.items, a.queue.items[p + 1]) {
                        Some(it) => UiActionView::Play { item_id: a.queue.items[p + 1], path: it.path },
                        None => UiActionView::Nothing,
                    }
                } else if a.queue.repeat_mode == crate::queue::RepeatMode::All && a.queue.items.len() > 0 {
                    b.queue.position == Some(0usize) && b.queue.items == a.queue.items
                } else {
                    b == a && act == UiActionView::Nothing
                },
                None => b == a && act == UiActionView::Nothing,
            }
        }),
        ({
            let (b, act) = a.normal_key(Key::Char('p'));
            match a.queue.position {
                Some(p) => p > 0 ==> {
                    &&& b == (AppView { queue: PlayQueueView { position: Some((p - 1) as usize), ..a.queue }, ..a })
                    &&& act == match lookup_item(a.library.items, a.queue.items[p - 1]) {
                        Some(it) => UiActionView::Play { item_id: a.queue.items[p - 1], path: it.path },
                        None => UiActionView::Nothing,
                    }
                },
                None => b == a && act == UiActionView::Nothing,
            }
        }),
        a.view == Screen::Library && a.search_query.len() == 0 && a.selected_index < a.library.items.len() ==> {
            let (b, act) = a.normal_key(Key::Char('a'));
            &&& b.queue.items == a.queue.items.push(a.library.items[a.selected_index as int].id)
            &&& act == UiActionView::Nothing
        },
        a.view == Screen::Queue && a.selected_index < a.queue.items.len() ==> {
            let (b, act) = a.normal_key(Key::Char('d'));
            &&& b.queue.items.len() == a.queue.items.len() - 1
            &&& forall|k: int| 0 <= k < b.queue.items.len() ==> #[trigger] b.queue.items[k]
                == if k < a.selected_index { a.queue.items[k] } else { a.queue.items[k + 1] }
            &&& act == UiActionView::Nothing
        },
        a.view == Screen::Queue ==> {
            let (b, act) = a.normal_key(Key::Char('c'));
            &&& b.queue.items.len() == 0 && b.queue.position is None && b.selected_index == 0
            &&& act == UiActionView::Nothing
        },
{
}

/// The other keys of normal mode: space toggles playback, 'q' quits, '/'
/// enters search mode in the library view with an empty query, Tab moves
/// to the next view at its top, and the arrows keep the selection within
/// the list.
pub proof fn lemma_other_keys(a: AppView)
    requires
        a.queue.items.len() <= usize::MAX,
        a.library.items.len() <= usize::MAX,
        a.search_results.len() <= usize::MAX,
    ensures
        a.normal_key(Key::Char(' ')) == (a, UiActionView::TogglePlayback),
        a.normal_key(Key::Char('q')) == (AppView { running: false, ..a }, UiActionView::Nothing),
        ({
            let (b, act) = a.normal_key(Key::Char('/'));
            &&& b.input_mode == InputMode::Search && b.view == Screen::Library
            &&& b.search_query.len() == 0 && b.search_results.len() == 0
            &&& b.queue == a.queue && b.library == a.library
            &&& act == UiActionView::Nothing
        }),
        a.normal_key(Key::Tab).0.selected_index == 0 && a.normal_key(Key::Tab).0.view != a.view,
        a.selected_index > 0 ==> a.normal_key(Key::Up).0.selected_index == a.selected_index - 1,
        a.selected_index + 1 < a.list_len() ==> a.normal_key(Key::Down).0.selected_index == a.selected_index + 1,
        a.selected_index + 1 >= a.list_len() ==> a.normal_key(Key::Down).0.selected_index == a.selected_index,
{
    lemma_view_cycle_period(a.view);
}

} // verus!
