//! The play queue: item ids with a current position and a repeat mode.

use vstd::prelude::*;

verus! {

/// Repeat mode for the play queue.
#[derive(Debug, Clone, Copy, PartialEq, Eq, Structural)]
pub enum RepeatMode {
    Off,
    One,
    All,
}

impl RepeatMode {
    pub open spec fn spec_cycle(self) -> RepeatMode {
        match self {
            RepeatMode::Off => RepeatMode::One,
            RepeatMode::One => RepeatMode::All,
            RepeatMode::All => RepeatMode::Off,
        }
    }

    /// The next mode: Off → One → All → Off.
    pub fn cycle(self) -> (res: RepeatMode)
        ensures
            res == self.spec_cycle(),
    {
        match self {
            RepeatMode::Off => RepeatMode::One,
            RepeatMode::One => RepeatMode::All,
            RepeatMode::All => RepeatMode::Off,
        }
    }

    pub open spec fn spec_text(self) -> Seq<char> {
        match self {
            RepeatMode::Off => "off"@,
            RepeatMode::One => "one"@,
            RepeatMode::All => "all"@,
        }
    }

    /// The display name: "off", "one" or "all".
    pub fn to_string(&self) -> (res: String)
        ensures
            res@ == self.spec_text(),
    {
        match self {
            RepeatMode::Off => String::from_str("off"),
            RepeatMode::One => String::from_str("one"),
            RepeatMode::All => String::from_str("all"),
        }
    }
}

/// Cycling the repeat mode three times gives the mode back.
pub proof fn lemma_repeat_cycle_period(m: RepeatMode)
    ensures
        m.spec_cycle().spec_cycle().spec_cycle() == m,
        m.spec_cycle() != m,
{
}

/// Play queue with current position.
#[derive(Debug, Clone)]
pub struct PlayQueue {
    pub items: Vec<u128>,
    pub position: Option<usize>,
    pub repeat_mode: RepeatMode,
    pub shuffle: bool,
}

/// The abstract value of a [`PlayQueue`].
pub struct PlayQueueView {
    pub items: Seq<u128>,
    pub position: Option<usize>,
    pub repeat_mode: RepeatMode,
    pub shuffle: bool,
}

impl View for PlayQueue {
    type V = PlayQueueView;

    open spec fn view(&self) -> PlayQueueView {
        PlayQueueView {
            items: self.items@,
            position: self.position,
            repeat_mode: self.repeat_mode,
            shuffle: self.shuffle,
        }
    }
}

impl PlayQueueView {
    /// The item at the current position, if the position is set and valid.
    pub open spec fn current(self) -> Option<u128> {
        match self.position {
            Some(p) => if p < self.items.len() { Some(self.items[p as int]) } else { None },
            None => None,
        }
    }

    /// The position `advance` moves to (`None`: it does not move).
    pub open spec fn next_position(self) -> Option<usize> {
        match self.position {
            None => None,
            Some(p) => if p + 1 < self.items.len() {
                Some((p + 1) as usize)
            } else if self.repeat_mode == RepeatMode::All && self.items.len() > 0 {
                Some(0usize)
            } else {
                None
            },
        }
    }

    /// The position `go_back` moves to (`None`: it does not move).
    pub open spec fn prev_position(self) -> Option<usize> {
        match self.position {
            None => None,
            Some(p) => if p > 0 {
                Some((p - 1) as usize)
            } else if self.repeat_mode == RepeatMode::All && self.items.len() > 0 {
                Some((self.items.len() - 1) as usize)
            } else {
                None
            },
        }
    }
}

impl PlayQueue {
    /// An empty queue: no position, repeat off, shuffle off.
    pub fn new() -> (q: PlayQueue)
        ensures
            q@ == (PlayQueueView {
                items: Seq::empty(),
                position: None,
                repeat_mode: RepeatMode::Off,
                shuffle: false,
            }),
    {
        let q = PlayQueue { items: Vec::new(), position: None, repeat_mode: RepeatMode::Off, shuffle: false };
        assert(q.items@ =~= Seq::<u128>::empty());
        q
    }

    /// Appends an id; a queue without a position gets position 0.
    pub fn enqueue(&mut self, item_id: u128)
        ensures
            final(self)@ == (PlayQueueView {
                items: old(self)@.items.push(item_id),
                position: if old(self)@.position is None { Some(0usize) } else { old(self)@.position },
                ..old(self)@
            }),
    {
        self.items.push(item_id);
        if self.position.is_none() {
            self.position = Some(0);
        }
    }

    /// Appends several ids in order. A queue that was empty and had no
    /// position gets position 0 when something was added.
    pub fn enqueue_many(&mut self, ids: Vec<u128>)
        ensures
            final(self)@ == (PlayQueueView {
                items: old(self)@.items + ids@,
                position: if old(self)@.position is None && old(self)@.items.len() == 0 && ids@.len() > 0 {
                    Some(0usize)
                } else {
                    old(self)@.position
                },
                ..old(self)@
            }),
    {
        let was_empty = self.items.len() == 0;
        let mut i: usize = 0;
        while i < ids.len()
            invariant
                i <= ids.len(),
                self.items@ == old(self)@.items + ids@.take(i as int),
                self.position == old(self)@.position,
                self.repeat_mode == old(self)@.repeat_mode,
                self.shuffle == old(self)@.shuffle,
            decreases ids.len() - i,
        {
            self.items.push(ids[i]);
            i = i + 1;
            assert(self.items@ =~= old(self)@.items + ids@.take(i as int));
        }
        assert(ids@.take(ids.len() as int) =~= ids@);
        if self.position.is_none() && was_empty && self.items.len() > 0 {
            self.position = Some(0);
        }
    }

    /// The item at the current position.
    pub fn current(&self) -> (res: Option<u128>)
        ensures
            res == self@.current(),
    {
        match self.position {
            Some(p) => if p < self.items.len() { Some(self.items[p]) } else { None },
            None => None,
        }
    }

    /// Moves to the next item (wrapping to the first under repeat-all) and
    /// returns it; without a next item nothing changes and `None` comes back.
    pub fn advance(&mut self) -> (res: Option<u128>)
        ensures
            match old(self)@.next_position() {
                Some(n) => final(self)@ == (PlayQueueView { position: Some(n), ..old(self)@ })
                    && res == Some(old(self)@.items[n as int]),
                None => final(self)@ == old(self)@ && res is None,
            },
    {
        let pos = match self.position {
            Some(p) => p,
            None => return None,
        };
        if self.items.len() > 0 && pos < self.items.len() - 1 {
            let next = pos + 1;
            self.position = Some(next);
            Some(self.items[next])
        } else if self.repeat_mode == RepeatMode::All && self.items.len() > 0 {
            self.position = Some(0);
            Some(self.items[0])
        } else {
            None
        }
    }

    /// Moves to the previous item (wrapping to the last under repeat-all)
    /// and returns it; without one nothing changes and `None` comes back.
    pub fn go_back(&mut self) -> (res: Option<u128>)
        requires
            match old(self)@.position {
                Some(p) => p > 0 ==> p - 1 < old(self)@.items.len(),
                None => true,
            },
        ensures
            match old(self)@.prev_position() {
                Some(n) => final(self)@ == (PlayQueueView { position: Some(n), ..old(self)@ })
                    && res == Some(old(self)@.items[n as int]),
                None => final(self)@ == old(self)@ && res is None,
            },
    {
        let pos = match self.position {
            Some(p) => p,
            None => return None,
        };
        if pos > 0 {
            self.position = Some(pos - 1);
            Some(self.items[pos - 1])
        } else if self.repeat_mode == RepeatMode::All && self.items.len() > 0 {
            let last = self.items.len() - 1;
            self.position = Some(last);
            Some(self.items[last])
        } else {
            None
        }
    }

    /// Removes all items and the position.
    pub fn clear(&mut self)
        ensures
            final(self)@ == (PlayQueueView { items: Seq::empty(), position: None, ..old(self)@ }),
    {
        self.items.clear();
        self.position = None;
    }

    pub fn len(&self) -> (n: usize)
        ensures
            n == self@.items.len(),
    {
        self.items.len()
    }

    pub fn is_empty(&self) -> (b: bool)
        ensures
            b == (self@.items.len() == 0),
    {
        self.items.len() == 0
    }
}

/// From a valid position, `go_back` undoes a successful `advance`: the queue
/// returns to the position it had.
pub proof fn lemma_go_back_undoes_advance(q: PlayQueueView)
    requires
        q.items.len() <= usize::MAX,
        q.position matches Some(p) && p < q.items.len(),
        q.next_position() is Some,
    ensures
        (PlayQueueView { position: q.next_position(), ..q }).prev_position() == q.position,
{
    let p = q.position->0;
    let moved = PlayQueueView { position: q.next_position(), ..q };
    if p + 1 < q.items.len() {
        assert(moved.position == Some((p + 1) as usize));
    } else {
        assert(moved.position == Some(0usize));
        assert(p == q.items.len() - 1);
    }
}

/// From a valid position, `advance` undoes a successful `go_back`.
pub proof fn lemma_advance_undoes_go_back(q: PlayQueueView)
    requires
        q.items.len() <= usize::MAX,
        q.position matches Some(p) && p < q.items.len(),
        q.prev_position() is Some,
    ensures
        (PlayQueueView { position: q.prev_position(), ..q }).next_position() == q.position,
{
    let p = q.position->0;
    let moved = PlayQueueView { position: q.prev_position(), ..q };
    if p > 0 {
        assert(moved.position == Some((p - 1) as usize));
    } else {
        assert(moved.position == Some((q.items.len() - 1) as usize));
    }
}

/// Moving keeps a valid position valid: the position `advance` or `go_back`
/// moves to always indexes an item.
pub proof fn lemma_moves_stay_in_range(q: PlayQueueView)
    requires
        q.items.len() <= usize::MAX,
    ensures
        q.next_position() matches Some(n) ==> n < q.items.len(),
        (q.position matches Some(p) && p < q.items.len()) ==>
            (q.prev_position() matches Some(n) ==> n < q.items.len()),
{
}

} // verus!
