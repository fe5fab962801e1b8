//! An ordered list of track paths with an optional cursor on the current one.
use vstd::prelude::*;

verus! {

/// Tracks in play order and the position of the current one.
pub struct Playlist {
    pub items: Vec<String>,
    pub current_index: Option<usize>,
}

/// Where the cursor lands once a track has been removed and `len` tracks are left:
/// it is pulled back onto the last track when it fell off the end, cleared when the
/// list is empty, and otherwise stays where it was.
pub open spec fn index_after_removal(current: Option<usize>, len: nat) -> Option<usize> {
    match current {
        Some(c) => if len == 0 {
            None
        } else if c >= len {
            Some((len - 1) as usize)
        } else {
            Some(c)
        },
        None => None,
    }
}

/// The cursor after a step forward: one further while that stays inside a list of
/// `len` tracks, else where it was.
pub open spec fn step_forward(current: Option<usize>, len: nat) -> Option<usize> {
    match current {
        Some(i) => if i + 1 < len {
            Some((i + 1) as usize)
        } else {
            current
        },
        None => None,
    }
}

/// The cursor after a step back: one back unless it is on the first track.
pub open spec fn step_back(current: Option<usize>) -> Option<usize> {
    match current {
        Some(i) => if i > 0 {
            Some((i - 1) as usize)
        } else {
            current
        },
        None => None,
    }
}

/// A step forward that moved is undone by a step back, and a step back that moved
/// inside the list is undone by a step forward.
pub proof fn lemma_steps_undo_each_other(current: Option<usize>, len: usize)
    ensures
        step_forward(current, len as nat) != current ==> step_back(
            step_forward(current, len as nat),
        ) == current,
        (current matches Some(i) && i < len && step_back(current) != current) ==> step_forward(
            step_back(current),
            len as nat,
        ) == current,
{
}

impl Playlist {
    /// The cursor points into the list, and it is set exactly when the list is not empty.
    pub open spec fn wf(&self) -> bool {
        match self.current_index {
            Some(i) => i < self.items@.len(),
            None => self.items@.len() == 0,
        }
    }

    /// The track under the cursor, if the cursor points into the list.
    pub open spec fn current(&self) -> Option<String> {
        match self.current_index {
            Some(i) => if i < self.items@.len() {
                Some(self.items@[i as int])
            } else {
                None
            },
            None => None,
        }
    }

    /// An empty list without a cursor.
    pub fn new() -> (r: Self)
        ensures
            r.items@ == Seq::<String>::empty(),
            r.current_index is None,
            r.wf(),
    {
        Playlist { items: Vec::new(), current_index: None }
    }

    /// Appends a track; the first track added to a list without a cursor becomes current.
    pub fn add(&mut self, path: String)
        ensures
            final(self).items@ == old(self).items@.push(path),
            final(self).current_index == (match old(self).current_index {
                Some(i) => Some(i),
                None => Some(0usize),
            }),
            old(self).wf() ==> final(self).wf(),
    {
        self.items.push(path);
        if self.current_index.is_none() {
            self.current_index = Some(0);
        }
    }

    /// The current track, if the cursor points into the list.
    pub fn get_current(&self) -> (r: Option<&String>)
        ensures
            match r {
                Some(s) => self.current() == Some(*s),
                None => self.current() is None,
            },
    {
        match self.current_index {
            Some(i) => if i < self.items.len() {
                Some(&self.items[i])
            } else {
                None
            },
            None => None,
        }
    }

    /// Moves the cursor one track forward and returns that track; at the last track,
    /// or without a cursor, nothing changes and `None` is returned.
    pub fn next(&mut self) -> (r: Option<String>)
        ensures
            final(self).items == old(self).items,
            final(self).current_index == step_forward(
                old(self).current_index,
                old(self).items@.len(),
            ),
            r == (if final(self).current_index == old(self).current_index {
                None
            } else {
                final(self).current()
            }),
            old(self).wf() ==> final(self).wf(),
    {
        if let Some(idx) = self.current_index {
            if idx < self.items.len() && idx + 1 < self.items.len() {
                self.current_index = Some(idx + 1);
                return Some(self.items[idx + 1].clone());
            }
        }
        None
    }

    /// Moves the cursor one track back and returns that track; at the first track,
    /// or without a cursor, nothing changes and `None` is returned.
    pub fn previous(&mut self) -> (r: Option<String>)
        ensures
            final(self).items == old(self).items,
            final(self).current_index == step_back(old(self).current_index),
            r == (if final(self).current_index == old(self).current_index {
                None
            } else {
                final(self).current()
            }),
            old(self).wf() ==> final(self).wf(),
    {
        if let Some(idx) = self.current_index {
            if idx > 0 {
                self.current_index = Some(idx - 1);
                if idx - 1 < self.items.len() {
                    return Some(self.items[idx - 1].clone());
                }
            }
        }
        None
    }

    /// Puts the cursor on `index` and returns that track; an index past the end
    /// changes nothing and gives `None`.
    pub fn select(&mut self, index: usize) -> (r: Option<String>)
        ensures
            final(self).items == old(self).items,
            index < old(self).items@.len() ==> final(self).current_index == Some(index) && r
                == Some(old(self).items@[index as int]),
            index >= old(self).items@.len() ==> final(self).current_index
                == old(self).current_index && r is None,
            old(self).wf() ==> final(self).wf(),
    {
        if index < self.items.len() {
            self.current_index = Some(index);
            return Some(self.items[index].clone());
        }
        None
    }

    /// Removes the track at `index` and keeps the cursor inside the shortened list;
    /// an index past the end changes nothing.
    pub fn remove(&mut self, index: usize)
        ensures
            index < old(self).items@.len() ==> {
                &&& final(self).items@ == old(self).items@.remove(index as int)
                &&& final(self).current_index == index_after_removal(
                    old(self).current_index,
                    final(self).items@.len(),
                )
            },
            index >= old(self).items@.len() ==> *final(self) == *old(self),
            old(self).wf() ==> final(self).wf(),
    {
        if index < self.items.len() {
            self.items.remove(index);
            if let Some(curr) = self.current_index {
                if curr >= self.items.len() && self.items.len() > 0 {
                    self.current_index = Some(self.items.len() - 1);
                } else if self.items.len() == 0 {
                    self.current_index = None;
                }
            }
        }
    }
}

} // verus!
