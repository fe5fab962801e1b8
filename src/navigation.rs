//! Moving the selection over a track list of a given length.
use vstd::prelude::*;

verus! {

/// The selection after the "down" key: one track further, counting from the first
/// track when nothing is selected, and unchanged at the end of the list.
pub open spec fn cursor_down_spec(selected: Option<usize>, len: nat) -> Option<usize> {
    let current = match selected {
        Some(i) => i as nat,
        None => 0,
    };
    if current + 1 < len {
        Some((current + 1) as usize)
    } else {
        selected
    }
}

/// The selection after the "up" key: one track back, counting from the first track
/// when nothing is selected, and unchanged at the start of the list.
pub open spec fn cursor_up_spec(selected: Option<usize>) -> Option<usize> {
    match selected {
        Some(i) => if i > 0 {
            Some((i - 1) as usize)
        } else {
            selected
        },
        None => None,
    }
}

pub fn cursor_down(selected: Option<usize>, len: usize) -> (r: Option<usize>)
    ensures
        r == cursor_down_spec(selected, len as nat),
{
    let current: usize = match selected {
        Some(i) => i,
        None => 0,
    };
    if current < len && current + 1 < len {
        Some(current + 1)
    } else {
        selected
    }
}

pub fn cursor_up(selected: Option<usize>) -> (r: Option<usize>)
    ensures
        r == cursor_up_spec(selected),
{
    match selected {
        Some(i) => if i > 0 {
            Some(i - 1)
        } else {
            selected
        },
        None => None,
    }
}

/// The track that playback moves on to after the selected one, if there is one.
pub fn track_after(selected: Option<usize>, len: usize) -> (r: Option<usize>)
    ensures
        r == (match selected {
            Some(i) => if i + 1 < len {
                Some((i + 1) as usize)
            } else {
                None
            },
            None => None,
        }),
{
    match selected {
        Some(i) => if i < len && i + 1 < len {
            Some(i + 1)
        } else {
            None
        },
        None => None,
    }
}

/// The track before the selected one, if there is one.
pub fn track_before(selected: Option<usize>) -> (r: Option<usize>)
    ensures
        r == (match selected {
            Some(i) => if i > 0 {
                Some((i - 1) as usize)
            } else {
                None
            },
            None => None,
        }),
{
    match selected {
        Some(i) => if i > 0 {
            Some(i - 1)
        } else {
            None
        },
        None => None,
    }
}

/// Moving the selection keeps it inside a non-empty list once it is there.
pub proof fn lemma_cursor_stays_in_list(selected: Option<usize>, len: nat)
    requires
        selected matches Some(i) ==> i < len,
    ensures
        cursor_down_spec(selected, len) matches Some(j) ==> j < len,
        cursor_up_spec(selected) matches Some(j) ==> j < len,
{
}

/// Going down and then up comes back to the track one started from, wherever
/// going down moved at all.
pub proof fn lemma_down_then_up(i: usize, len: usize)
    requires
        i + 1 < len,
    ensures
        cursor_up_spec(cursor_down_spec(Some(i), len as nat)) == Some(i),
{
}

} // verus!
