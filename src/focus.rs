use vstd::prelude::*;

verus! {

/// A persistent scroll offset, in rows (or columns for horizontal scrolling).
#[derive(Clone, Copy, Debug, PartialEq, Eq, Structural)]
pub struct ScrollState {
    pub scroll: u16,
}

/// `v` clamped into the range of a scroll offset.
pub open spec fn clamp_offset(v: int) -> int {
    if v < 0 {
        0
    } else if v > u16::MAX {
        u16::MAX as int
    } else {
        v
    }
}

impl ScrollState {
    pub fn default() -> (r: ScrollState)
        ensures
            r.scroll == 0,
    {
        ScrollState { scroll: 0 }
    }

    pub fn get(&self) -> (r: u16)
        ensures
            r == self.scroll,
    {
        self.scroll
    }

    pub fn set(&mut self, s: u16)
        ensures
            final(self).scroll == s,
    {
        self.scroll = s;
    }

    /// Moves the offset by `delta`, stopping at zero and at the largest offset.
    pub fn delta(&mut self, delta: i16)
        ensures
            final(self).scroll == clamp_offset(old(self).scroll + delta),
    {
        let v: i32 = self.scroll as i32 + delta as i32;
        self.scroll = if v < 0 {
            0
        } else if v > 65535 {
            65535
        } else {
            v as u16
        };
    }
}

/// The selected row of a list of `limit` rows, if any.
#[derive(Clone, Copy, Debug, PartialEq, Eq, Structural)]
pub struct FocusState {
    pub focus: Option<usize>,
    pub limit: usize,
}

/// `focus` brought inside a list of `limit` rows: past the end it moves to the
/// last row, or to none when the list is empty.
pub open spec fn clamp_focus(focus: Option<usize>, limit: usize) -> Option<usize> {
    match focus {
        Some(f) => if f >= limit {
            if limit == 0 {
                None
            } else {
                Some((limit - 1) as usize)
            }
        } else {
            Some(f)
        },
        None => None,
    }
}

impl FocusState {
    /// The selection is inside the list.
    pub open spec fn wf(&self) -> bool {
        match self.focus {
            Some(f) => f < self.limit,
            None => true,
        }
    }

    pub fn default() -> (r: FocusState)
        ensures
            r.focus.is_none(),
            r.limit == 0,
            r.wf(),
    {
        FocusState { focus: None, limit: 0 }
    }

    fn normalize(&mut self)
        ensures
            final(self).limit == old(self).limit,
            final(self).focus == clamp_focus(old(self).focus, old(self).limit),
            final(self).wf(),
    {
        if let Some(f) = self.focus {
            if f >= self.limit {
                if self.limit == 0 {
                    self.focus = None;
                } else {
                    self.focus = Some(self.limit - 1);
                }
            }
        }
    }

    /// Selects `focus`, brought inside the list.
    pub fn set(&mut self, focus: Option<usize>)
        ensures
            final(self).limit == old(self).limit,
            final(self).focus == clamp_focus(focus, old(self).limit),
            final(self).wf(),
    {
        self.focus = focus;
        self.normalize();
    }

    pub fn get(&self) -> (r: Option<usize>)
        ensures
            r == self.focus,
    {
        self.focus
    }

    /// Resizes the list to `limit` rows and brings the selection inside it.
    pub fn set_limit(&mut self, limit: usize)
        ensures
            final(self).limit == limit,
            final(self).focus == clamp_focus(old(self).focus, limit),
            final(self).wf(),
    {
        self.limit = limit;
        self.normalize();
    }

    /// Selects the next row, or the first when nothing is selected.
    pub fn next(&mut self)
        ensures
            final(self).limit == old(self).limit,
            final(self).wf(),
            final(self).focus == clamp_focus(
                match old(self).focus {
                    Some(f) => Some(if f == usize::MAX { f } else { (f + 1) as usize }),
                    None => Some(0usize),
                },
                old(self).limit,
            ),
    {
        match self.focus {
            Some(f) => self.set(Some(f.saturating_add(1))),
            None => self.set(Some(0)),
        }
    }

    /// Selects the previous row; stays on the first row, and on no selection.
    pub fn prev(&mut self)
        ensures
            final(self).limit == old(self).limit,
            final(self).focus == match old(self).focus {
                Some(f) => if f > 0 {
                    clamp_focus(Some((f - 1) as usize), old(self).limit)
                } else {
                    Some(f)
                },
                None => None,
            },
            old(self).wf() ==> final(self).wf(),
    {
        match self.focus {
            Some(f) => {
                if f > 0 {
                    self.set(Some(f - 1));
                }
            },
            None => {},
        }
    }
}

/// Resizing a list never leaves the selection at or past its end, and an empty
/// list has no selection.
pub proof fn lemma_set_limit_bounds(before: FocusState, limit: usize)
    ensures
        ({
            let f = clamp_focus(before.focus, limit);
            &&& match f {
                Some(i) => i < limit,
                None => true,
            }
            &&& limit == 0 ==> f.is_none()
        }),
{
}

} // verus!
