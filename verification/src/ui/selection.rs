//! Which item of a list is selected.

use vstd::prelude::*;

verus! {

/// The selected position in a list, if one is selected.
///
/// Moving the selection does not look at the length of the list: a position
/// past the end stays until the list is drawn, and drawing puts it back on
/// the last item.
#[derive(Clone, Copy, Debug, PartialEq, Eq, Structural)]
pub struct Selection {
    pub selected: Option<usize>,
}

/// The position after `selected`: the first where none is selected.
pub open spec fn next_of(selected: Option<usize>) -> Option<usize> {
    match selected {
        None => Some(0usize),
        Some(i) => if i == usize::MAX {
            Some(i)
        } else {
            Some((i + 1) as usize)
        },
    }
}

/// The position before `selected`: the last that can be told where none is
/// selected.
pub open spec fn previous_of(selected: Option<usize>) -> Option<usize> {
    match selected {
        None => Some(usize::MAX),
        Some(i) => if i == 0 {
            Some(i)
        } else {
            Some((i - 1) as usize)
        },
    }
}

/// What drawing a list of `len` items makes of `selected`: nothing where the
/// list is empty, the last item where the position is past the end.
pub open spec fn drawn_of(selected: Option<usize>, len: nat) -> Option<usize> {
    match selected {
        None => None,
        Some(i) => if len == 0 {
            None
        } else if i >= len {
            Some((len - 1) as usize)
        } else {
            Some(i)
        },
    }
}

impl Selection {
    /// Nothing selected.
    pub fn new() -> (r: Self)
        ensures
            r.selected is None,
    {
        Selection { selected: None }
    }

    /// The selected position.
    pub fn selected(&self) -> (r: Option<usize>)
        ensures
            r == self.selected,
    {
        self.selected
    }

    /// Selects the next position.
    pub fn select_next(&mut self)
        ensures
            final(self).selected == next_of(old(self).selected),
    {
        self.selected = match self.selected {
            None => Some(0),
            Some(i) => if i == usize::MAX {
                Some(i)
            } else {
                Some(i + 1)
            },
        };
    }

    /// Selects the position before.
    pub fn select_previous(&mut self)
        ensures
            final(self).selected == previous_of(old(self).selected),
    {
        self.selected = match self.selected {
            None => Some(usize::MAX),
            Some(i) => if i == 0 {
                Some(i)
            } else {
                Some(i - 1)
            },
        };
    }

    /// Takes note that a list of `len` items was drawn.
    pub fn drawn(&mut self, len: usize)
        ensures
            final(self).selected == drawn_of(old(self).selected, len as nat),
    {
        self.selected = match self.selected {
            None => None,
            Some(i) => if len == 0 {
                None
            } else if i >= len {
                Some(len - 1)
            } else {
                Some(i)
            },
        };
    }

    /// The selected position, where it is one of a list of `len` items.
    pub fn within(&self, len: usize) -> (r: Option<usize>)
        ensures
            r == match self.selected {
                Some(i) => if i < len {
                    Some(i)
                } else {
                    None
                },
                None => None,
            },
    {
        match self.selected {
            Some(i) => if i < len {
                Some(i)
            } else {
                None
            },
            None => None,
        }
    }
}

} // verus!
