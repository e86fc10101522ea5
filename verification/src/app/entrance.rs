use vstd::prelude::*;

verus! {

/// The entrance screen, which holds the focus from the start.
pub struct Entrance {
    is_focused: bool,
}

impl Entrance {
    pub closed spec fn spec_is_focused(&self) -> bool {
        self.is_focused
    }

    /// An entrance that holds the focus.
    pub fn new() -> (r: Self)
        ensures
            r.spec_is_focused(),
    {
        Self { is_focused: true }
    }

    pub fn is_focused(&self) -> (r: bool)
        ensures
            r == self.spec_is_focused(),
    {
        self.is_focused
    }

    pub fn set_focus(&mut self, value: bool)
        ensures
            final(self).spec_is_focused() == value,
    {
        self.is_focused = value;
    }
}

} // verus!
