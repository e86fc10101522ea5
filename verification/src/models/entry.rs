use vstd::prelude::*;

use crate::models::layout::Layout;
use crate::models::section::Section;

verus! {

/// A named entry: its sections, each with its id, and the layout that places them.
pub struct Entry {
    pub entry_name: String,
    pub sections: Vec<(i64, Section)>,
    pub layout: Layout,
}

impl Entry {
    /// Takes over the name of `other`; the sections and the layout stay.
    pub fn update_name(&mut self, other: &Entry)
        ensures
            final(self).entry_name@ == other.entry_name@,
            final(self).sections == old(self).sections,
            final(self).layout == old(self).layout,
    {
        if !(self.entry_name == other.entry_name) {
            self.entry_name = other.entry_name.clone();
        }
    }
}

/// A named collection of entries.
pub struct Glyph {
    pub glyph_name: String,
    pub entries: Vec<Entry>,
}

} // verus!
