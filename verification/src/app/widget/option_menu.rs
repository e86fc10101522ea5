use vstd::prelude::*;

verus! {

/// A menu that shows one of its options at a time: each option has a label
/// and a value.
pub struct OptionMenuState {
    pub options: Vec<(String, u8)>,
    pub current_index: u8,
}

pub struct OptionMenu {
    pub state: OptionMenuState,
}

impl OptionMenu {
    /// A menu of `options` showing the one at `current_index`.
    pub fn new(options: Vec<(String, u8)>, current_index: u8) -> (r: Self)
        ensures
            r.state.options == options,
            r.state.current_index == current_index,
    {
        OptionMenu { state: OptionMenuState { options, current_index } }
    }

    /// Shows the option at `index`.
    pub fn replace(&mut self, index: u8)
        ensures
            final(self).state.current_index == index,
            final(self).state.options == old(self).state.options,
    {
        self.state.current_index = index;
    }

    /// Shows the next option, the first after the last one.
    pub fn handle(&mut self)
        requires
            0 < old(self).state.options@.len() <= 255,
            old(self).state.current_index < 255,
        ensures
            final(self).state.current_index == (old(self).state.current_index + 1) % (old(
                self,
            ).state.options@.len() as int),
            final(self).state.options == old(self).state.options,
    {
        let len: u8 = self.state.options.len() as u8;
        self.state.current_index = (self.state.current_index + 1) % len;
    }

    /// The value of the option shown.
    pub fn selected_value(&self) -> (r: u8)
        requires
            (self.state.current_index as int) < self.state.options@.len(),
        ensures
            r == self.state.options@[self.state.current_index as int].1,
    {
        self.state.options[self.state.current_index as usize].1
    }
}

} // verus!
