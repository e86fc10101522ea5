use vstd::prelude::*;

use std::path::PathBuf;

use crate::app::input::{
    KeyCode, KeyEvent, KeyEventKind, is_cycle_backward_hover_key, is_cycle_forward_hover_key,
    spec_is_cycle_backward_hover_key, spec_is_cycle_forward_hover_key,
};
use crate::utils::{cycle_offset, spec_cycle_offset};

verus! {

/// The state of a list of the entries of a directory: the subdirectories
/// first, then, when it shows files, the files.
pub struct DirectoryListState {
    pub is_focused: bool,
    pub label: String,
    pub line_height: usize,
    pub current_path: PathBuf,
    pub selected_file_path: Option<PathBuf>,
    pub hovered_index: Option<usize>,
    pub selected_index: Option<usize>,
    pub offset: usize,
    pub show_files: bool,
    pub select_dir: bool,
}

/// What the application does after a key in a directory list.
#[derive(Clone, Copy, PartialEq, Eq, Structural, Debug)]
pub enum DirectoryAction {
    /// Nothing more.
    Stay,
    /// Leave the list, with the selected entry if any.
    Exit(Option<usize>),
    /// Show the parent of the current directory, when it has one.
    GoToParent,
    /// Show the directory at this position of the list.
    EnterDirectory(usize),
}

/// The number of entries shown: the directories, and the files when files are shown.
pub open spec fn shown_entries(show_files: bool, num_dirs: usize, num_files: usize) -> usize {
    if show_files {
        (num_files + num_dirs) as usize
    } else {
        num_dirs
    }
}

/// The hover one entry forward among `n`, wrapping around; the first when none.
pub open spec fn next_hover(h: Option<usize>, n: usize) -> Option<usize> {
    match h {
        Some(i) => Some(spec_cycle_offset(i as u16, 1i16, n as u16) as usize),
        None => Some(0usize),
    }
}

/// The hover one entry back among `n`, wrapping around; the last when none.
pub open spec fn previous_hover(h: Option<usize>, n: usize) -> Option<usize> {
    match h {
        Some(i) => Some(spec_cycle_offset(i as u16, -1i16, n as u16) as usize),
        None => Some((n - 1) as usize),
    }
}

/// The selection after Space: the hovered entry unselected when it was the
/// selected one, else selected when directories may be selected or it is a file.
pub open spec fn toggled_selection(s: DirectoryListState, num_dirs: usize) -> Option<usize> {
    match s.hovered_index {
        Some(h) => if s.selected_index == Some(h) {
            None
        } else if s.select_dir || h >= num_dirs {
            Some(h)
        } else {
            s.selected_index
        },
        None => s.selected_index,
    }
}

/// The state of a directory list and the action after a key.
pub open spec fn directory_step(s: DirectoryListState, key: KeyEvent, num_dirs: usize, num_files: usize) -> (
    DirectoryListState,
    DirectoryAction,
) {
    if !s.is_focused {
        (DirectoryListState { is_focused: true, ..s }, DirectoryAction::Stay)
    } else {
        let n = shown_entries(s.show_files, num_dirs, num_files);
        let h1 = if spec_is_cycle_forward_hover_key(key) {
            next_hover(s.hovered_index, n)
        } else {
            s.hovered_index
        };
        let h2 = if spec_is_cycle_backward_hover_key(key) {
            previous_hover(h1, n)
        } else {
            h1
        };
        let t = DirectoryListState { hovered_index: h2, ..s };
        if !key.is_press() {
            (t, DirectoryAction::Stay)
        } else {
            match key.code {
                KeyCode::Char(ch) => if ch == 'u' && key.control {
                    (
                        DirectoryListState {
                            offset: if t.offset >= 4 {
                                (t.offset - 4) as usize
                            } else {
                                0
                            },
                            ..t
                        },
                        DirectoryAction::Stay,
                    )
                } else if ch == 'd' && key.control {
                    (DirectoryListState { offset: (t.offset + 4) as usize, ..t }, DirectoryAction::Stay)
                } else if ch == ' ' {
                    (
                        DirectoryListState { selected_index: toggled_selection(t, num_dirs), ..t },
                        DirectoryAction::Stay,
                    )
                } else {
                    (t, DirectoryAction::Stay)
                },
                KeyCode::Esc => (
                    DirectoryListState { is_focused: false, ..t },
                    DirectoryAction::Exit(t.selected_index),
                ),
                KeyCode::Enter => match h2 {
                    Some(index) => if index == 0 {
                        (t, DirectoryAction::GoToParent)
                    } else if index < num_dirs {
                        (
                            DirectoryListState { selected_index: None, hovered_index: Some(0usize), ..t },
                            DirectoryAction::EnterDirectory(index),
                        )
                    } else {
                        (t, DirectoryAction::Stay)
                    },
                    None => (t, DirectoryAction::Stay),
                },
                _ => (t, DirectoryAction::Stay),
            }
        }
    }
}

/// A list of the entries of a directory.
pub struct DirectoryList {
    pub state: DirectoryListState,
}

impl DirectoryList {
    /// A list of `current_path` without the focus, nothing hovered or selected,
    /// scrolled to the top, one line per entry.
    pub fn new(label: &str, show_files: bool, select_dir: bool, current_path: PathBuf) -> (r: Self)
        ensures
            !r.state.is_focused,
            r.state.label@ == label@,
            r.state.line_height == 1,
            r.state.current_path == current_path,
            r.state.selected_file_path is None,
            r.state.hovered_index is None,
            r.state.selected_index is None,
            r.state.offset == 0,
            r.state.show_files == show_files,
            r.state.select_dir == select_dir,
    {
        broadcast use vstd::string::group_string_axioms;

        DirectoryList {
            state: DirectoryListState {
                is_focused: false,
                label: label.to_string(),
                line_height: 1,
                current_path,
                selected_file_path: None,
                hovered_index: None,
                selected_index: None,
                offset: 0,
                show_files,
                select_dir,
            },
        }
    }

    /// The number of entries shown: the directories, and the files when it
    /// shows files.
    pub fn get_num_entries(&self, num_dirs: usize, num_files: usize) -> (r: usize)
        requires
            num_dirs + num_files <= usize::MAX,
        ensures
            r == shown_entries(self.state.show_files, num_dirs, num_files),
    {
        if self.state.show_files {
            num_files + num_dirs
        } else {
            num_dirs
        }
    }

    /// Hovers the next of `num_entries` entries, wrapping around; the first
    /// when nothing was hovered.
    pub fn next_entry(&mut self, num_entries: usize)
        ensures
            final(self).state == (DirectoryListState {
                hovered_index: next_hover(old(self).state.hovered_index, num_entries),
                ..old(self).state
            }),
    {
        if let Some(index) = self.state.hovered_index {
            self.state.hovered_index = Some(cycle_offset(index as u16, 1, num_entries as u16) as usize);
        } else {
            self.state.hovered_index = Some(0);
        }
    }

    /// Hovers the previous of `num_entries` entries, wrapping around; the last
    /// when nothing was hovered.
    pub fn previous_entry(&mut self, num_entries: usize)
        requires
            old(self).state.hovered_index is None ==> num_entries > 0,
        ensures
            final(self).state == (DirectoryListState {
                hovered_index: previous_hover(old(self).state.hovered_index, num_entries),
                ..old(self).state
            }),
    {
        if let Some(index) = self.state.hovered_index {
            self.state.hovered_index = Some(cycle_offset(index as u16, -1, num_entries as u16) as usize);
        } else {
            self.state.hovered_index = Some(num_entries - 1usize);
        }
    }

    /// Scrolls four lines up, not past the top.
    pub fn page_up(&mut self)
        ensures
            final(self).state == (DirectoryListState {
                offset: if old(self).state.offset >= 4 {
                    (old(self).state.offset - 4) as usize
                } else {
                    0
                },
                ..old(self).state
            }),
    {
        self.state.offset = self.state.offset.saturating_sub(4);
    }

    /// Scrolls four lines down.
    pub fn page_down(&mut self)
        requires
            old(self).state.offset + 4 <= usize::MAX,
        ensures
            final(self).state == (DirectoryListState {
                offset: (old(self).state.offset + 4) as usize,
                ..old(self).state
            }),
    {
        self.state.offset = self.state.offset + 4;
    }

    /// Toggles the selection of the hovered entry: unselects it when it is
    /// the selected one, else selects it when directories may be selected or
    /// it is a file (at or after `num_dirs`).
    pub fn toggle_selection(&mut self, num_dirs: usize)
        ensures
            final(self).state == (DirectoryListState {
                selected_index: toggled_selection(old(self).state, num_dirs),
                ..old(self).state
            }),
    {
        if let Some(hovered_index) = self.state.hovered_index {
            if let Some(selected_index) = self.state.selected_index {
                if selected_index == hovered_index {
                    self.state.selected_index = None;
                    return;
                }
            }
            if self.state.select_dir || hovered_index >= num_dirs {
                self.state.selected_index = self.state.hovered_index;
            }
        }
    }

    /// Acts on a key, given how many directories and files the current
    /// directory holds. The first key takes the focus. Then the hover keys
    /// move the hover; Ctrl-u and Ctrl-d scroll; Space toggles the selection;
    /// Esc gives up the focus and says to leave with the selection; Enter on
    /// the first entry says to go to the parent directory, and on another
    /// directory clears the selection, hovers the first entry and says to
    /// enter it.
    pub fn handle(&mut self, key: &KeyEvent, num_dirs: usize, num_files: usize) -> (r: DirectoryAction)
        requires
            num_dirs + num_files <= usize::MAX,
            old(self).state.is_focused && spec_is_cycle_backward_hover_key(*key)
                && old(self).state.hovered_index is None ==> shown_entries(
                old(self).state.show_files,
                num_dirs,
                num_files,
            ) > 0,
            old(self).state.is_focused && key.is_press() && key.code == KeyCode::Char('d')
                && key.control ==> old(self).state.offset + 4 <= usize::MAX,
        ensures
            ({
                let (s, a) = directory_step(old(self).state, *key, num_dirs, num_files);
                final(self).state == s && r == a
            }),
    {
        if !self.state.is_focused {
            self.state.is_focused = true;
            return DirectoryAction::Stay;
        }
        let n = self.get_num_entries(num_dirs, num_files);
        if is_cycle_forward_hover_key(key) {
            self.next_entry(n);
        }
        if is_cycle_backward_hover_key(key) {
            self.previous_entry(n);
        }
        if key.kind != KeyEventKind::Press {
            return DirectoryAction::Stay;
        }
        match key.code {
            KeyCode::Char(ch) => {
                if ch == 'u' {
                    if key.control {
                        self.page_up();
                    }
                } else if ch == 'd' {
                    if key.control {
                        self.page_down();
                    }
                } else if ch == ' ' {
                    self.toggle_selection(num_dirs);
                }
                DirectoryAction::Stay
            },
            KeyCode::Esc => {
                self.state.is_focused = false;
                DirectoryAction::Exit(self.state.selected_index)
            },
            KeyCode::Enter => {
                match self.state.hovered_index {
                    Some(index) => {
                        if index == 0 {
                            DirectoryAction::GoToParent
                        } else if index < num_dirs {
                            self.state.selected_index = None;
                            self.state.hovered_index = Some(0);
                            DirectoryAction::EnterDirectory(index)
                        } else {
                            DirectoryAction::Stay
                        }
                    },
                    None => DirectoryAction::Stay,
                }
            },
            _ => DirectoryAction::Stay,
        }
    }
}

} // verus!
