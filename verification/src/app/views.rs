use vstd::prelude::*;

verus! {

#[derive(Clone, Copy, PartialEq, Eq, Structural, Debug)]
pub enum PageView {
    Entrance,
    CreateGlyph,
}

#[derive(Clone, Copy, PartialEq, Eq, Structural, Debug)]
pub enum DialogView {
    CreateGlyphInfo,
}

#[derive(Clone, Copy, PartialEq, Eq, Structural, Debug)]
pub enum PopupConfirmType {
    Exit,
}

#[derive(Clone)]
pub enum PopupView {
    Info(String),
    Warning(String),
    Error(String),
    Confirm(PopupConfirmType),
}

} // verus!
