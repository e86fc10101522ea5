use vstd::prelude::*;

verus! {

/// A titled piece of content of an entry, placed by its position.
#[derive(Clone)]
pub struct Section {
    pub position: i64,
    pub title: String,
    pub content: String,
}

impl Section {
    /// A section with the given title, content and position.
    pub fn new(title: &str, default: &str, position: i64) -> (r: Self)
        ensures
            r.position == position,
            r.title@ == title@,
            r.content@ == default@,
    {
        broadcast use vstd::string::group_string_axioms;

        Self { position, title: title.to_string(), content: default.to_string() }
    }
}

} // verus!
