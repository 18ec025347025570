//! Data carried by a modal popup; rendering happens outside the crate.

use vstd::prelude::*;

verus! {

/// Title and body text of a popup window.
pub struct Popup {
    title: String,
    text: String,
}

impl Popup {
    /// What the title reads.
    pub closed spec fn title_view(&self) -> Seq<char> {
        self.title@
    }

    /// What the body reads.
    pub closed spec fn text_view(&self) -> Seq<char> {
        self.text@
    }

    pub fn new(title: String, text: String) -> (r: Self)
        ensures
            r.title_view() == title@,
            r.text_view() == text@,
    {
        Self { title, text }
    }

    pub fn title(&self) -> (r: &String)
        ensures
            r@ == self.title_view(),
    {
        &self.title
    }

    pub fn text(&self) -> (r: &String)
        ensures
            r@ == self.text_view(),
    {
        &self.text
    }
}

} // verus!
