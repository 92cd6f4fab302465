//! The page that readers are served: the last one that was built in full.

use vstd::prelude::*;

verus! {

/// Holds the current page. A page is replaced whole and never edited, so a
/// reader sees either the page from before a replacement or the one after.
pub struct PageCache {
    current: String,
}

impl View for PageCache {
    type V = Seq<char>;

    /// The text of the current page.
    closed spec fn view(&self) -> Seq<char> {
        self.current@
    }
}

impl PageCache {
    /// A cache that holds the placeholder, the empty page, until the first
    /// page is published.
    pub fn new() -> (cache: PageCache)
        ensures
            cache@ == Seq::<char>::empty(),
    {
        PageCache { current: String::new() }
    }

    /// A copy of the current page.
    pub fn read(&self) -> (snapshot: String)
        ensures
            snapshot@ == self@,
    {
        self.current.clone()
    }

    /// Replaces the current page.
    pub fn publish(&mut self, page: String)
        ensures
            final(self)@ == page@,
    {
        self.current = page;
    }
}

} // verus!
