//! User configuration staged by the options screen.

use vstd::prelude::*;

use crate::anime::ScraperImpl;

verus! {

/// Smallest and largest accepted page count.
pub const MIN_PAGES: usize = 1;

/// Largest accepted page count.
pub const MAX_PAGES: usize = 50;

/// The persisted settings: which backend to scrape and how many catalog
/// pages to request from it.
#[derive(Clone, Copy, PartialEq, Eq, Structural, Debug)]
pub struct Config {
    pub scraper: ScraperImpl,
    pub pages: usize,
}

/// A configuration the navigator accepts: the page count stays in bounds.
pub open spec fn config_wf(c: Config) -> bool {
    MIN_PAGES <= c.pages <= MAX_PAGES
}

impl Default for Config {
    fn default() -> (r: Self)
        ensures
            r.scraper == ScraperImpl::AnimeAv1Scraper,
            r.pages == 40,
            config_wf(r),
    {
        Config { scraper: ScraperImpl::AnimeAv1Scraper, pages: 40 }
    }
}

impl Config {
    /// Raises the page count by one, saturating at the upper bound.
    pub fn increment_pages(self) -> (r: Self)
        requires
            config_wf(self),
        ensures
            config_wf(r),
            r.scraper == self.scraper,
            r.pages == if self.pages < MAX_PAGES {
                self.pages + 1
            } else {
                MAX_PAGES as int
            },
    {
        if self.pages < MAX_PAGES {
            Config { pages: self.pages + 1, ..self }
        } else {
            Config { pages: MAX_PAGES, ..self }
        }
    }

    /// Lowers the page count by one, saturating at the lower bound.
    pub fn decrement_pages(self) -> (r: Self)
        requires
            config_wf(self),
        ensures
            config_wf(r),
            r.scraper == self.scraper,
            r.pages == if self.pages > MIN_PAGES {
                self.pages - 1
            } else {
                MIN_PAGES as int
            },
    {
        if self.pages > MIN_PAGES {
            Config { pages: self.pages - 1, ..self }
        } else {
            Config { pages: MIN_PAGES, ..self }
        }
    }

    /// Forces an arbitrary loaded page count into the accepted bounds;
    /// values already in bounds pass through unchanged.
    pub fn clamp_pages(self) -> (r: Self)
        ensures
            config_wf(r),
            r.scraper == self.scraper,
            config_wf(self) ==> r == self,
            r.pages == if self.pages < MIN_PAGES {
                MIN_PAGES as int
            } else if self.pages > MAX_PAGES {
                MAX_PAGES as int
            } else {
                self.pages as int
            },
    {
        if self.pages < MIN_PAGES {
            Config { pages: MIN_PAGES, ..self }
        } else if self.pages > MAX_PAGES {
            Config { pages: MAX_PAGES, ..self }
        } else {
            self
        }
    }
}

} // verus!
