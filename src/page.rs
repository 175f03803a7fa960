use vstd::prelude::*;

use crate::drain::{drain_start, Drain};
use crate::error::Error;

verus! {

/// The text of an optional link.
pub open spec fn link_view(link: Option<String>) -> Option<Seq<char>> {
    match link {
        Some(u) => Some(u@),
        None => None,
    }
}

/// One offset-addressed window of a list result.
#[derive(Clone, Debug)]
pub struct Page<T> {
    /// Location of this window.
    pub href: String,
    /// Largest number of items a window holds.
    pub limit: u32,
    /// Location of the following window, if there is one.
    pub next: Option<String>,
    /// Position of the first item of this window in the whole list.
    pub offset: u32,
    /// Location of the preceding window, if there is one.
    pub previous: Option<String>,
    /// Number of items in the whole list when this window was served.
    pub total: u32,
    /// The items of this window, in the order served.
    pub items: Vec<T>,
}

/// The request to make for the window that a link leads to, or `missing` when
/// the window has no such link.
pub open spec fn follow(link: Option<String>, missing: Error) -> Result<String, Error> {
    match link {
        Some(u) => Ok(u),
        None => Err(missing),
    }
}

impl<T> Page<T> {
    /// The location to fetch for the following window: the server's link taken
    /// literally, or `NoNextPage` when this is the last window.
    pub fn get_next(&self) -> (r: Result<String, Error>)
        ensures
            r == follow(self.next, Error::NoNextPage),
    {
        match &self.next {
            Some(u) => Ok(u.clone()),
            None => Err(Error::NoNextPage),
        }
    }

    /// The location to fetch for the preceding window: the server's link taken
    /// literally, or `NoPreviousPage` when this is the first window.
    pub fn get_previous(&self) -> (r: Result<String, Error>)
        ensures
            r == follow(self.previous, Error::NoPreviousPage),
    {
        match &self.previous {
            Some(u) => Ok(u.clone()),
            None => Err(Error::NoPreviousPage),
        }
    }

    /// Starts collecting every item from this window to the end of its chain.
    pub fn fetch_all(self) -> (d: Drain<T>)
        ensures
            d@ == drain_start(self),
    {
        match self.next {
            Some(url) => Drain::Fetching { collected: self.items, url },
            None => Drain::Done(self.items),
        }
    }
}

} // verus!
