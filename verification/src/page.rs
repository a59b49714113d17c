//! The immutable capture record of one successful session.

use vstd::prelude::*;

verus! {

/// The artifact produced by one successful `navigate` run: the navigation
/// target, the page title, the rendered markup, and the screenshot taken at
/// the end. It is constructed once, by the session state machine, and only
/// when every step of the run succeeded; a run with a failed step produces
/// no record at all.
#[derive(Debug, Clone, PartialEq, Eq, Hash)]
pub struct Page {
    pub url: String,
    pub title: String,
    pub source: String,
    pub screenshot: Option<Vec<u8>>,
}

impl Page {
    /// Well-formedness: the record names a non-empty navigation target and,
    /// having been produced by a successful capture, holds a screenshot.
    pub open spec fn wf(self) -> bool {
        &&& self.url@.len() > 0
        &&& self.screenshot is Some
    }

    /// The record's JSON text, as it is persisted.
    pub fn to_json(&self) -> (r: String)
        ensures
            r@ == crate::codec::page_json(*self),
    {
        crate::codec::page_to_json(self)
    }
}

} // verus!
