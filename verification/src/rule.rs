//! A rule pairs a matcher with the browser it routes to. It is immutable
//! once built and delegates matching entirely to its matcher.

use vstd::prelude::*;

use crate::browser::Browser;
use crate::matcher::Matcher;

verus! {

/// One routing rule: when `matcher` accepts a URL's authority, the URL goes
/// to the `to` browser.
#[derive(Debug)]
pub struct Rule {
    pub to: Browser,
    pub matcher: Matcher,
}

impl Rule {
    /// Whether this rule applies to the given authority; exactly its
    /// matcher's predicate.
    pub open spec fn spec_matches(self, authority: Seq<char>) -> bool {
        self.matcher.spec_matches(authority)
    }

    /// Decides whether this rule applies to the given URL authority.
    pub fn matches(&self, authority: &str) -> (r: bool)
        ensures
            r == self.spec_matches(authority@),
    {
        self.matcher.matches(authority)
    }
}

} // verus!
