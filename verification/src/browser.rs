//! The enumerated set of supported browsers, the mapping from configuration
//! identifiers to browsers, and the mapping from a browser to the executable
//! invocation that opens a URL in it.

use vstd::prelude::*;

use crate::text::{lower, str_eq_ignore_ascii_case};

verus! {

/// A supported web browser.
#[derive(Debug, Copy, Clone, PartialEq, Eq, Structural)]
pub enum Browser {
    Firefox,
    GoogleChrome,
}

impl Browser {
    /// The hyphenated identifier that names this browser in configuration
    /// text, which is also the name of the executable that launches it.
    pub open spec fn spec_id(self) -> Seq<char> {
        match self {
            Browser::Firefox => "firefox"@,
            Browser::GoogleChrome => "google-chrome"@,
        }
    }

    /// The browser named by `id`, up to ASCII case; `None` for an
    /// unrecognized identifier.
    pub open spec fn spec_from_id(id: Seq<char>) -> Option<Browser> {
        if lower(id) == Browser::Firefox.spec_id() {
            Some(Browser::Firefox)
        } else if lower(id) == Browser::GoogleChrome.spec_id() {
            Some(Browser::GoogleChrome)
        } else {
            None
        }
    }

    /// Looks a browser up by its textual identifier, case-insensitively.
    /// An unrecognized identifier yields `None`, never a fallback browser.
    pub fn from_id(id: &str) -> (r: Option<Browser>)
        ensures
            r == Browser::spec_from_id(id@),
    {
        proof {
            lemma_ids_are_lowercase();
        }
        if str_eq_ignore_ascii_case(id, "firefox") {
            Some(Browser::Firefox)
        } else if str_eq_ignore_ascii_case(id, "google-chrome") {
            Some(Browser::GoogleChrome)
        } else {
            None
        }
    }

    /// The fixed executable name that launches this browser.
    pub fn executable(&self) -> (r: &'static str)
        ensures
            r@ == self.spec_id(),
    {
        match self {
            Browser::Firefox => "firefox",
            Browser::GoogleChrome => "google-chrome",
        }
    }

    /// The invocation that opens `url` in this browser: the browser's fixed
    /// executable name, with the URL's string form as its sole argument.
    pub fn command(&self, url: &str) -> (c: Invocation)
        ensures
            c.program@ == self.spec_id(),
            c.arg@ == url@,
    {
        Invocation { program: String::from_str(self.executable()), arg: String::from_str(url) }
    }
}

impl Default for Browser {
    /// The baseline browser, used when configuration names none.
    fn default() -> (r: Browser)
        ensures
            r == Browser::Firefox,
    {
        Browser::Firefox
    }
}

/// An executable invocation that opens a URL in a browser: a program name
/// and the URL as its sole argument.
#[derive(Debug)]
pub struct Invocation {
    pub program: String,
    pub arg: String,
}

/// The browser identifiers hold no ASCII uppercase letter, so lowering an
/// identifier candidate compares it against them exactly.
proof fn lemma_ids_are_lowercase()
    ensures
        lower("firefox"@) == "firefox"@,
        lower("google-chrome"@) == "google-chrome"@,
{
    reveal_strlit("firefox");
    reveal_strlit("google-chrome");
    assert(lower("firefox"@) =~= "firefox"@);
    assert(lower("google-chrome"@) =~= "google-chrome"@);
}

} // verus!
