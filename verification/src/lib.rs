//! Routes a URL to a web browser by evaluating an ordered list of matching
//! rules against the URL's network authority (host, optionally with port).
//!
//! The core is pure: a [`matcher::Matcher`] decides whether a rule applies to
//! an authority, a [`rule::Rule`] pairs a matcher with a target
//! [`browser::Browser`], and a [`config::Config`] walks its rules in order,
//! returning the target of the first rule that matches, or its default
//! browser when none does.

pub mod browser;
pub mod config;
pub mod matcher;
pub mod rule;
pub mod text;
pub mod weburl;

pub use browser::Browser;
pub use browser::Invocation;
pub use config::Config;
pub use matcher::Matcher;
pub use rule::Rule;
