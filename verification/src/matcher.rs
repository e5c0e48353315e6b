//! Matchers: predicates over a URL's authority. An `Authority` matcher
//! demands exact equality; a `Domain` matcher accepts the domain itself and
//! any of its subdomains, and nothing else — in particular no bare substring
//! without a dot boundary.

use vstd::prelude::*;

use crate::text::{ends_with, str_ends_with, str_eq};

verus! {

/// Exact-authority matching: the authority is the stored string, character
/// for character.
pub open spec fn authority_matches(x: Seq<char>, a: Seq<char>) -> bool {
    x == a
}

/// Domain-and-subdomain matching: the authority is the domain itself, or
/// ends with `"." + domain`.
pub open spec fn domain_matches(x: Seq<char>, d: Seq<char>) -> bool {
    x == d || ends_with(x, seq!['.'] + d)
}

/// A predicate deciding whether a rule applies to a given authority.
#[derive(Debug)]
pub enum Matcher {
    /// Matches exactly the stored authority string.
    Authority(String),
    /// Matches the stored domain and every subdomain of it.
    Domain(String),
}

impl Matcher {
    /// What this matcher accepts, as a predicate on the authority's
    /// characters.
    pub open spec fn spec_matches(self, authority: Seq<char>) -> bool {
        match self {
            Matcher::Authority(a) => authority_matches(authority, a@),
            Matcher::Domain(d) => domain_matches(authority, d@),
        }
    }

    /// Decides whether this matcher applies to the given URL authority.
    /// Pure and total: no side effects, an answer for every authority.
    pub fn matches(&self, authority: &str) -> (r: bool)
        ensures
            r == self.spec_matches(authority@),
    {
        match self {
            Matcher::Authority(a) => str_eq(authority, a.as_str()),
            Matcher::Domain(d) => {
                if str_eq(authority, d.as_str()) {
                    true
                } else {
                    let dotted = String::from_str(".").concat(d.as_str());
                    proof {
                        reveal_strlit(".");
                        assert("."@ =~= seq!['.']);
                        assert(dotted@ == seq!['.'] + d@);
                    }
                    str_ends_with(authority, dotted.as_str())
                }
            },
        }
    }
}

/// An authority matcher applies exactly when the authority equals its
/// stored string.
pub proof fn lemma_authority_matches_iff_equal(a: String, x: Seq<char>)
    ensures
        Matcher::Authority(a).spec_matches(x) == (x == a@),
{
}

/// A domain matcher applies exactly when the authority is the domain itself
/// or ends with `"." + domain`.
pub proof fn lemma_domain_matches_iff_suffix(d: String, x: Seq<char>)
    ensures
        Matcher::Domain(d).spec_matches(x) == (x == d@ || ends_with(x, seq!['.'] + d@)),
{
}

/// A domain matcher never matches on a bare substring: when it accepts an
/// authority other than the domain itself, the authority carries the domain
/// as a suffix with a `'.'` immediately before it.
pub proof fn lemma_domain_dot_boundary(d: String, x: Seq<char>)
    requires
        Matcher::Domain(d).spec_matches(x),
        x != d@,
    ensures
        x.len() > d@.len(),
        x[x.len() - d@.len() - 1] == '.',
        x.subrange(x.len() - d@.len(), x.len() as int) == d@,
{
    let m = d@.len() as int;
    let n = x.len() as int;
    let tail = x.subrange(n - m - 1, n);
    assert(tail == seq!['.'] + d@);
    assert(x[n - m - 1] == tail[0]);
    assert(x.subrange(n - m, n) =~= d@) by {
        assert forall|j: int| 0 <= j < m implies x.subrange(n - m, n)[j] == d@[j] by {
            assert(x.subrange(n - m, n)[j] == x[n - m + j]);
            assert(x[n - m + j] == tail[j + 1]);
            assert(tail[j + 1] == (seq!['.'] + d@)[j + 1]);
        }
    }
}

/// Domain matching is reflexive: a domain matches itself.
pub proof fn lemma_domain_matches_itself(d: String)
    ensures
        Matcher::Domain(d).spec_matches(d@),
{
}

/// Domain matching is closed under deeper subdomains: whatever authority a
/// domain matcher accepts, it also accepts that authority with one more
/// label in front of it.
pub proof fn lemma_domain_matches_deeper_subdomain(d: String, x: Seq<char>, label: Seq<char>)
    requires
        Matcher::Domain(d).spec_matches(x),
    ensures
        Matcher::Domain(d).spec_matches(label + seq!['.'] + x),
{
    let m = d@.len() as int;
    let y = label + seq!['.'] + x;
    let n = y.len() as int;
    if x == d@ {
        assert(y.subrange(n - m - 1, n) =~= seq!['.'] + d@);
    } else {
        let xn = x.len() as int;
        assert(x.subrange(xn - m - 1, xn) == seq!['.'] + d@);
        assert(y.subrange(n - m - 1, n) =~= x.subrange(xn - m - 1, xn)) by {
            assert forall|j: int| 0 <= j < m + 1 implies #[trigger] y.subrange(n - m - 1, n)[j]
                == x.subrange(xn - m - 1, xn)[j] by {
                assert(y.subrange(n - m - 1, n)[j] == y[n - m - 1 + j]);
                assert(y[n - m - 1 + j] == x[xn - m - 1 + j]);
            }
        }
    }
}

} // verus!
