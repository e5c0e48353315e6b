//! The router: an ordered list of rules and a default browser. Routing
//! walks the rules in declared order and returns the target of the first
//! one that matches, or the default when none does — deterministic, total,
//! and free of side effects.

use vstd::prelude::*;

use crate::browser::Browser;
use crate::rule::Rule;
use crate::weburl::parsed_authority;
use crate::weburl::url_authority;

verus! {

/// The browser chosen for `authority` by walking `rules` in order: the
/// target of the first rule that matches, else `default`.
pub open spec fn spec_route_rules(rules: Seq<Rule>, default: Browser, authority: Seq<char>) -> Browser
    decreases rules.len(),
{
    if rules.len() == 0 {
        default
    } else if rules[0].spec_matches(authority) {
        rules[0].to
    } else {
        spec_route_rules(rules.drop_first(), default, authority)
    }
}

/// An ordered rule list with a default browser. Rule order is semantically
/// significant: the first matching rule wins.
#[derive(Debug)]
pub struct Config {
    pub default: Browser,
    pub rules: Vec<Rule>,
}

impl Config {
    /// The browser this configuration chooses for the given authority.
    pub open spec fn spec_route(self, authority: Seq<char>) -> Browser {
        spec_route_rules(self.rules@, self.default, authority)
    }

    /// Walks the rules in declared order and returns the target of the
    /// first rule that matches the authority; when the list is empty or no
    /// rule matches, returns the default browser. Never fails.
    pub fn route(&self, authority: &str) -> (b: Browser)
        ensures
            b == self.spec_route(authority@),
    {
        let n = self.rules.len();
        let mut i: usize = 0;
        proof {
            assert(self.rules@.skip(0) =~= self.rules@);
        }
        while i < n
            invariant
                n == self.rules@.len(),
                0 <= i <= n,
                spec_route_rules(self.rules@.skip(i as int), self.default, authority@)
                    == self.spec_route(authority@),
            decreases n - i,
        {
            let rule = &self.rules[i];
            if rule.matches(authority) {
                proof {
                    assert(self.rules@.skip(i as int)[0] == self.rules@[i as int]);
                }
                return rule.to;
            }
            proof {
                assert(self.rules@.skip(i as int).drop_first() =~= self.rules@.skip(i + 1));
            }
            i += 1;
        }
        proof {
            assert(self.rules@.skip(n as int) =~= Seq::<Rule>::empty());
        }
        self.default
    }

    /// Routes a full URL string: parses it, extracts its authority, and
    /// routes that authority. `None` exactly when the string is not a valid
    /// URL; a valid URL always routes to some browser.
    pub fn route_url(&self, url: &str) -> (r: Option<Browser>)
        ensures
            r is Some <==> parsed_authority(url@) is Some,
            r matches Some(b) ==> parsed_authority(url@) matches Some(a) && b == self.spec_route(a),
    {
        match url_authority(url) {
            Some(authority) => Some(self.route(authority.as_str())),
            None => None,
        }
    }
}

impl Default for Config {
    /// The configuration used when no configuration file exists: no rules,
    /// so every URL routes to the baseline browser.
    fn default() -> (c: Config)
        ensures
            c.default == Browser::Firefox,
            c.rules@ == Seq::<Rule>::empty(),
    {
        Config { default: Browser::Firefox, rules: Vec::new() }
    }
}

/// First match wins: when rule `i` matches the authority and no earlier
/// rule does, routing returns rule `i`'s target, whatever any later rule
/// would have said.
pub proof fn lemma_route_first_match(
    rules: Seq<Rule>,
    default: Browser,
    authority: Seq<char>,
    i: int,
)
    requires
        0 <= i < rules.len(),
        rules[i].spec_matches(authority),
        forall|j: int| 0 <= j < i ==> !rules[j].spec_matches(authority),
    ensures
        spec_route_rules(rules, default, authority) == rules[i].to,
    decreases i,
{
    if i > 0 {
        assert forall|j: int| 0 <= j < i - 1 implies !rules.drop_first()[j].spec_matches(authority) by {
            assert(rules.drop_first()[j] == rules[j + 1]);
        }
        lemma_route_first_match(rules.drop_first(), default, authority, i - 1);
    }
}

/// When no rule matches — in particular when the rule list is empty —
/// routing returns the default browser.
pub proof fn lemma_route_default(rules: Seq<Rule>, default: Browser, authority: Seq<char>)
    requires
        forall|i: int| 0 <= i < rules.len() ==> !rules[i].spec_matches(authority),
    ensures
        spec_route_rules(rules, default, authority) == default,
    decreases rules.len(),
{
    if rules.len() > 0 {
        assert forall|j: int| 0 <= j < rules.drop_first().len() implies !rules.drop_first()[j].spec_matches(
            authority,
        ) by {
            assert(rules.drop_first()[j] == rules[j + 1]);
        }
        lemma_route_default(rules.drop_first(), default, authority);
    }
}

} // verus!
