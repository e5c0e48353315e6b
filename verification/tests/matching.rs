use std::str::FromStr;

use browserdemux::Matcher;
use url::Url;

#[test]
fn match_authority() {
    let m = Matcher::Authority("facebook.com".to_owned());
    assert!(m.matches(Url::from_str("https://facebook.com").expect("valid url").authority()));
    assert!(!m.matches(Url::from_str("https://thefacebook.com").expect("valid url").authority()));
    assert!(!m.matches(Url::from_str("https://the.facebook.com").expect("valid url").authority()));
}

#[test]
fn match_domain() {
    let m = Matcher::Domain("facebook.com".to_owned());
    assert!(m.matches(Url::from_str("https://facebook.com").expect("valid url").authority()));
    assert!(!m.matches(Url::from_str("https://thefacebook.com").expect("valid url").authority()));
    assert!(m.matches(Url::from_str("https://the.facebook.com").expect("valid url").authority()));
    let m = Matcher::Domain("the.facebook.com".to_owned());
    assert!(!m.matches(Url::from_str("https://facebook.com").expect("valid url").authority()));
    assert!(!m.matches(Url::from_str("https://thefacebook.com").expect("valid url").authority()));
    assert!(m.matches(Url::from_str("https://the.facebook.com").expect("valid url").authority()));
    assert!(m.matches(Url::from_str("https://drop.the.facebook.com").expect("valid url").authority()));
}

#[test]
fn authority_matches_exactly() {
    let m = Matcher::Authority("b.c".to_owned());
    assert!(m.matches("b.c"));
    assert!(!m.matches("a.b.c"));
    assert!(!m.matches("b.c.d"));
    assert!(!m.matches(""));
}

#[test]
fn authority_match_is_case_sensitive() {
    let m = Matcher::Authority("example.com".to_owned());
    assert!(!m.matches("Example.com"));
}

#[test]
fn domain_requires_dot_boundary() {
    let m = Matcher::Domain("facebook.com".to_owned());
    assert!(m.matches("facebook.com"));
    assert!(m.matches("the.facebook.com"));
    assert!(!m.matches("thefacebook.com"));
}

#[test]
fn domain_matches_deeper_subdomains() {
    let m = Matcher::Domain("b.c".to_owned());
    assert!(m.matches("b.c"));
    assert!(m.matches("a.b.c"));
    assert!(m.matches("x.a.b.c"));
    assert!(!m.matches("c"));
    assert!(!m.matches("b.d"));
}
