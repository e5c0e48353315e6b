use browserdemux::Browser;

#[test]
fn browser_from_id_recognizes_the_identifiers() {
    assert_eq!(Browser::from_id("firefox"), Some(Browser::Firefox));
    assert_eq!(Browser::from_id("google-chrome"), Some(Browser::GoogleChrome));
}

#[test]
fn browser_from_id_ignores_ascii_case() {
    assert_eq!(Browser::from_id("Firefox"), Some(Browser::Firefox));
    assert_eq!(Browser::from_id("FIREFOX"), Some(Browser::Firefox));
    assert_eq!(Browser::from_id("Google-Chrome"), Some(Browser::GoogleChrome));
    assert_eq!(Browser::from_id("GOOGLE-CHROME"), Some(Browser::GoogleChrome));
}

#[test]
fn browser_from_id_rejects_unknown_identifiers() {
    assert_eq!(Browser::from_id("netscape"), None);
    assert_eq!(Browser::from_id("google_chrome"), None);
    assert_eq!(Browser::from_id("firefox "), None);
    assert_eq!(Browser::from_id(""), None);
}

#[test]
fn browser_command_names_executable_and_passes_url() {
    let c = Browser::Firefox.command("https://example.com/");
    assert_eq!(c.program, "firefox");
    assert_eq!(c.arg, "https://example.com/");
    let c = Browser::GoogleChrome.command("https://example.com/");
    assert_eq!(c.program, "google-chrome");
    assert_eq!(c.arg, "https://example.com/");
}

#[test]
fn default_browser_is_firefox() {
    assert_eq!(Browser::default(), Browser::Firefox);
}
