use dabot::policy::contains_token;

#[test]
fn token_found_anywhere() {
    assert!(contains_token("@rhymedabot", "@rhymedabot"));
    assert!(contains_token("hey @rhymedabot what", "@rhymedabot"));
    assert!(contains_token("ведь так, @rhymedabot", "@rhymedabot"));
}

#[test]
fn token_absent_or_partial() {
    assert!(!contains_token("nothing here", "@rhymedabot"));
    assert!(!contains_token("@rhymedabo", "@rhymedabot"));
    assert!(!contains_token("", "@rhymedabot"));
}

#[test]
fn empty_needle_is_always_found() {
    assert!(contains_token("anything", ""));
    assert!(contains_token("", ""));
}

#[test]
fn comparison_is_by_character() {
    assert!(contains_token("привет всем", "привет"));
    assert!(!contains_token("привет", "приветы"));
}
