use playback::cancel::CancellationToken;

#[test]
fn token_starts_clear() {
    let token = CancellationToken::new();
    assert!(!token.is_set());
}

#[test]
fn setting_twice_is_idempotent_and_never_clears() {
    let mut token = CancellationToken::new();
    token.set();
    assert!(token.is_set());
    token.set();
    assert!(token.is_set());
}
