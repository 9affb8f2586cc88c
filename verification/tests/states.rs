use emdash::browser::{BrowserLoadArgs, BrowserViewState};
use emdash::effects::WtError;
use emdash::numbers::{i64_dec_string, u64_dec_string};
use emdash::update::UpdateState;

#[test]
fn fresh_states_are_empty() {
    let b = BrowserViewState::new();
    assert!(!b.visible);
    let u = UpdateState::new();
    assert!(u.latest.is_none());
    assert!(u.downloaded_path.is_none());
    let args = BrowserLoadArgs { url: "https://example.test".to_string(), force_reload: None };
    assert!(args.force_reload.is_none());
}

#[test]
fn error_messages_are_their_payload() {
    assert_eq!(WtError::InvalidArgument("a".to_string()).message(), "a");
    assert_eq!(WtError::PathConflict("b".to_string()).message(), "b");
    assert_eq!(WtError::FetchFailed("c".to_string()).message(), "c");
    assert_eq!(WtError::CommandFailed("d".to_string()).message(), "d");
    assert_eq!(WtError::DirectoryNotCreated("e".to_string()).message(), "e");
    assert_eq!(WtError::RemovalFailed("f".to_string()).message(), "f");
    assert_eq!(WtError::NotTracked("g".to_string()).message(), "g");
}

#[test]
fn decimal_rendering() {
    assert_eq!(u64_dec_string(0), "0");
    assert_eq!(u64_dec_string(1700000000000), "1700000000000");
    assert_eq!(i64_dec_string(-42), "-42");
    assert_eq!(i64_dec_string(i64::MIN), "-9223372036854775808");
    assert_eq!(i64_dec_string(7), "7");
}
