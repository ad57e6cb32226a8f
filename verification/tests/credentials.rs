use git_http_backend::credentials::{authenticate_basic, credentials_match, same_text};
use git_http_backend::gate::AuthInput;

fn input(h: &str) -> AuthInput {
    AuthInput { authorization: Some(h.to_string()) }
}

#[test]
fn right_credentials_pass() {
    let r = authenticate_basic(input("Basic dXNlcm5hbWU6cGFzc3dvcmQ="), "username", "password");
    assert_eq!(r, Ok(()));
    let r = authenticate_basic(input("basic dXNlcm5hbWU6cGFzc3dvcmQ="), "username", "password");
    assert_eq!(r, Ok(()));
}

#[test]
fn header_is_decoded_not_compared() {
    let r = authenticate_basic(
        input("Basic dXNlcm5hbWU6cGFzc3dvcmQ="),
        "Basic dXNlcm5hbWU6cGFzc3dvcmQ=",
        "",
    );
    assert_eq!(r, Err(()));
    let r = authenticate_basic(input("Basic YTpiOmM="), "a", "b:c");
    assert_eq!(r, Ok(()));
}

#[test]
fn wrong_credentials_fail() {
    let h = "Basic dXNlcm5hbWU6cGFzc3dvcmQ=";
    assert_eq!(authenticate_basic(input(h), "username", "passwor"), Err(()));
    assert_eq!(authenticate_basic(input(h), "usernam", "password"), Err(()));
    assert_eq!(authenticate_basic(input(h), "password", "username"), Err(()));
}

#[test]
fn missing_or_malformed_header_fails() {
    assert_eq!(
        authenticate_basic(AuthInput { authorization: None }, "username", "password"),
        Err(())
    );
    for h in ["", "Basic", "Basic !!!", "Bearer dXNlcm5hbWU6cGFzc3dvcmQ=", "Basic dXNlcm5hbWU=", "Basic a b"] {
        assert_eq!(authenticate_basic(input(h), "username", "password"), Err(()));
    }
}

#[test]
fn parsed_credentials_compare_exactly() {
    let parsed = Some(("u".to_string(), "p".to_string()));
    assert!(credentials_match(&parsed, "u", "p"));
    assert!(!credentials_match(&parsed, "U", "p"));
    assert!(!credentials_match(&parsed, "u", "pp"));
    assert!(!credentials_match(&None, "u", "p"));
    assert!(same_text("", ""));
    assert!(same_text("ab", "ab"));
    assert!(!same_text("ab", "abc"));
    assert!(!same_text("abc", "ab"));
    assert!(!same_text("ab", "ac"));
}
