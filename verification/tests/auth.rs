use webserver::auth::{
    basic, basic_payload_of, chars_of, credentials_accepted, credentials_match, gate, AuthOutcome, BASIC_CHALLENGE,
    UNAUTHORIZED_STATUS,
};
use webserver::state::AuthMode;

fn mode(user: &str, pass: &str) -> AuthMode {
    AuthMode::basic(user.to_string(), pass.to_string())
}

fn is_refused(outcome: &AuthOutcome) -> bool {
    match outcome {
        AuthOutcome::Unauthorized { status, challenge } => {
            *status == 401 && *challenge == "Basic realm=\"User Visible Realm\", charset=\"UTF-8\""
        },
        AuthOutcome::Proceed => false,
    }
}

#[test]
fn accepts_configured_credentials() {
    // "user:pass" in Base64
    let outcome = basic(&mode("user", "pass"), Some(b"Basic dXNlcjpwYXNz".as_slice()));
    assert!(matches!(outcome, AuthOutcome::Proceed));
}

#[test]
fn accepts_readme_credentials() {
    // "Dr. Evil:unhackable" in Base64
    let outcome = basic(&mode("Dr. Evil", "unhackable"), Some(b"Basic RHIuIEV2aWw6dW5oYWNrYWJsZQ==".as_slice()));
    assert!(matches!(outcome, AuthOutcome::Proceed));
}

#[test]
fn refuses_wrong_password() {
    // "user:wrong"
    let outcome = basic(&mode("user", "pass"), Some(b"Basic dXNlcjp3cm9uZw==".as_slice()));
    assert!(is_refused(&outcome));
}

#[test]
fn refuses_missing_header() {
    let outcome = basic(&mode("user", "pass"), None);
    assert!(is_refused(&outcome));
}

#[test]
fn refuses_other_scheme() {
    let outcome = basic(&mode("user", "pass"), Some(b"basic dXNlcjpwYXNz".as_slice()));
    assert!(is_refused(&outcome));
    let outcome = basic(&mode("user", "pass"), Some(b"Bearer dXNlcjpwYXNz".as_slice()));
    assert!(is_refused(&outcome));
    let outcome = basic(&mode("user", "pass"), Some(b"Basic".as_slice()));
    assert!(is_refused(&outcome));
}

#[test]
fn refuses_undecodable_payload() {
    // Not Base64 at all
    let outcome = basic(&mode("user", "pass"), Some(b"Basic user:pass".as_slice()));
    assert!(is_refused(&outcome));
    // The Base64 text itself handed in as credentials must not pass either
    let outcome = basic(&mode("dXNlcjpwYXNz", ""), Some(b"Basic dXNlcjpwYXNz".as_slice()));
    assert!(is_refused(&outcome));
}

#[test]
fn refuses_header_that_is_not_text() {
    let mut value = b"Basic dXNlcjpwYXNz".to_vec();
    value.push(0x80);
    let outcome = basic(&mode("user", "pass"), Some(value.as_slice()));
    assert!(is_refused(&outcome));
}

#[test]
fn refuses_credentials_that_are_not_utf8() {
    // Base64 of [0xff, 0x3a, 0x61] ("\xff:a")
    let outcome = basic(&mode("\u{fffd}", "a"), Some(b"Basic /zph".as_slice()));
    assert!(is_refused(&outcome));
}

#[test]
fn password_may_hold_colons() {
    // "user:a:b:c"
    let outcome = basic(&mode("user", "a:b:c"), Some(b"Basic dXNlcjphOmI6Yw==".as_slice()));
    assert!(matches!(outcome, AuthOutcome::Proceed));
}

#[test]
fn username_with_colon_is_never_accepted() {
    // "us:er:pass"
    let outcome = basic(&mode("us:er", "pass"), Some(b"Basic dXM6ZXI6cGFzcw==".as_slice()));
    assert!(is_refused(&outcome));
}

#[test]
fn tab_in_header_is_text() {
    // A tab is allowed in a header value, but it is not part of Base64.
    let outcome = basic(&mode("user", "pass"), Some(b"Basic \tdXNlcjpwYXNz".as_slice()));
    assert!(is_refused(&outcome));
}

#[test]
fn challenge_constants() {
    assert_eq!(UNAUTHORIZED_STATUS, 401);
    assert_eq!(BASIC_CHALLENGE, "Basic realm=\"User Visible Realm\", charset=\"UTF-8\"");
}

#[test]
fn credentials_split_at_first_colon() {
    assert!(credentials_match("user:pass", "user", "pass"));
    assert!(credentials_match("user:", "user", ""));
    assert!(credentials_match(":pass", "", "pass"));
    assert!(credentials_match("a:b:c", "a", "b:c"));
    assert!(!credentials_match("a:b:c", "a:b", "c"));
    assert!(!credentials_match("userpass", "user", "pass"));
    assert!(!credentials_match("user:pass", "User", "pass"));
    assert!(credentials_match("gebruiker:wachtwoord€", "gebruiker", "wachtwoord€"));
}

#[test]
fn payload_after_basic_prefix() {
    assert_eq!(basic_payload_of(b"Basic abc"), Some(b"abc".to_vec()));
    assert_eq!(basic_payload_of(b"Basic "), Some(Vec::new()));
    assert_eq!(basic_payload_of(b"Basic\tabc"), None);
    assert_eq!(basic_payload_of(b"Basi"), None);
    assert_eq!(basic_payload_of(b"Basic a\x7fb"), None);
    assert_eq!(basic_payload_of(b"Basic a\nb"), None);
    assert_eq!(basic_payload_of(b"Basic a\tb"), Some(b"a\tb".to_vec()));
}

#[test]
fn chars_of_text() {
    assert_eq!(chars_of("a€b"), vec!['a', '€', 'b']);
    assert_eq!(chars_of(""), Vec::<char>::new());
}

#[test]
fn auth_mode_constructors() {
    let b = AuthMode::basic("u".to_string(), "p".to_string());
    assert!(b.is_basic());
    assert!(!b.is_none());
    match b {
        AuthMode::Basic { username, password } => {
            assert_eq!(username, "u");
            assert_eq!(password, "p");
        },
        AuthMode::NoAuth => panic!("expected basic"),
    }
    let n = AuthMode::none();
    assert!(n.is_none());
    assert!(!n.is_basic());
}

#[test]
fn decoded_credentials() {
    assert!(credentials_accepted(b"user:pass", "user", "pass"));
    assert!(credentials_accepted("gebruiker:wachtwoord\u{20ac}".as_bytes(), "gebruiker", "wachtwoord\u{20ac}"));
    assert!(!credentials_accepted(b"user:pass\xff", "user", "pass\u{fffd}"));
    assert!(!credentials_accepted(b"userpass", "user", "pass"));
    assert!(!credentials_accepted(b"", "", ""));
    assert!(credentials_accepted(b":", "", ""));
}

#[test]
fn gate_by_mode() {
    assert!(matches!(gate(&AuthMode::none(), None), AuthOutcome::Proceed));
    assert!(matches!(gate(&AuthMode::none(), Some(b"Basic garbage".as_slice())), AuthOutcome::Proceed));
    assert!(is_refused(&gate(&mode("user", "pass"), None)));
    assert!(is_refused(&gate(&mode("user", "pass"), Some(b"Basic dXNlcjp3cm9uZw==".as_slice()))));
    assert!(matches!(gate(&mode("user", "pass"), Some(b"Basic dXNlcjpwYXNz".as_slice())), AuthOutcome::Proceed));
}
