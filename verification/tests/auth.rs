use ekman::auth::{generate_totp_secret, secret_from, url_encode, AuthField, AuthState};

fn form(username: &str, secret: &str) -> AuthState {
    let mut auth = AuthState::with_secret(secret.to_string());
    for ch in username.chars() {
        auth.push_char(ch);
    }
    auth
}

#[test]
fn the_form_starts_empty_in_register_mode() {
    let auth = AuthState::with_secret("ABC".to_string());
    assert!(auth.register_mode);
    assert_eq!(auth.username, "");
    assert_eq!(auth.password, "");
    assert_eq!(auth.totp_code, "");
    assert_eq!(auth.totp_secret, "ABC");
    assert_eq!(auth.status, "");
    assert_eq!(auth.field, AuthField::Username);
    assert!(!auth.submitting);
}

#[test]
fn a_fresh_secret_is_twenty_bytes_in_base32() {
    let auth = AuthState::new();
    assert_eq!(auth.totp_secret.len(), 32);
    assert!(auth.totp_secret.chars().all(|c| c.is_ascii_uppercase() || ('2'..='7').contains(&c)));
    let other = generate_totp_secret().unwrap();
    assert_eq!(other.len(), 32);
    assert_ne!(other, auth.totp_secret);
}

#[test]
fn regenerating_replaces_the_secret_alone() {
    let mut auth = form("bob", "OLD");
    auth.next_field();
    assert!(auth.regenerate_secret());
    assert_ne!(auth.totp_secret, "OLD");
    assert_eq!(auth.totp_secret.len(), 32);
    assert_eq!(auth.username, "bob");
    assert_eq!(auth.field, AuthField::Password);
}

#[test]
fn the_fields_go_round() {
    let mut auth = AuthState::with_secret(String::new());
    auth.next_field();
    assert_eq!(auth.field, AuthField::Password);
    auth.next_field();
    assert_eq!(auth.field, AuthField::Totp);
    auth.next_field();
    assert_eq!(auth.field, AuthField::Username);
    auth.prev_field();
    assert_eq!(auth.field, AuthField::Totp);
    auth.prev_field();
    assert_eq!(auth.field, AuthField::Password);
    auth.prev_field();
    assert_eq!(auth.field, AuthField::Username);
}

#[test]
fn keystrokes_go_to_the_focused_field() {
    let mut auth = AuthState::with_secret(String::new());
    auth.push_char('a');
    auth.next_field();
    auth.push_char('b');
    auth.push_char('c');
    auth.next_field();
    auth.push_char('1');
    assert_eq!((auth.username.as_str(), auth.password.as_str(), auth.totp_code.as_str()), ("a", "bc", "1"));
    auth.backspace();
    auth.backspace();
    assert_eq!(auth.totp_code, "");
    auth.prev_field();
    auth.backspace();
    assert_eq!(auth.password, "b");
}

#[test]
fn control_characters_are_dropped() {
    let mut auth = AuthState::with_secret(String::new());
    for ch in ['\0', '\t', '\n', '\u{1b}', '\u{1f}', '\u{7f}', '\u{80}', '\u{9f}'] {
        assert!(ch.is_control());
        auth.push_char(ch);
    }
    assert_eq!(auth.username, "");
    for ch in [' ', '~', '\u{a0}', 'é', '\u{7e}'] {
        assert!(!ch.is_control());
        auth.push_char(ch);
    }
    assert_eq!(auth.username, " ~\u{a0}é~");
}

#[test]
fn a_url_keeps_unreserved_bytes_and_escapes_the_rest() {
    assert_eq!(url_encode("abcXYZ019-_.~"), "abcXYZ019-_.~");
    assert_eq!(url_encode("ekman:bob"), "ekman%3Abob");
    assert_eq!(url_encode("a b/c?d"), "a%20b%2Fc%3Fd");
    assert_eq!(url_encode("é"), "%C3%A9");
    assert_eq!(url_encode("日"), "%E6%97%A5");
    assert_eq!(url_encode("\u{1f600}"), "%F0%9F%98%80");
    assert_eq!(url_encode("\0\u{7f}"), "%00%7F");
    assert_eq!(url_encode(""), "");
}

#[test]
fn the_url_names_the_user_and_carries_the_secret() {
    let auth = form("  bob smith \t", "JBSWY3DP");
    assert_eq!(
        auth.otpauth_url(),
        "otpauth://totp/ekman%3Abob%20smith?secret=JBSWY3DP&issuer=ekman&algorithm=SHA1&digits=6&period=30"
    );
}

#[test]
fn without_a_username_the_url_names_the_application() {
    for name in ["", "   "] {
        let auth = form(name, "JBSWY3DP");
        assert_eq!(
            auth.otpauth_url(),
            "otpauth://totp/ekman?secret=JBSWY3DP&issuer=ekman&algorithm=SHA1&digits=6&period=30"
        );
    }
}

#[test]
fn switching_the_mode_clears_code_and_status() {
    let mut auth = form("bob", "OLD");
    auth.next_field();
    auth.next_field();
    auth.push_char('1');
    auth.status = "oops".to_string();
    assert!(auth.set_mode(true));
    assert_eq!(auth.totp_code, "1");
    assert_eq!(auth.status, "oops");
    auth.set_mode(false);
    assert!(!auth.register_mode);
    assert_eq!(auth.totp_code, "");
    assert_eq!(auth.status, "");
    assert_eq!(auth.field, AuthField::Username);
    assert_eq!(auth.totp_secret, "OLD");
    assert_eq!(auth.username, "bob");
    auth.set_mode(true);
    assert!(auth.register_mode);
    assert_ne!(auth.totp_secret, "OLD");
}

#[test]
fn bytes_drawn_make_a_secret_in_base32() {
    let bytes = vec![b'H', b'e', b'l', b'l', b'o', b'!', 0xde, 0xad, 0xbe, 0xef];
    assert_eq!(secret_from(Some(bytes.clone())), Some("JBSWY3DPEHPK3PXP".to_string()));
    assert_eq!(
        secret_from(Some(bytes.clone())),
        Some(base32::encode(base32::Alphabet::Rfc4648 { padding: false }, &bytes))
    );
    assert_eq!(secret_from(Some(vec![0; 20])), Some("A".repeat(32)));
    assert_eq!(secret_from(Some(Vec::new())), Some(String::new()));
    assert_eq!(secret_from(None), None);
}

#[test]
fn a_secret_drawn_replaces_the_one_held() {
    let mut auth = form("bob", "OLD");
    assert!(!auth.take_secret(None));
    assert_eq!(auth.totp_secret, "OLD");
    assert!(auth.take_secret(Some("NEW".to_string())));
    assert_eq!(auth.totp_secret, "NEW");
    assert_eq!(auth.username, "bob");
    assert_eq!(auth.field, AuthField::Username);
    assert!(auth.register_mode);
}
