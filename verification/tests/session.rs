use ekman::session::{encode, enforce_totp, AuthUser, Error};

fn user(totp_enabled: bool) -> AuthUser {
    AuthUser {
        id: 1,
        username: "bob".to_string(),
        password_hash: "hash".to_string(),
        totp_secret: "JBSWY3DP".to_string(),
        totp_enabled,
    }
}

#[test]
fn a_token_is_written_as_sixty_four_hex_digits() {
    let mut bytes = [0u8; 32];
    for (i, b) in bytes.iter_mut().enumerate() {
        *b = (i * 8 + 7) as u8;
    }
    bytes[0] = 0x00;
    bytes[1] = 0x0f;
    bytes[2] = 0xa0;
    bytes[31] = 0xff;
    let text = encode(bytes);
    assert_eq!(text.len(), 64);
    let expected: String = bytes.iter().map(|b| format!("{:02x}", b)).collect();
    assert_eq!(text, expected);
    assert!(text.starts_with("000fa0"));
    assert!(text.ends_with("ff"));
    assert_eq!(encode([0u8; 32]), "0".repeat(64));
    assert_eq!(encode([0xab; 32]), "ab".repeat(32));
}

#[test]
fn the_one_time_password_is_asked_for_only_where_it_is_enabled() {
    match enforce_totp(&user(true), Some("123456")) {
        Ok(check) => {
            assert_eq!(check.secret, "JBSWY3DP");
            assert_eq!(check.code, "123456");
        }
        Err(e) => panic!("{:?}", e),
    }
    assert!(matches!(enforce_totp(&user(true), None), Err(Error::Unauthorized)));
    assert!(matches!(enforce_totp(&user(false), Some("123456")), Err(Error::Unauthorized)));
    assert!(matches!(enforce_totp(&user(false), None), Err(Error::Unauthorized)));
    assert!(matches!(enforce_totp(&user(true), Some("")), Ok(_)));
}

#[test]
fn errors_have_a_status_and_a_text() {
    assert_eq!(Error::Unauthorized.status(), 401);
    assert_eq!(Error::NotFound("set".to_string()).status(), 404);
    assert_eq!(Error::BadRequest("reps must be >= 1".to_string()).status(), 400);
    assert_eq!(Error::Internal("db".to_string()).status(), 500);
    assert_eq!(Error::Unauthorized.message(), "unauthorized");
    assert_eq!(Error::NotFound("set".to_string()).message(), "not found: set");
    assert_eq!(Error::BadRequest("reps must be >= 1".to_string()).message(), "bad request: reps must be >= 1");
    assert_eq!(Error::Internal("db".to_string()).message(), "internal error: db");
}
