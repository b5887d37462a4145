use tamichat::auth::{
    accept_claims, begin_registration, begin_registration_with_salt, check_registration,
    finish_login, finish_registration, hash_password, hash_password_with_salt, login_name,
    make_token, make_token_at, token_expiry, verify_password, verify_token, AuthBody, Claims,
    TOKEN_LIFETIME_SECS,
};
use tamichat::db::UserRow;

fn body(username: &str, password: &str) -> AuthBody {
    AuthBody { username: username.to_string(), password: password.to_string() }
}

const SALT: &str = "c29tZXNhbHRzb21lc2FsdA";

#[test]
fn registration_trims_and_accepts_valid_credentials() {
    assert_eq!(check_registration(&body("  alice  ", "secret1")).unwrap(), "alice");
}

#[test]
fn registration_refuses_short_username() {
    let err = check_registration(&body(" a ", "secret1")).unwrap_err();
    assert_eq!(err, (400, "用户名长度需在 2-20 之间".to_string()));
}

#[test]
fn registration_refuses_long_username_counted_in_bytes() {
    // seven CJK characters are 21 bytes
    let err = check_registration(&body("一二三四五六七", "secret1")).unwrap_err();
    assert_eq!(err.0, 400);
    assert_eq!(err.1, "用户名长度需在 2-20 之间");
    // six of them are 18 bytes
    assert_eq!(check_registration(&body("一二三四五六", "secret1")).unwrap(), "一二三四五六");
    // a single CJK character is 3 bytes
    assert_eq!(check_registration(&body("张", "secret1")).unwrap(), "张");
}

#[test]
fn registration_limits_are_inclusive() {
    assert!(check_registration(&body("ab", "123456")).is_ok());
    assert!(check_registration(&body("abcdefghijklmnopqrst", "123456")).is_ok());
    assert!(check_registration(&body("abcdefghijklmnopqrstu", "123456")).is_err());
}

#[test]
fn registration_refuses_short_password() {
    let err = check_registration(&body("alice", "12345")).unwrap_err();
    assert_eq!(err, (400, "密码至少 6 位".to_string()));
}

#[test]
fn username_rule_is_checked_before_password_rule() {
    let err = check_registration(&body("a", "1")).unwrap_err();
    assert_eq!(err.1, "用户名长度需在 2-20 之间");
}

#[test]
fn unicode_whitespace_is_trimmed_from_usernames() {
    assert_eq!(login_name(&body("\u{3000}bob\t\n", "x")), "bob");
}

#[test]
fn hashed_password_verifies() {
    let h = hash_password("hunter22").unwrap();
    assert!(h.starts_with("$argon2id$"));
    assert!(verify_password("hunter22", &h));
    assert!(!verify_password("hunter23", &h));
}

#[test]
fn verify_refuses_malformed_hash() {
    assert!(!verify_password("hunter22", "not a hash"));
    assert!(!verify_password("hunter22", ""));
}

#[test]
fn hashing_with_a_given_salt_is_deterministic() {
    let a = hash_password_with_salt("pw123456", SALT).unwrap();
    let b = hash_password_with_salt("pw123456", SALT).unwrap();
    let c = hash_password_with_salt("pw654321", SALT).unwrap();
    assert_eq!(a, b);
    assert_ne!(a, c);
    assert_ne!(a, "pw123456");
    assert!(a.contains(SALT));
    assert!(verify_password("pw123456", &a));
}

#[test]
fn hashing_with_a_bad_salt_fails() {
    assert!(hash_password_with_salt("pw123456", "!").is_err());
}

#[test]
fn random_salts_differ() {
    let a = hash_password("samepass").unwrap();
    let b = hash_password("samepass").unwrap();
    assert_ne!(a, b);
}

#[test]
fn begin_registration_hashes_the_password() {
    let (name, hash) = begin_registration(&body(" carol ", "password")).unwrap();
    assert_eq!(name, "carol");
    assert!(verify_password("password", &hash));
    let err = begin_registration(&body("c", "password")).unwrap_err();
    assert_eq!(err.0, 400);
}

#[test]
fn begin_registration_with_salt_is_exact() {
    let (name, hash) = begin_registration_with_salt(&body("dave", "password"), SALT).unwrap();
    assert_eq!(name, "dave");
    assert_eq!(hash, hash_password_with_salt("password", SALT).unwrap());
    let err = begin_registration_with_salt(&body("dave", "password"), "!").unwrap_err();
    assert_eq!(err.0, 500);
}

#[test]
fn token_expiry_is_seven_days_later() {
    assert_eq!(TOKEN_LIFETIME_SECS, 604800);
    assert_eq!(token_expiry(1_700_000_000), 1_700_604_800);
    assert_eq!(token_expiry(0), 604_800);
}

#[test]
fn token_round_trip() {
    let t = make_token("erin").unwrap();
    assert_eq!(t.split('.').count(), 3);
    assert_eq!(verify_token(&t), Some("erin".to_string()));
}

#[test]
fn token_at_is_deterministic_and_subject_specific() {
    let a = make_token_at("erin", 1_700_000_000).unwrap();
    let b = make_token_at("erin", 1_700_000_000).unwrap();
    let c = make_token_at("frank", 1_700_000_000).unwrap();
    assert_eq!(a, b);
    assert_ne!(a, c);
}

#[test]
fn expired_token_is_refused() {
    // issued long ago: expired for years
    let t = make_token_at("erin", 1_000_000_000).unwrap();
    assert_eq!(verify_token(&t), None);
}

#[test]
fn tampered_or_garbage_token_is_refused() {
    let t = make_token("erin").unwrap();
    let mut tampered = t.clone();
    tampered.push('x');
    assert_eq!(verify_token(&tampered), None);
    assert_eq!(verify_token("garbage"), None);
    assert_eq!(verify_token(""), None);
}

#[test]
fn claims_acceptance_respects_leeway() {
    let c = |exp: usize| Some(Claims { sub: "g".to_string(), exp });
    assert_eq!(accept_claims(c(1000), 1060), Some("g".to_string()));
    assert_eq!(accept_claims(c(1000), 1061), None);
    assert_eq!(accept_claims(c(1000), 500), Some("g".to_string()));
    assert_eq!(accept_claims(c(0), 59), Some("g".to_string()));
    assert_eq!(accept_claims(None, 10), None);
}

#[test]
fn finish_registration_maps_outcomes() {
    let err = finish_registration("hank".to_string(), Err("用户名已被占用".to_string())).unwrap_err();
    assert_eq!(err, (400, "用户名已被占用".to_string()));
    let ok = finish_registration("hank".to_string(), Ok(())).unwrap();
    assert_eq!(ok.username, "hank");
    assert_eq!(verify_token(&ok.token), Some("hank".to_string()));
}

#[test]
fn finish_login_maps_outcomes() {
    let hash = hash_password_with_salt("rightpass", SALT).unwrap();
    let row = || UserRow { id: 1, username: "ivy".to_string(), password_hash: hash.clone() };
    let e = finish_login("ivy".to_string(), "rightpass", Err("disk".to_string())).unwrap_err();
    assert_eq!(e, (500, "disk".to_string()));
    let e = finish_login("ivy".to_string(), "rightpass", Ok(None)).unwrap_err();
    assert_eq!(e, (401, "用户名或密码错误".to_string()));
    let e = finish_login("ivy".to_string(), "wrongpass", Ok(Some(row()))).unwrap_err();
    assert_eq!(e, (401, "用户名或密码错误".to_string()));
    let ok = finish_login("ivy".to_string(), "rightpass", Ok(Some(row()))).unwrap();
    assert_eq!(ok.username, "ivy");
    assert_eq!(verify_token(&ok.token), Some("ivy".to_string()));
}

#[test]
fn names_that_trim_alike_register_alike() {
    let (a, ha) = begin_registration(&body("  judy", "password")).unwrap();
    let (b, hb) = begin_registration(&body("judy\t", "password")).unwrap();
    assert_eq!(a, "judy");
    assert_eq!(a, b);
    assert!(verify_password("password", &ha));
    assert!(verify_password("password", &hb));
}
