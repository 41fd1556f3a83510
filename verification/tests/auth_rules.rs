use rustkvm::auth::{
    hash_password, password_accepted, validate_auth_token, validate_password, AuthError, LocalAuth,
};

fn auth(mode: &str, hash: Option<&str>, token: Option<&str>) -> LocalAuth {
    LocalAuth {
        mode: mode.to_string(),
        hashed_password: hash.map(|h| h.to_string()),
        token: token.map(|t| t.to_string()),
    }
}

#[test]
fn tokens_are_checked_only_in_password_mode() {
    assert!(validate_auth_token("noPassword", None, ""));
    assert!(validate_auth_token("noPassword", Some("t"), "other"));
    assert!(validate_auth_token("password", Some("tok"), "tok"));
    assert!(!validate_auth_token("password", Some("tok"), "tok2"));
    assert!(!validate_auth_token("password", Some(""), ""));
    assert!(!validate_auth_token("password", None, "tok"));
    assert!(!validate_auth_token("", None, ""));
}

#[test]
fn passwords_are_checked_against_bcrypt_hashes() {
    let hash = bcrypt::hash("secret", 4).unwrap();
    assert!(validate_password(Some(&hash), "secret"));
    assert!(!validate_password(Some(&hash), "Secret"));
    assert!(!validate_password(Some("not a hash"), "secret"));
    assert!(!validate_password(None, "secret"));
    assert!(password_accepted(Some(true)));
    assert!(!password_accepted(Some(false)));
    assert!(!password_accepted(None));
}

#[test]
fn login_and_logout() {
    let mut a = auth("noPassword", None, None);
    assert_eq!(a.login(true, "t".to_string()), Err(AuthError::LoginDisabled));
    let mut a = auth("password", Some("h"), None);
    assert_eq!(a.login(false, "t".to_string()), Err(AuthError::InvalidPassword));
    assert_eq!(a.token, None);
    assert_eq!(a.login(true, "t1".to_string()), Ok(()));
    assert_eq!(a.token.as_deref(), Some("t1"));
    assert!(validate_auth_token(&a.mode, a.token.as_deref(), "t1"));
    a.logout();
    assert_eq!(a.token, None);
    assert!(!validate_auth_token(&a.mode, a.token.as_deref(), "t1"));
}

#[test]
fn hashed_passwords_check_against_themselves() {
    let h = hash_password("secret").unwrap();
    assert!(h.starts_with("$2b$12$"));
    assert_ne!(h, "secret");
    assert!(validate_password(Some(&h), "secret"));
    assert!(!validate_password(Some(&h), "secreT"));
}

#[test]
fn create_password_rules() {
    let mut a = auth("password", Some("h"), None);
    assert_eq!(a.create_password("p", "t".into()), Err(AuthError::PasswordAlreadySet));
    let mut a = auth("password", None, None);
    assert_eq!(a.create_password("p", "t".into()), Err(AuthError::PasswordModeNotEnabled));
    let mut a = auth("noPassword", None, None);
    assert_eq!(a.create_password("", "t".into()), Err(AuthError::InvalidRequest));
    assert_eq!(a.hashed_password, None);
    assert_eq!(a.create_password("p", "t".into()), Ok(()));
    assert_eq!(a.mode, "password");
    assert!(validate_password(a.hashed_password.as_deref(), "p"));
    assert_eq!(a.token.as_deref(), Some("t"));
}

#[test]
fn modify_password_rules() {
    let mut a = auth("password", None, None);
    assert_eq!(a.modify_password("a", "b", true, "t".into()), Err(AuthError::PasswordNotSet));
    let mut a = auth("noPassword", Some("h"), None);
    assert_eq!(a.modify_password("a", "b", true, "t".into()), Err(AuthError::PasswordModeNotEnabled));
    let mut a = auth("password", Some("h"), Some("old"));
    assert_eq!(a.modify_password("", "b", true, "t".into()), Err(AuthError::InvalidRequest));
    assert_eq!(a.modify_password("a", "b", false, "t".into()), Err(AuthError::IncorrectOldPassword));
    assert_eq!(a.token.as_deref(), Some("old"));
    assert_eq!(a.hashed_password.as_deref(), Some("h"));
    assert_eq!(a.modify_password("a", "b", true, "t2".into()), Ok(()));
    assert!(validate_password(a.hashed_password.as_deref(), "b"));
    assert!(!validate_password(a.hashed_password.as_deref(), "a"));
    assert_eq!(a.token.as_deref(), Some("t2"));
}

#[test]
fn disable_password_rules() {
    let mut a = auth("password", None, None);
    assert_eq!(a.disable_password("p", true), Err(AuthError::PasswordNotSet));
    let mut a = auth("noPassword", Some("h"), None);
    assert_eq!(a.disable_password("p", true), Err(AuthError::PasswordModeNotEnabled));
    let mut a = auth("password", Some("h"), Some("t"));
    assert_eq!(a.disable_password("", true), Err(AuthError::InvalidRequest));
    assert_eq!(a.disable_password("p", false), Err(AuthError::IncorrectPassword));
    assert_eq!(a.disable_password("p", true), Ok(()));
    assert_eq!(a.mode, "noPassword");
    assert_eq!(a.hashed_password, None);
    assert_eq!(a.token, None);
    assert!(validate_auth_token(&a.mode, None, "anything"));
}

#[test]
fn setup_rules() {
    let mut a = auth("password", None, None);
    assert_eq!(a.setup("noPassword", None, "t".into()), Err(AuthError::AlreadySetUp));
    let mut a = auth("", None, None);
    assert_eq!(a.setup("other", None, "t".into()), Err(AuthError::InvalidAuthMode));
    assert_eq!(a.mode, "");
    assert_eq!(a.setup("password", Some(""), "t".into()), Err(AuthError::PasswordRequired));
    assert_eq!(a.mode, "password");
    let mut a = auth("", None, None);
    assert_eq!(a.setup("password", None, "t".into()), Err(AuthError::PasswordRequired));
    let mut a = auth("", None, None);
    assert_eq!(a.setup("password", Some("pw"), "t".into()), Ok(()));
    assert!(validate_password(a.hashed_password.as_deref(), "pw"));
    assert_eq!(a.token.as_deref(), Some("t"));
    let mut a = auth("", None, None);
    assert_eq!(a.setup("noPassword", Some("pw"), "t".into()), Ok(()));
    assert_eq!(a.mode, "noPassword");
    assert_eq!(a.hashed_password, None);
}
