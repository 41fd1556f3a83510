//! Local authentication: when a token or a password is accepted.
use vstd::prelude::*;
use crate::text::same_text;

verus! {

/// Whether a request token is accepted: always without a password;
/// otherwise it must be the stored token (and not empty).
pub open spec fn token_accepted(auth_mode: Seq<char>, stored: Option<Seq<char>>, token: Seq<char>) -> bool {
    if auth_mode == "noPassword"@ {
        true
    } else {
        match stored {
            Some(t) => token.len() > 0 && token == t,
            None => false,
        }
    }
}

/// Whether a request token is accepted.
pub fn validate_auth_token(auth_mode: &str, stored: Option<&str>, token: &str) -> (r: bool)
    ensures
        r == token_accepted(
            auth_mode@,
            match stored {
                Some(t) => Some(t@),
                None => None,
            },
            token@,
        ),
{
    if same_text(auth_mode, "noPassword") {
        return true;
    }
    match stored {
        Some(t) => token.unicode_len() > 0 && same_text(token, t),
        None => false,
    }
}

/// What `bcrypt::verify` gives for a password and a stored hash: whether
/// they match, or nothing when the hash is malformed.
pub uninterp spec fn bcrypt_verdict(password: Seq<char>, hash: Seq<char>) -> Option<bool>;

/// `bcrypt::verify`: whether the password matches the hash (`None` when the
/// hash cannot be read); the result depends on the two texts alone.
#[verifier::external_body]
fn bcrypt_verify(password: &str, hash: &str) -> (r: Option<bool>)
    ensures
        r == bcrypt_verdict(password@, hash@),
{
    bcrypt::verify(password, hash).ok()
}

/// `bcrypt::hash` at `bcrypt::DEFAULT_COST`: the salt is drawn at random, so
/// nothing fixes which hash comes back; what holds of every hash it gives is
/// that `bcrypt::verify` then accepts the same password against it (verify
/// reads cost and salt back from the hash and recomputes it with the same
/// truncation). `None` when hashing failed.
#[verifier::external_body]
fn bcrypt_hash(password: &str) -> (r: Option<String>)
    ensures
        r matches Some(h) ==> bcrypt_verdict(password@, h@) == Some(true),
{
    bcrypt::hash(password, bcrypt::DEFAULT_COST).ok()
}

/// Hashes a password for storage; the hash is salted at random, and the
/// password checks against it. `None` when hashing failed.
pub fn hash_password(password: &str) -> (r: Option<String>)
    ensures
        r matches Some(h) ==> bcrypt_verdict(password@, h@) == Some(true),
{
    bcrypt_hash(password)
}

/// Whether a password hash was stored for `password`.
pub open spec fn hash_of(stored: Option<String>, password: Seq<char>) -> bool {
    stored matches Some(h) && bcrypt_verdict(password, h@) == Some(true)
}

/// Whether a verification outcome accepts the password: only a match does.
pub fn password_accepted(outcome: Option<bool>) -> (r: bool)
    ensures
        r == (outcome == Some(true)),
{
    match outcome {
        Some(b) => b,
        None => false,
    }
}

/// Whether a password is accepted: there must be a stored hash, and the
/// password must match it.
pub fn validate_password(hashed_password: Option<&str>, password: &str) -> (r: bool)
    ensures
        r == (match hashed_password {
            Some(h) => bcrypt_verdict(password@, h@) == Some(true),
            None => false,
        }),
{
    match hashed_password {
        Some(h) => password_accepted(bcrypt_verify(password, h)),
        None => false,
    }
}


/// Why an authentication request was refused.
#[derive(Debug, Clone, Copy, PartialEq, Eq, Structural)]
pub enum AuthError {
    /// Login is not possible without a password.
    LoginDisabled,
    /// The password does not match.
    InvalidPassword,
    /// A password is already set.
    PasswordAlreadySet,
    /// The password mode is not the one the request needs.
    PasswordModeNotEnabled,
    /// A required password is empty.
    InvalidRequest,
    /// No password is set.
    PasswordNotSet,
    /// The old password does not match.
    IncorrectOldPassword,
    /// The password does not match.
    IncorrectPassword,
    /// The device is already set up.
    AlreadySetUp,
    /// The auth mode is neither `password` nor `noPassword`.
    InvalidAuthMode,
    /// Password mode needs a password.
    PasswordRequired,
    /// The password could not be hashed.
    HashFailed,
}

/// The local authentication settings: the auth mode (`password`,
/// `noPassword`, or empty before setup), the password hash and the session
/// token.
pub struct LocalAuth {
    pub mode: String,
    pub hashed_password: Option<String>,
    pub token: Option<String>,
}

/// Whether an optional text is absent or empty.
pub open spec fn blank(o: Option<&str>) -> bool {
    match o {
        Some(s) => s@.len() == 0,
        None => true,
    }
}

impl LocalAuth {
    /// A login: refused without a password mode, or when the password does
    /// not match (`password_ok` is what checking it gave); otherwise the new
    /// token becomes the session token.
    pub fn login(&mut self, password_ok: bool, new_token: String) -> (r: Result<(), AuthError>)
        ensures
            old(self).mode@ == "noPassword"@ ==> r == Err::<(), AuthError>(AuthError::LoginDisabled),
            old(self).mode@ != "noPassword"@ && !password_ok ==> r == Err::<(), AuthError>(AuthError::InvalidPassword),
            r is Err ==> final(self).mode == old(self).mode && final(self).hashed_password == old(
                self,
            ).hashed_password && final(self).token == old(self).token,
            old(self).mode@ != "noPassword"@ && password_ok ==> r is Ok && final(self).token == Some(new_token)
                && final(self).mode == old(self).mode && final(self).hashed_password == old(self).hashed_password,
    {
        if same_text(self.mode.as_str(), "noPassword") {
            return Err(AuthError::LoginDisabled);
        }
        if !password_ok {
            return Err(AuthError::InvalidPassword);
        }
        self.token = Some(new_token);
        Ok(())
    }

    /// A logout: the session token is dropped.
    pub fn logout(&mut self)
        ensures
            final(self).token is None,
            final(self).mode == old(self).mode,
            final(self).hashed_password == old(self).hashed_password,
    {
        self.token = None;
    }

    /// Setting the first password: refused when one is set, when the mode
    /// is not `noPassword`, or when the password is empty; otherwise the
    /// password is hashed and, unless hashing fails, the hash and the token
    /// are stored and the mode becomes `password`.
    pub fn create_password(&mut self, password: &str, new_token: String) -> (r: Result<(), AuthError>)
        ensures
            old(self).hashed_password is Some ==> r == Err::<(), AuthError>(AuthError::PasswordAlreadySet),
            old(self).hashed_password is None && old(self).mode@ != "noPassword"@ ==> r == Err::<(), AuthError>(
                AuthError::PasswordModeNotEnabled,
            ),
            old(self).hashed_password is None && old(self).mode@ == "noPassword"@ && password@.len() == 0 ==> r
                == Err::<(), AuthError>(AuthError::InvalidRequest),
            old(self).hashed_password is None && old(self).mode@ == "noPassword"@ && password@.len() > 0 ==> (r
                is Ok || r == Err::<(), AuthError>(AuthError::HashFailed)),
            r is Err ==> final(self).mode == old(self).mode && final(self).hashed_password == old(
                self,
            ).hashed_password && final(self).token == old(self).token,
            r is Ok ==> hash_of(final(self).hashed_password, password@) && final(self).token == Some(new_token)
                && final(self).mode@ == "password"@,
    {
        if self.hashed_password.is_some() {
            return Err(AuthError::PasswordAlreadySet);
        }
        if !same_text(self.mode.as_str(), "noPassword") {
            return Err(AuthError::PasswordModeNotEnabled);
        }
        if password.unicode_len() == 0 {
            return Err(AuthError::InvalidRequest);
        }
        let new_hash = match hash_password(password) {
            Some(h) => h,
            None => return Err(AuthError::HashFailed),
        };
        self.hashed_password = Some(new_hash);
        self.token = Some(new_token);
        self.mode = crate::text::owned("password");
        Ok(())
    }

    /// Changing the password: refused without a password, outside password
    /// mode, with an empty old or new password, or when the old one does
    /// not match (`old_ok`); otherwise the new password is hashed and,
    /// unless hashing fails, the new hash and token are stored.
    pub fn modify_password(&mut self, old_password: &str, new_password: &str, old_ok: bool, new_token: String) -> (r: Result<(), AuthError>)
        ensures
            old(self).hashed_password is None ==> r == Err::<(), AuthError>(AuthError::PasswordNotSet),
            old(self).hashed_password is Some && old(self).mode@ != "password"@ ==> r == Err::<(), AuthError>(
                AuthError::PasswordModeNotEnabled,
            ),
            old(self).hashed_password is Some && old(self).mode@ == "password"@ && (old_password@.len() == 0
                || new_password@.len() == 0) ==> r == Err::<(), AuthError>(AuthError::InvalidRequest),
            old(self).hashed_password is Some && old(self).mode@ == "password"@ && old_password@.len() > 0
                && new_password@.len() > 0 && !old_ok ==> r == Err::<(), AuthError>(AuthError::IncorrectOldPassword),
            old(self).hashed_password is Some && old(self).mode@ == "password"@ && old_password@.len() > 0
                && new_password@.len() > 0 && old_ok ==> (r is Ok || r == Err::<(), AuthError>(AuthError::HashFailed)),
            r is Err ==> final(self).mode == old(self).mode && final(self).hashed_password == old(
                self,
            ).hashed_password && final(self).token == old(self).token,
            r is Ok ==> hash_of(final(self).hashed_password, new_password@) && final(self).token == Some(new_token)
                && final(self).mode == old(self).mode,
    {
        if self.hashed_password.is_none() {
            return Err(AuthError::PasswordNotSet);
        }
        if !same_text(self.mode.as_str(), "password") {
            return Err(AuthError::PasswordModeNotEnabled);
        }
        if old_password.unicode_len() == 0 || new_password.unicode_len() == 0 {
            return Err(AuthError::InvalidRequest);
        }
        if !old_ok {
            return Err(AuthError::IncorrectOldPassword);
        }
        let new_hash = match hash_password(new_password) {
            Some(h) => h,
            None => return Err(AuthError::HashFailed),
        };
        self.hashed_password = Some(new_hash);
        self.token = Some(new_token);
        Ok(())
    }

    /// Switching the password off: refused without a password, outside
    /// password mode, with an empty password, or when it does not match
    /// (`password_ok`); otherwise hash and token are dropped and the mode
    /// becomes `noPassword`.
    pub fn disable_password(&mut self, password: &str, password_ok: bool) -> (r: Result<(), AuthError>)
        ensures
            old(self).hashed_password is None ==> r == Err::<(), AuthError>(AuthError::PasswordNotSet),
            old(self).hashed_password is Some && old(self).mode@ != "password"@ ==> r == Err::<(), AuthError>(
                AuthError::PasswordModeNotEnabled,
            ),
            old(self).hashed_password is Some && old(self).mode@ == "password"@ && password@.len() == 0 ==> r
                == Err::<(), AuthError>(AuthError::InvalidRequest),
            old(self).hashed_password is Some && old(self).mode@ == "password"@ && password@.len() > 0
                && !password_ok ==> r == Err::<(), AuthError>(AuthError::IncorrectPassword),
            r is Err ==> final(self).mode == old(self).mode && final(self).hashed_password == old(
                self,
            ).hashed_password && final(self).token == old(self).token,
            old(self).hashed_password is Some && old(self).mode@ == "password"@ && password@.len() > 0
                && password_ok ==> r is Ok && final(self).hashed_password is None && final(self).token is None
                && final(self).mode@ == "noPassword"@,
    {
        if self.hashed_password.is_none() {
            return Err(AuthError::PasswordNotSet);
        }
        if !same_text(self.mode.as_str(), "password") {
            return Err(AuthError::PasswordModeNotEnabled);
        }
        if password.unicode_len() == 0 {
            return Err(AuthError::InvalidRequest);
        }
        if !password_ok {
            return Err(AuthError::IncorrectPassword);
        }
        self.hashed_password = None;
        self.token = None;
        self.mode = crate::text::owned("noPassword");
        Ok(())
    }

    /// The first setup: refused once a mode or a password is set, and for a
    /// mode that is neither `password` nor `noPassword`; otherwise the mode
    /// is stored (also when what follows fails). Password mode then needs a
    /// non-empty password, which is hashed; unless hashing fails, the hash
    /// and a new token are stored. Without a password, hash and token are
    /// dropped.
    pub fn setup(&mut self, mode: &str, password: Option<&str>, new_token: String) -> (r: Result<(), AuthError>)
        ensures
            (old(self).mode@.len() > 0 || old(self).hashed_password is Some) ==> r == Err::<(), AuthError>(
                AuthError::AlreadySetUp,
            ) && final(self).mode == old(self).mode && final(self).hashed_password == old(self).hashed_password
                && final(self).token == old(self).token,
            (old(self).mode@.len() == 0 && old(self).hashed_password is None) ==> {
                &&& (mode@ != "password"@ && mode@ != "noPassword"@) ==> r == Err::<(), AuthError>(
                    AuthError::InvalidAuthMode,
                ) && final(self).mode == old(self).mode && final(self).hashed_password == old(self).hashed_password
                    && final(self).token == old(self).token
                &&& mode@ == "password"@ && blank(password) ==> r == Err::<(), AuthError>(AuthError::PasswordRequired)
                    && final(self).mode@ == mode@ && final(self).hashed_password == old(self).hashed_password
                    && final(self).token == old(self).token
                &&& mode@ == "password"@ && !blank(password) && r is Ok ==> final(self).mode@ == mode@
                    && hash_of(final(self).hashed_password, password.unwrap()@) && final(self).token == Some(new_token)
                &&& mode@ == "password"@ && !blank(password) && r is Err ==> r == Err::<(), AuthError>(
                    AuthError::HashFailed,
                ) && final(self).mode@ == mode@ && final(self).hashed_password == old(self).hashed_password
                    && final(self).token == old(self).token
                &&& mode@ == "noPassword"@ ==> r is Ok && final(self).mode@ == mode@ && final(self).hashed_password is None
                    && final(self).token is None
            },
    {
        proof {
            reveal_strlit("password");
            reveal_strlit("noPassword");
            assert("password"@.len() != "noPassword"@.len());
        }
        if self.mode.as_str().unicode_len() > 0 || self.hashed_password.is_some() {
            return Err(AuthError::AlreadySetUp);
        }
        let is_password = same_text(mode, "password");
        if !is_password && !same_text(mode, "noPassword") {
            return Err(AuthError::InvalidAuthMode);
        }
        self.mode = crate::text::owned(mode);
        if is_password {
            let p = match password {
                Some(p) => p,
                None => return Err(AuthError::PasswordRequired),
            };
            if p.unicode_len() == 0 {
                return Err(AuthError::PasswordRequired);
            }
            let new_hash = match hash_password(p) {
                Some(h) => h,
                None => return Err(AuthError::HashFailed),
            };
            self.hashed_password = Some(new_hash);
            self.token = Some(new_token);
        } else {
            self.hashed_password = None;
            self.token = None;
        }
        Ok(())
    }
}

/// After a successful login, password setting or password change, the new
/// token is accepted for requests.
pub proof fn lemma_new_token_accepted(auth: LocalAuth, new_token: String)
    requires
        auth.token == Some(new_token),
        new_token@.len() > 0,
    ensures
        token_accepted(auth.mode@, Some(auth.token.unwrap()@), new_token@),
{
}

/// After the password is switched off, any token is accepted.
pub proof fn lemma_no_password_accepts_all(auth: LocalAuth, token: Seq<char>)
    requires
        auth.mode@ == "noPassword"@,
    ensures
        token_accepted(
            auth.mode@,
            match auth.token {
                Some(t) => Some(t@),
                None => None,
            },
            token,
        ),
{
}

/// After a logout in password mode, no token is accepted.
pub proof fn lemma_logout_refuses(auth: LocalAuth, token: Seq<char>)
    requires
        auth.mode@ != "noPassword"@,
        auth.token is None,
    ensures
        !token_accepted(auth.mode@, None, token),
{
}

} // verus!
