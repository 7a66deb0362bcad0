//! Logging in and out, and setting the administrator password, with Argon2
//! doing the hashing.
use vstd::prelude::*;
use argon2::password_hash::rand_core::OsRng;
use argon2::password_hash::{PasswordHash, SaltString};
use argon2::{Argon2, PasswordHasher, PasswordVerifier};
use crate::text::{trim, trimmed};
use crate::types::{
    make_status_reply, make_text_reply, status_reply, text_reply, Reply, ReplyView, StatusCode,
};

verus! {

/// What checking `password` against the PHC hash string `hash` with Argon2's
/// default context gives: `Some(true)` where it matches, `Some(false)` where
/// it does not, `None` where `hash` is not a PHC hash string.
pub uninterp spec fn argon2_verdict(hash: Seq<char>, password: Seq<char>) -> Option<bool>;

/// Calls `PasswordHash::new` on `hash` and, where it parses,
/// `Argon2::default().verify_password` on the UTF-8 bytes of `password`.
/// Trusted to return [`argon2_verdict`] of the two strings: both calls are
/// deterministic functions of their arguments. A hash whose parameters ask
/// for more memory than the machine has makes the process abort; that is not
/// stated.
#[verifier::external_body]
fn argon2_verify(hash: &str, password: &str) -> (r: Option<bool>)
    ensures
        r == argon2_verdict(hash@, password@),
{
    match PasswordHash::new(hash) {
        Ok(parsed) => Some(Argon2::default().verify_password(password.as_bytes(), &parsed).is_ok()),
        Err(_) => None,
    }
}

/// The largest password, in bytes, that Argon2 hashes (`argon2::MAX_PWD_LEN`).
pub open spec fn max_password_len() -> nat {
    0xFFFF_FFFF
}

/// Hashes the UTF-8 bytes of `password` with `Argon2::default().hash_password`
/// and a salt from `SaltString::generate(&mut OsRng)`, and renders the PHC
/// string. The salt is random, so the string itself is not stated; trusted:
/// it is produced for every password within Argon2's length limit (the only
/// error `hash_password` raises for a generated salt), and it verifies the
/// password it was made from, since verification recomputes the hash with
/// the salt and parameters that the string records. `OsRng` panics where
/// the operating system cannot supply randomness; that is not stated.
#[verifier::external_body]
fn argon2_hash(password: &str) -> (r: Option<String>)
    ensures
        password.len() <= max_password_len() ==> r is Some,
        r matches Some(h) ==> argon2_verdict(h@, password@) == Some(true),
{
    let salt = SaltString::generate(&mut OsRng);
    match Argon2::default().hash_password(password.as_bytes(), &salt) {
        Ok(h) => Some(h.to_string()),
        Err(_) => None,
    }
}

/// How the password set in the environment judges a login attempt.
pub enum EnvVerdict {
    /// No password is set in the environment.
    NotConfigured,
    /// The attempt matches (`true`) or not (`false`).
    Checked(bool),
    /// The environment password is declared an Argon2 hash but is not one.
    InvalidHash,
}

/// Judges a login attempt by the environment password: an Argon2 hash where
/// `hashed` (a hash algorithm is configured), otherwise compared as plain
/// text.
pub fn env_password_verdict(password: &Option<String>, hashed: bool, attempt: &String) -> (r: EnvVerdict)
    ensures
        password is None ==> r is NotConfigured,
        password matches Some(p) ==> (if hashed {
            match argon2_verdict(p@, attempt@) {
                Some(b) => r == EnvVerdict::Checked(b),
                None => r is InvalidHash,
            }
        } else {
            r == EnvVerdict::Checked(p@ == attempt@)
        }),
{
    match password {
        None => EnvVerdict::NotConfigured,
        Some(p) => if hashed {
            match argon2_verify(p.as_str(), attempt.as_str()) {
                Some(b) => EnvVerdict::Checked(b),
                None => EnvVerdict::InvalidHash,
            }
        } else {
            EnvVerdict::Checked(p.eq(attempt))
        },
    }
}

/// How a password hash kept in the store judges a login attempt: `None`
/// where no password is stored; otherwise whether the attempt verifies
/// against the stored Argon2 hash (a stored string that is not a PHC hash
/// admits nobody).
pub open spec fn stored_verdict_of(stored_hash: Option<Seq<char>>, attempt: Seq<char>) -> Option<bool> {
    match stored_hash {
        Some(h) => Some(argon2_verdict(h, attempt) == Some(true)),
        None => None,
    }
}

/// Judges a login attempt by the password hash in the store (see
/// [`stored_verdict_of`]); consulted where no password is set in the
/// environment.
pub fn stored_password_verdict(stored_hash: &Option<String>, attempt: &String) -> (r: Option<bool>)
    ensures
        r == stored_verdict_of(stored_hash.deep_view(), attempt@),
{
    match stored_hash {
        Some(h) => match argon2_verify(h.as_str(), attempt.as_str()) {
            Some(true) => Some(true),
            _ => Some(false),
        },
        None => None,
    }
}

/// What a login attempt is judged by, step by step.
pub enum Authorization {
    /// The verdict on the password: `None` where no password is configured
    /// at all.
    Verdict(Option<bool>),
    /// The environment password is declared an Argon2 hash but is not one.
    InvalidEnvHash,
    /// No password is set in the environment: look up the stored hash and
    /// decide again with it.
    AskStore,
}

/// The environment password decides where it is set; otherwise the stored
/// hash, once looked up (`stored` is `None` until then).
pub open spec fn authorization_of(
    env_password: Option<Seq<char>>,
    hashed: bool,
    stored: Option<Option<Seq<char>>>,
    attempt: Seq<char>,
) -> Authorization {
    match env_password {
        Some(p) => if hashed {
            match argon2_verdict(p, attempt) {
                Some(b) => Authorization::Verdict(Some(b)),
                None => Authorization::InvalidEnvHash,
            }
        } else {
            Authorization::Verdict(Some(p == attempt))
        },
        None => match stored {
            None => Authorization::AskStore,
            Some(h) => Authorization::Verdict(stored_verdict_of(h, attempt)),
        },
    }
}

/// Judges a login attempt (see [`authorization_of`]).
pub fn login_authorization(
    env_password: &Option<String>,
    hashed: bool,
    stored: Option<Option<String>>,
    attempt: &String,
) -> (r: Authorization)
    ensures
        r == authorization_of(env_password.deep_view(), hashed, stored.deep_view(), attempt@),
{
    match env_password_verdict(env_password, hashed, attempt) {
        EnvVerdict::Checked(b) => Authorization::Verdict(Some(b)),
        EnvVerdict::InvalidHash => Authorization::InvalidEnvHash,
        EnvVerdict::NotConfigured => match stored {
            None => Authorization::AskStore,
            Some(h) => Authorization::Verdict(stored_password_verdict(&h, attempt)),
        },
    }
}

/// The result of a login attempt.
pub enum Login {
    /// Turn the caller away with this reply.
    Refuse(Reply),
    /// Open a session for the caller, then answer with this reply.
    Admit(Reply),
}

/// Whether a login attempt is admitted. `authorized` is the verdict on the
/// password, `None` where no password is configured at all, in which case
/// anyone is admitted.
pub open spec fn login_admits(authorized: Option<bool>) -> bool {
    authorized != Some(false)
}

/// What a login attempt is answered: "Correct password!" with 200 where it
/// is admitted, "Wrong password!" with 401 where not; JSON where an API key
/// is configured, otherwise plain text.
pub open spec fn login_answer(api_key_configured: bool, authorized: Option<bool>) -> ReplyView {
    if login_admits(authorized) {
        if api_key_configured {
            status_reply(StatusCode::OK, "Correct password!"@)
        } else {
            text_reply(StatusCode::OK, "Correct password!"@)
        }
    } else {
        if api_key_configured {
            status_reply(StatusCode::Unauthorized, "Wrong password!"@)
        } else {
            text_reply(StatusCode::Unauthorized, "Wrong password!"@)
        }
    }
}

/// Decides a login attempt (see [`login_answer`]).
pub fn login_outcome(api_key_configured: bool, authorized: Option<bool>) -> (r: Login)
    ensures
        r is Admit == login_admits(authorized),
        r matches Login::Admit(reply) ==> reply@ == login_answer(api_key_configured, authorized),
        r matches Login::Refuse(reply) ==> reply@ == login_answer(api_key_configured, authorized),
{
    let admitted = match authorized {
        Some(false) => false,
        _ => true,
    };
    if admitted {
        let reason = String::from_str("Correct password!");
        if api_key_configured {
            Login::Admit(make_status_reply(StatusCode::OK, reason))
        } else {
            Login::Admit(make_text_reply(StatusCode::OK, reason))
        }
    } else {
        let reason = String::from_str("Wrong password!");
        if api_key_configured {
            Login::Refuse(make_status_reply(StatusCode::Unauthorized, reason))
        } else {
            Login::Refuse(make_text_reply(StatusCode::Unauthorized, reason))
        }
    }
}

/// Why setting a password is refused, if it is: a password already set in
/// the environment or in the store (403), or one that is empty or only
/// white space (400).
pub open spec fn set_password_refusal(
    env_password_set: bool,
    stored_password_set: bool,
    password: Seq<char>,
) -> Option<ReplyView> {
    if env_password_set {
        Some(status_reply(StatusCode::Forbidden, "Password is already configured via environment variable."@))
    } else if stored_password_set {
        Some(status_reply(StatusCode::Forbidden, "Password is already configured."@))
    } else if trim(password).len() == 0 {
        Some(status_reply(StatusCode::BadRequest, "Password cannot be empty."@))
    } else {
        None
    }
}

/// Decides a request to set the administrator password. Where it is
/// refused (see [`set_password_refusal`]) the result is the reply; otherwise
/// it is the Argon2 hash to store, which verifies `password`.
pub fn set_password_plan(env_password_set: bool, stored_password_set: bool, password: &str) -> (r: Result<String, Reply>)
    requires
        set_password_refusal(env_password_set, stored_password_set, password@) is None
            ==> password.len() <= max_password_len(),
    ensures
        set_password_refusal(env_password_set, stored_password_set, password@) is Some <==> r is Err,
        r matches Err(reply) ==> Some(reply@) == set_password_refusal(
            env_password_set,
            stored_password_set,
            password@,
        ),
        r matches Ok(hash) ==> argon2_verdict(hash@, password@) == Some(true),
{
    if env_password_set {
        return Err(
            make_status_reply(
                StatusCode::Forbidden,
                String::from_str("Password is already configured via environment variable."),
            ),
        );
    }
    if stored_password_set {
        return Err(
            make_status_reply(StatusCode::Forbidden, String::from_str("Password is already configured.")),
        );
    }
    if trimmed(password).unicode_len() == 0 {
        return Err(
            make_status_reply(StatusCode::BadRequest, String::from_str("Password cannot be empty.")),
        );
    }
    match argon2_hash(password) {
        Some(h) => Ok(h),
        // Not reached: the password is within Argon2's length limit.
        None => Err(
            make_status_reply(StatusCode::InternalServerError, String::from_str("Error hashing password.")),
        ),
    }
}

/// What storing the new password hash answers: 200 where it was stored, 500
/// otherwise.
pub open spec fn password_stored_answer(stored: bool) -> ReplyView {
    if stored {
        status_reply(StatusCode::OK, "Password has been set."@)
    } else {
        status_reply(StatusCode::InternalServerError, "Failed to store password."@)
    }
}

/// Answers a password store (see [`password_stored_answer`]).
pub fn password_stored_reply(stored: bool) -> (r: Reply)
    ensures
        r@ == password_stored_answer(stored),
{
    if stored {
        make_status_reply(StatusCode::OK, String::from_str("Password has been set."))
    } else {
        make_status_reply(StatusCode::InternalServerError, String::from_str("Failed to store password."))
    }
}

/// What logging out answers: 200 where a session token was removed, 401
/// where there was none.
pub fn logout_reply(removed: bool) -> (r: Reply)
    ensures
        removed ==> r@ == text_reply(StatusCode::OK, "Logged out!"@),
        !removed ==> r@ == text_reply(StatusCode::Unauthorized, "You don't seem to be logged in."@),
{
    if removed {
        make_text_reply(StatusCode::OK, String::from_str("Logged out!"))
    } else {
        make_text_reply(StatusCode::Unauthorized, String::from_str("You don't seem to be logged in."))
    }
}

} // verus!
