//! The orchestrating service of the authentication core.
//!
//! A user record moves through exactly one transition, created unverified
//! and then verified, and the flows here drive it: `register` validates,
//! applies the strength policy, hashes, persists and notifies; `login`
//! checks the password and the verified flag and issues a token; `verify`
//! consumes a one-time verification token. Every lower-level failure is
//! translated into exactly one `AuthError` kind before it leaves this
//! boundary.

use vstd::prelude::*;

use crate::directory::UserDirectory;
use crate::directory::UserModel;
use crate::directory::User;
use crate::directory::email_index;
use crate::directory::has_email;
use crate::directory::has_id;
use crate::directory::has_token;
use crate::directory::token_index;
use crate::directory::verified_model;
use crate::errors::AuthError;
use crate::models::AuthCredentialsDto;
use crate::models::AuthResponse;
use crate::models::Keys;
use crate::password::MAX_HASHER_INPUT_BYTES;
use crate::password::argon2_check;
use crate::token::jwt_claims_of;
use crate::validate::MIN_PASSWORD_CHARS;
use crate::validate::email_ok;
use crate::validate::violations;
use crate::verification::VERIFICATION_TOKEN_CHARS;

verus! {

/// The stateless orchestrator of the register, login and verify-email
/// flows. Its operations are grouped by concern: password handling in
/// `password`, credential shape in `validate`, tokens in `token`,
/// verification tokens in `verification`, and the flows themselves here.
pub struct AuthService;

/// Structural acceptability of submitted credentials: the email matches
/// the grammar and the password is long enough.
pub open spec fn shape_ok(email: Seq<char>, password: Seq<char>) -> bool {
    email_ok(email) && password.len() >= MIN_PASSWORD_CHARS
}

/// The stored record for `email` admits a login with `password`: the
/// record exists, the password matches its hash, and it is verified.
pub open spec fn login_allowed(m: Seq<UserModel>, email: Seq<char>, password: Seq<char>) -> bool {
    &&& has_email(m, email)
    &&& argon2_check(password, m[email_index(m, email)].password) == Ok::<bool, ()>(true)
    &&& m[email_index(m, email)].verified
}

/// One new record `u` as a registration for `email` leaves it: unverified,
/// with a fresh verification token of the fixed length, an id new to
/// `m0`, and a stored hash that matches `password` and is well formed —
/// checking any candidate within the hasher's input range against it
/// yields a match or a mismatch, never the malformed-hash error.
pub open spec fn fresh_registration(
    m0: Seq<UserModel>,
    u: UserModel,
    email: Seq<char>,
    password: Seq<char>,
) -> bool {
    &&& u.email == email
    &&& !u.verified
    &&& u.verification_token matches Some(t) && t.len() == VERIFICATION_TOKEN_CHARS
    &&& argon2_check(password, u.password) == Ok::<bool, ()>(true)
    &&& forall|x: Seq<char>|
        4 * x.len() <= MAX_HASHER_INPUT_BYTES ==> (#[trigger] argon2_check(x, u.password)) is Ok
    &&& !has_id(m0, u.id)
}

/// The directory went from `m0` to `m1` by gaining exactly one new
/// record, a fresh registration for `email` with `password`.
pub open spec fn registration_added(
    m0: Seq<UserModel>,
    m1: Seq<UserModel>,
    email: Seq<char>,
    password: Seq<char>,
) -> bool {
    exists|u: UserModel|
        {
            &&& m1 == #[trigger] m0.push(u)
            &&& fresh_registration(m0, u, email, password)
        }
}

impl AuthService {
    /// True exactly when a record with this email exists; a read-only
    /// helper with no side effects.
    pub fn email_exists(directory: &UserDirectory, email: &str) -> (r: bool)
        ensures
            r == has_email(directory@, email@),
    {
        directory.exists_by_email(email)
    }

    /// The record with this email; a read-only helper with no side
    /// effects.
    pub fn find_user_by_email(directory: &UserDirectory, email: &str) -> (r: Result<User, String>)
        requires
            directory.wf(),
        ensures
            r is Ok <==> has_email(directory@, email@),
            r matches Ok(u) ==> u@ == directory@[email_index(directory@, email@)],
    {
        match directory.find_by_email(email) {
            Some(u) => Ok(u),
            None => Err("user not found".to_owned()),
        }
    }

    /// Fetches the record for the email and checks the password and the
    /// verified flag against it. An unknown email and a wrong password
    /// fail alike, so a caller cannot tell which; an unverified account
    /// is reported as such, and a record whose stored hash cannot be
    /// read is a hasher failure.
    pub fn find_user(directory: &UserDirectory, email: &str, password: &str) -> (r: Result<
        User,
        AuthError,
    >)
        requires
            directory.wf(),
        ensures
            !has_email(directory@, email@) ==> (r matches Err(e) && e is WrongCredentials),
            has_email(directory@, email@) ==> {
                let u = directory@[email_index(directory@, email@)];
                match argon2_check(password@, u.password) {
                    Ok(b) => {
                        if !b {
                            r matches Err(e) && e is WrongCredentials
                        } else if !u.verified {
                            r matches Err(e) && e is EmailNotVerified
                        } else {
                            r matches Ok(ru) && ru@ == u
                        }
                    },
                    Err(_) => r matches Err(e) && e is HashingError,
                }
            },
    {
        let user = match directory.find_by_email(email) {
            Some(u) => u,
            None => { return Err(AuthError::WrongCredentials) },
        };
        match Self::verify_password(password, user.password.as_str()) {
            Ok(true) => {},
            Ok(false) => { return Err(AuthError::WrongCredentials) },
            Err(_) => { return Err(AuthError::HashingError) },
        }
        if !user.verified {
            return Err(AuthError::EmailNotVerified);
        }
        Ok(user)
    }

    /// The login flow: fetch, check password, require the verified flag,
    /// and issue a session token for the record's id and email.
    pub fn login(directory: &UserDirectory, keys: &Keys, email: &str, password: &str) -> (r:
        Result<AuthResponse, AuthError>)
        requires
            directory.wf(),
        ensures
            r matches Ok(resp) ==> {
                &&& login_allowed(directory@, email@, password@)
                &&& resp.token_type@ == "Bearer"@
                &&& jwt_claims_of(keys@, resp.token@) matches Some(c) && c.0 == directory@[
                    email_index(directory@, email@)
                ].id && c.1 == email@
            },
            !has_email(directory@, email@) ==> (r matches Err(e) && e is WrongCredentials),
            has_email(directory@, email@) ==> {
                let u = directory@[email_index(directory@, email@)];
                match argon2_check(password@, u.password) {
                    Ok(b) => {
                        if !b {
                            r matches Err(e) && e is WrongCredentials
                        } else if !u.verified {
                            r matches Err(e) && e is EmailNotVerified
                        } else {
                            r is Ok || (r matches Err(e) && e is TokenCreationError)
                        }
                    },
                    Err(_) => r matches Err(e) && e is HashingError,
                }
            },
    {
        let user = match Self::find_user(directory, email, password) {
            Ok(u) => u,
            Err(e) => { return Err(e) },
        };
        Self::create_auth_response(keys, &user)
    }

    /// Persists a new unverified record for the email: hashes the
    /// password under a fresh salt, draws a verification token, inserts,
    /// and then notifies. A notification failure is surfaced, but the
    /// created record deliberately stays: the flow does not roll back.
    pub fn create_user(directory: &mut UserDirectory, email: &str, password: &str) -> (r: Result<
        (),
        AuthError,
    >)
        requires
            old(directory).wf(),
        ensures
            final(directory).wf(),
            match r {
                Ok(_) => registration_added(old(directory)@, final(directory)@, email@, password@),
                Err(e) => {
                    &&& (e is HashingError || e is PersistenceError || e is NotificationError)
                    &&& e is NotificationError ==> registration_added(
                        old(directory)@,
                        final(directory)@,
                        email@,
                        password@,
                    )
                    &&& (e is HashingError || e is PersistenceError) ==> *final(directory) == *old(directory)
                },
            },
            has_email(old(directory)@, email@) ==> (r matches Err(e) && (e is PersistenceError
                || e is HashingError)),
    {
        let created_at = crate::token::now_ts();
        let password_hash = match Self::hash_password(password) {
            Ok(h) => h,
            Err(_) => { return Err(AuthError::HashingError) },
        };
        let verification_token = Self::generate_verification_token();
        let user = match directory.insert(
            email,
            password_hash.as_str(),
            created_at,
            verification_token.as_str(),
        ) {
            Ok(u) => u,
            Err(_) => { return Err(AuthError::PersistenceError) },
        };
        proof {
            let u_m = user@;
            assert(final(directory)@ == old(directory)@.push(u_m));
            assert(registration_added(old(directory)@, final(directory)@, email@, password@));
        }
        match Self::send_verification_email(email, verification_token.as_str()) {
            Ok(_) => Ok(()),
            Err(_) => Err(AuthError::NotificationError),
        }
    }

    /// The registration flow: validate the credential shape, apply the
    /// strength policy, refuse a taken email, and persist and notify.
    /// Rejections leave the directory untouched; only a successful
    /// insert (even one whose notification then fails) adds a record.
    pub fn register(directory: &mut UserDirectory, auth_credentials_dto: &AuthCredentialsDto) -> (r:
        Result<(), AuthError>)
        requires
            old(directory).wf(),
        ensures
            final(directory).wf(),
            !shape_ok(auth_credentials_dto.email@, auth_credentials_dto.password@) ==> {
                &&& r matches Err(e) && e matches AuthError::ValidationError(v) && v.issues@
                    == violations(auth_credentials_dto.email@, auth_credentials_dto.password@)
                &&& *final(directory) == *old(directory)
            },
            shape_ok(auth_credentials_dto.email@, auth_credentials_dto.password@) ==> match r {
                Ok(_) => !has_email(old(directory)@, auth_credentials_dto.email@)
                    && registration_added(
                    old(directory)@,
                    final(directory)@,
                    auth_credentials_dto.email@,
                    auth_credentials_dto.password@,
                ),
                Err(e) => {
                    &&& (e is WeakPassword || e is EmailAlreadyExists || e is HashingError
                        || e is PersistenceError || e is NotificationError)
                    &&& e is EmailAlreadyExists ==> has_email(
                        old(directory)@,
                        auth_credentials_dto.email@,
                    )
                    &&& e is NotificationError ==> registration_added(
                        old(directory)@,
                        final(directory)@,
                        auth_credentials_dto.email@,
                        auth_credentials_dto.password@,
                    )
                    &&& !(e is NotificationError) ==> *final(directory) == *old(directory)
                },
            },
            shape_ok(auth_credentials_dto.email@, auth_credentials_dto.password@) && has_email(
                old(directory)@,
                auth_credentials_dto.email@,
            ) ==> (r matches Err(e) && (e is WeakPassword || e is EmailAlreadyExists)) && *final(directory) == *old(directory),
            r is Ok ==> shape_ok(auth_credentials_dto.email@, auth_credentials_dto.password@)
                && !has_email(old(directory)@, auth_credentials_dto.email@) && registration_added(
                old(directory)@,
                final(directory)@,
                auth_credentials_dto.email@,
                auth_credentials_dto.password@,
            ),
    {
        if let Err(errors) = Self::validate_credentials(auth_credentials_dto) {
            return Err(AuthError::ValidationError(errors));
        }
        if let Err(_) = Self::check_password_strength(auth_credentials_dto.password.as_str()) {
            return Err(AuthError::WeakPassword);
        }
        if Self::email_exists(directory, auth_credentials_dto.email.as_str()) {
            return Err(AuthError::EmailAlreadyExists);
        }
        Self::create_user(
            directory,
            auth_credentials_dto.email.as_str(),
            auth_credentials_dto.password.as_str(),
        )
    }

    /// The email-verification flow: the record still carrying the
    /// one-time token, if any, becomes verified and the token is
    /// consumed; a token matching no record is rejected and nothing
    /// changes.
    pub fn verify(directory: &mut UserDirectory, token: &str) -> (r: Result<(), AuthError>)
        requires
            old(directory).wf(),
        ensures
            final(directory).wf(),
            !has_token(old(directory)@, token@) ==> (r matches Err(e)
                && e is InvalidOrExpiredToken) && *final(directory) == *old(directory),
            has_token(old(directory)@, token@) ==> r is Ok && final(directory)@ == old(
                directory,
            )@.update(
                token_index(old(directory)@, token@),
                verified_model(old(directory)@[token_index(old(directory)@, token@)]),
            ),
    {
        let user = match directory.find_by_verification_token(token) {
            Some(u) => u,
            None => { return Err(AuthError::InvalidOrExpiredToken) },
        };
        proof {
            let ti = token_index(old(directory)@, token@);
            assert(0 <= ti < old(directory)@.len() && old(directory)@[ti].id == user@.id);
            assert(has_id(old(directory)@, user@.id));
        }
        let updated = directory.mark_verified(user.id);
        proof {
            if updated {
                let ti = token_index(old(directory)@, token@);
                let ii = crate::directory::id_index(old(directory)@, user.id as int);
                assert(0 <= ii < old(directory)@.len() && old(directory)@[ii].id
                    == user.id as int);
                assert(ii == ti);
            }
        }
        if updated {
            Ok(())
        } else {
            Err(AuthError::PersistenceError)
        }
    }
}

/// After a registration has added a record for an email, the directory
/// holds that email, so a second registration of it is the conflict case
/// of `register`: it is rejected with `EmailAlreadyExists` and changes
/// nothing.
pub proof fn lemma_duplicate_registration_rejected(
    m0: Seq<UserModel>,
    m1: Seq<UserModel>,
    email: Seq<char>,
    password: Seq<char>,
)
    requires
        registration_added(m0, m1, email, password),
    ensures
        has_email(m1, email),
{
    let u = choose|u: UserModel|
        {
            &&& m1 == #[trigger] m0.push(u)
            &&& fresh_registration(m0, u, email, password)
        };
    assert(m1[m1.len() - 1].email == email);
}

} // verus!
