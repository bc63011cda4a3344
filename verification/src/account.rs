//! Identities, and the decisions of registration, login and password change.
//!
//! The identity store itself is reached by the caller: the functions here
//! take what the store answered and say what to do next.

use vstd::prelude::*;
use crate::config::Settings;
use crate::error::{response_of, status_of, AppError, Failure, TokenFault};
use crate::ident::UserId;
use crate::json::signed_token;
use crate::password::{
    hash_password, is_hashing_failure, is_unreadable_hash, phc_hash, phc_verdict, verify_password,
};
use crate::role::{role_of_name, UserRole};
use crate::token::{
    expiry, is_lifetime_fault, minted, payload_of, text_of, unix_now, Claims,
};

verus! {

/// Fewest characters a password may have.
pub const MIN_PASSWORD_LENGTH: usize = 8;

/// Status code of a successful registration.
pub const STATUS_CREATED: u16 = 201;

/// An identity as the store holds it.
#[derive(Debug, Clone)]
pub struct User {
    pub id: UserId,
    pub email: String,
    pub password_hash: String,
    pub first_name: Option<String>,
    pub last_name: Option<String>,
    pub role: UserRole,
    pub is_active: bool,
    /// Microseconds since the Unix epoch.
    pub created_at: i64,
    /// Microseconds since the Unix epoch.
    pub updated_at: i64,
}

/// The public view of an identity. It has no field for the password hash.
#[derive(Debug, Clone)]
pub struct UserResponse {
    pub id: UserId,
    pub email: String,
    pub first_name: Option<String>,
    pub last_name: Option<String>,
    pub role: UserRole,
    pub is_active: bool,
    /// Microseconds since the Unix epoch.
    pub created_at: i64,
    /// Microseconds since the Unix epoch.
    pub updated_at: i64,
}

/// What a new account is asked for. The role is given by its wire name.
#[derive(Debug, Clone)]
pub struct RegisterRequest {
    pub email: String,
    pub password: String,
    pub first_name: Option<String>,
    pub last_name: Option<String>,
    pub role: String,
}

/// What a login presents.
#[derive(Debug, Clone)]
pub struct LoginRequest {
    pub email: String,
    pub password: String,
}

/// What a change of password presents: the password in use and the one to
/// replace it.
#[derive(Debug, Clone)]
pub struct ChangePasswordRequest {
    pub current_password: String,
    pub new_password: String,
}

/// A freshly issued token.
#[derive(Debug, Clone)]
pub struct AuthResponse {
    pub token: String,
}

/// Answer to a successful login.
#[derive(Debug, Clone)]
pub struct LoginResponse {
    pub token: String,
    pub user: UserResponse,
}

/// The identity that the store is asked to insert: the password is present
/// only as its hash.
#[derive(Debug, Clone)]
pub struct NewUser {
    pub email: String,
    pub password_hash: String,
    pub first_name: Option<String>,
    pub last_name: Option<String>,
    pub role: UserRole,
}

/// How a call to the identity store failed.
#[derive(Debug, Clone, Copy, PartialEq, Eq, Structural)]
pub enum StoreFaultKind {
    /// A uniqueness constraint refused the write.
    UniqueViolation,
    /// No row matched.
    RowNotFound,
    /// Anything else.
    Other,
}

/// A failure of the identity store, with the store's own description.
#[derive(Debug, Clone)]
pub struct StoreFault {
    pub kind: StoreFaultKind,
    pub detail: String,
}

/// Whether a text has the shape of an e-mail address, as the `validator`
/// crate judges it.
pub uninterp spec fn email_shape(email: Seq<char>) -> bool;

/// Calls `validator::validate_email`. Claimed: the call is a function of the
/// text, named [`email_shape`].
#[verifier::external_body]
fn email_check(email: &str) -> (ok: bool)
    ensures
        ok == email_shape(email@),
{
    validator::validate_email(email)
}

/// The entry of one violated field in the text of a validation failure: the
/// entries of the violated fields follow each other, one per line.
pub open spec fn entry_after(any_before: bool, violated: bool, entry: Seq<char>) -> Seq<char> {
    if !violated {
        Seq::empty()
    } else if any_before {
        "\n"@ + entry
    } else {
        entry
    }
}

/// The text that names every violated field of a registration.
pub open spec fn registration_violations(email_bad: bool, password_bad: bool, role_bad: bool)
    -> Seq<char> {
    entry_after(false, email_bad, "email: Invalid email address"@) + entry_after(
        email_bad,
        password_bad,
        "password: Password must be at least 8 characters"@,
    ) + entry_after(email_bad || password_bad, role_bad, "role: Unknown role"@)
}

/// The text that names every violated field of a login.
pub open spec fn login_violations(email_bad: bool, password_bad: bool) -> Seq<char> {
    entry_after(false, email_bad, "email: Invalid email address"@) + entry_after(
        email_bad,
        password_bad,
        "password: Password is required"@,
    )
}

/// What validating a registration answers, given the verdict on each field.
pub open spec fn registration_check(email_ok: bool, password_length: nat, role_known: bool)
    -> Option<Failure> {
    if email_ok && password_length >= 8 && role_known {
        None
    } else {
        Some(
            Failure::Validation(
                registration_violations(!email_ok, password_length < 8, !role_known),
            ),
        )
    }
}

/// What validating a login answers, given the verdict on each field.
pub open spec fn login_check(email_ok: bool, password_length: nat) -> Option<Failure> {
    if email_ok && password_length >= 1 {
        None
    } else {
        Some(Failure::Validation(login_violations(!email_ok, password_length < 1)))
    }
}

/// What validating a change of password answers.
pub open spec fn password_change_check(new_length: nat) -> Option<Failure> {
    if new_length >= 8 {
        None
    } else {
        Some(Failure::Validation("new_password: Password must be at least 8 characters"@))
    }
}

/// The one refusal of a login that names no reason.
pub open spec fn invalid_credentials() -> Failure {
    Failure::Authentication("Invalid credentials"@)
}

/// The refusal that tells of a deactivated account.
pub open spec fn account_deactivated() -> Failure {
    Failure::Authentication("Account is deactivated"@)
}

/// What a login is answered once the lookup and the password check are
/// done: an unknown e-mail and a wrong password are refused alike, and so is
/// a deactivated account, unless its password was right and deactivation is
/// disclosed.
pub open spec fn credentials_answer(
    found: bool,
    password_matches: bool,
    is_active: bool,
    disclose_deactivation: bool,
) -> Option<Failure> {
    if !found || !password_matches {
        Some(invalid_credentials())
    } else if !is_active {
        if disclose_deactivation {
            Some(account_deactivated())
        } else {
            Some(invalid_credentials())
        }
    } else {
        None
    }
}

/// Whether an executable result is the answer `answer`.
pub open spec fn settles(r: Result<(), AppError>, answer: Option<Failure>) -> bool {
    match r {
        Ok(_) => answer is None,
        Err(e) => answer == Some(e@),
    }
}

/// Whether a public view shows exactly the identity's public fields.
pub open spec fn shows(view: UserResponse, user: User) -> bool {
    &&& view.id == user.id
    &&& view.email@ == user.email@
    &&& text_of(view.first_name) == text_of(user.first_name)
    &&& text_of(view.last_name) == text_of(user.last_name)
    &&& view.role == user.role
    &&& view.is_active == user.is_active
    &&& view.created_at == user.created_at
    &&& view.updated_at == user.updated_at
}

/// Whether a record to insert is what a registration asks for, with the
/// password replaced by one of its hashes.
pub open spec fn records(new_user: NewUser, req: RegisterRequest) -> bool {
    &&& new_user.email@ == req.email@
    &&& text_of(new_user.first_name) == text_of(req.first_name)
    &&& text_of(new_user.last_name) == text_of(req.last_name)
    &&& role_of_name(req.role@) == Some(new_user.role)
    &&& phc_verdict(req.password@, new_user.password_hash@) == Some(true)
    &&& exists|salt: Seq<char>| phc_hash(req.password@, salt) == Some(new_user.password_hash@)
}

fn copy_text(text: &Option<String>) -> (copy: Option<String>)
    ensures
        text_of(copy) == text_of(*text),
{
    match text {
        Some(t) => Some(t.clone()),
        None => None,
    }
}

fn push_entry(text: &mut String, any_before: bool, violated: bool, entry: &str)
    ensures
        final(text)@ == old(text)@ + entry_after(any_before, violated, entry@),
{
    if violated {
        if any_before {
            text.append("\n");
        }
        text.append(entry);
    }
    assert(final(text)@ =~= old(text)@ + entry_after(any_before, violated, entry@));
}

impl UserResponse {
    /// The public view of an identity.
    pub fn from(user: &User) -> (view: UserResponse)
        ensures
            shows(view, *user),
    {
        UserResponse {
            id: user.id,
            email: user.email.clone(),
            first_name: copy_text(&user.first_name),
            last_name: copy_text(&user.last_name),
            role: user.role,
            is_active: user.is_active,
            created_at: user.created_at,
            updated_at: user.updated_at,
        }
    }
}

fn registration_failure(email_bad: bool, password_bad: bool, role_bad: bool) -> (e: AppError)
    ensures
        e@ == Failure::Validation(registration_violations(email_bad, password_bad, role_bad)),
{
    let mut text = String::new();
    push_entry(&mut text, false, email_bad, "email: Invalid email address");
    push_entry(
        &mut text,
        email_bad,
        password_bad,
        "password: Password must be at least 8 characters",
    );
    push_entry(&mut text, email_bad || password_bad, role_bad, "role: Unknown role");
    assert(text@ =~= registration_violations(email_bad, password_bad, role_bad));
    AppError::ValidationError(text)
}

/// Judges a registration from the verdict on each field: a well-formed
/// e-mail address, a password of at least eight characters, a known role.
/// The failure names every violated field, not only the first.
pub fn check_registration(email_ok: bool, password_length: usize, role_known: bool) -> (r: Result<
    (),
    AppError,
>)
    ensures
        settles(r, registration_check(email_ok, password_length as nat, role_known)),
{
    let password_ok = password_length >= MIN_PASSWORD_LENGTH;
    if email_ok && password_ok && role_known {
        Ok(())
    } else {
        Err(registration_failure(!email_ok, !password_ok, !role_known))
    }
}

/// Judges a login from the verdict on each field: a well-formed e-mail
/// address and a password that is not empty.
pub fn check_login(email_ok: bool, password_length: usize) -> (r: Result<(), AppError>)
    ensures
        settles(r, login_check(email_ok, password_length as nat)),
{
    let password_ok = password_length >= 1;
    if email_ok && password_ok {
        Ok(())
    } else {
        let mut text = String::new();
        push_entry(&mut text, false, !email_ok, "email: Invalid email address");
        push_entry(&mut text, !email_ok, !password_ok, "password: Password is required");
        assert(text@ =~= login_violations(!email_ok, !password_ok));
        Err(AppError::ValidationError(text))
    }
}

impl RegisterRequest {
    /// Validates the structure of a registration.
    pub fn validate(&self) -> (r: Result<(), AppError>)
        ensures
            settles(
                r,
                registration_check(
                    email_shape(self.email@),
                    self.password@.len(),
                    role_of_name(self.role@) is Some,
                ),
            ),
    {
        let email_ok = email_check(self.email.as_str());
        let role_known = UserRole::parse(self.role.as_str()).is_some();
        check_registration(email_ok, self.password.as_str().unicode_len(), role_known)
    }
}

impl LoginRequest {
    /// Validates the structure of a login.
    pub fn validate(&self) -> (r: Result<(), AppError>)
        ensures
            settles(r, login_check(email_shape(self.email@), self.password@.len())),
    {
        let email_ok = email_check(self.email.as_str());
        check_login(email_ok, self.password.as_str().unicode_len())
    }
}

impl ChangePasswordRequest {
    /// Validates the structure of a change of password: the new password has
    /// at least eight characters.
    pub fn validate(&self) -> (r: Result<(), AppError>)
        ensures
            settles(r, password_change_check(self.new_password@.len())),
    {
        if self.new_password.as_str().unicode_len() >= MIN_PASSWORD_LENGTH {
            Ok(())
        } else {
            Err(
                AppError::ValidationError(
                    "new_password: Password must be at least 8 characters".to_owned(),
                ),
            )
        }
    }
}

/// Prepares the identity to insert for a registration: validates the
/// request, then hashes the password.
///
/// A request that violates a constraint is refused with a validation
/// failure and nothing is hashed. Otherwise the record carries the request's
/// fields and a hash that the password verifies against; a failure of the
/// hashing is an internal fault.
pub fn create_user(req: &RegisterRequest) -> (r: Result<NewUser, AppError>)
    ensures
        match registration_check(
            email_shape(req.email@),
            req.password@.len(),
            role_of_name(req.role@) is Some,
        ) {
            Some(refusal) => r is Err && r->Err_0@ == refusal,
            None => match r {
                Ok(new_user) => records(new_user, *req),
                Err(e) => is_hashing_failure(e@),
            },
        },
{
    let email_ok = email_check(req.email.as_str());
    let password_length = req.password.as_str().unicode_len();
    match UserRole::parse(req.role.as_str()) {
        None => Err(
            registration_failure(!email_ok, password_length < MIN_PASSWORD_LENGTH, true),
        ),
        Some(role) => {
            check_registration(email_ok, password_length, true)?;
            let password_hash = hash_password(req.password.as_str())?;
            Ok(
                NewUser {
                    email: req.email.clone(),
                    password_hash,
                    first_name: copy_text(&req.first_name),
                    last_name: copy_text(&req.last_name),
                    role,
                },
            )
        },
    }
}

/// Maps the store's answer to an insert. A uniqueness violation is a
/// conflict on the e-mail address; every other failure is a storage fault.
pub fn inserted(outcome: Result<User, StoreFault>) -> (r: Result<User, AppError>)
    ensures
        match outcome {
            Ok(user) => r == Ok::<User, AppError>(user),
            Err(fault) => r is Err && r->Err_0@ == (if fault.kind
                == StoreFaultKind::UniqueViolation {
                Failure::Conflict("Email already exists"@)
            } else {
                Failure::Database(fault.detail@)
            }),
        },
{
    match outcome {
        Ok(user) => Ok(user),
        Err(fault) => match fault.kind {
            StoreFaultKind::UniqueViolation => Err(
                AppError::Conflict("Email already exists".to_owned()),
            ),
            _ => Err(AppError::DatabaseError(fault.detail)),
        },
    }
}

/// Maps the store's answer to a lookup. A missing row is a user that
/// was not found; every other failure is a storage fault.
pub fn looked_up(outcome: Result<User, StoreFault>) -> (r: Result<User, AppError>)
    ensures
        match outcome {
            Ok(user) => r == Ok::<User, AppError>(user),
            Err(fault) => r is Err && r->Err_0@ == (if fault.kind == StoreFaultKind::RowNotFound {
                Failure::NotFound("User not found"@)
            } else {
                Failure::Database(fault.detail@)
            }),
        },
{
    match outcome {
        Ok(user) => Ok(user),
        Err(fault) => match fault.kind {
            StoreFaultKind::RowNotFound => Err(AppError::NotFound("User not found".to_owned())),
            _ => Err(AppError::DatabaseError(fault.detail)),
        },
    }
}

/// Completes a registration from the store's answer to the insert: the
/// created status with the public view of the new identity, a conflict where
/// the e-mail address was taken, a storage fault otherwise.
pub fn register(outcome: Result<User, StoreFault>) -> (r: Result<(u16, UserResponse), AppError>)
    ensures
        match outcome {
            Ok(user) => r is Ok && r->Ok_0.0 == 201 && shows(r->Ok_0.1, user),
            Err(fault) => r is Err && r->Err_0@ == (if fault.kind
                == StoreFaultKind::UniqueViolation {
                Failure::Conflict("Email already exists"@)
            } else {
                Failure::Database(fault.detail@)
            }),
        },
{
    let user = inserted(outcome)?;
    Ok((STATUS_CREATED, UserResponse::from(&user)))
}

/// Decides a login once the lookup and the password check are done.
pub fn check_credentials(
    found: bool,
    password_matches: bool,
    is_active: bool,
    disclose_deactivation: bool,
) -> (r: Result<(), AppError>)
    ensures
        settles(r, credentials_answer(found, password_matches, is_active, disclose_deactivation)),
{
    if !found || !password_matches {
        Err(AppError::AuthenticationError("Invalid credentials".to_owned()))
    } else if !is_active {
        if disclose_deactivation {
            Err(AppError::AuthenticationError("Account is deactivated".to_owned()))
        } else {
            Err(AppError::AuthenticationError("Invalid credentials".to_owned()))
        }
    } else {
        Ok(())
    }
}

/// What a login comes to, given the store's answer to the lookup by e-mail
/// and the instant of issue.
pub open spec fn login_outcome(
    req: LoginRequest,
    lookup: Result<User, StoreFault>,
    settings: Settings,
    now: int,
    r: Result<LoginResponse, AppError>,
) -> bool {
    let refusal = login_check(email_shape(req.email@), req.password@.len());
    if refusal is Some {
        r is Err && r->Err_0@ == refusal->0
    } else if lookup is Err {
        r is Err && r->Err_0@ == invalid_credentials()
    } else {
        let user = lookup->Ok_0;
        let verdict = phc_verdict(req.password@, user.password_hash@);
        if verdict is None {
            r is Err && is_unreadable_hash(r->Err_0@)
        } else {
            let answer = credentials_answer(
                true,
                verdict->0,
                user.is_active,
                settings.disclose_deactivation,
            );
            if answer is Some {
                r is Err && r->Err_0@ == answer->0
            } else {
                let exp = expiry(now, settings.jwt_expiration_hours as int);
                if !(i64::MIN <= exp <= i64::MAX) {
                    r is Err && is_lifetime_fault(r->Err_0@)
                } else {
                    let claims = minted(
                        user.id,
                        user.email@,
                        user.role,
                        now,
                        settings.jwt_expiration_hours as int,
                    );
                    match signed_token(payload_of(claims), settings.jwt_secret@) {
                        None => r is Err && r->Err_0@ == Failure::Token(TokenFault::Invalid),
                        Some(token) => r is Ok && r->Ok_0.token@ == token && shows(
                            r->Ok_0.user,
                            user,
                        ),
                    }
                }
            }
        }
    }
}

/// Logs a user in as of the given instant, from the store's answer to the
/// lookup by e-mail.
///
/// The request is validated first. A lookup that failed, for whatever
/// reason, and a password that does not match are refused alike. A stored
/// hash that cannot be read is an internal fault. On success the token
/// carries claims minted for the user at `now` with the configured lifetime,
/// signed under the configured secret.
pub fn login_at(
    req: &LoginRequest,
    lookup: Result<User, StoreFault>,
    settings: &Settings,
    now: i64,
) -> (r: Result<LoginResponse, AppError>)
    ensures
        login_outcome(*req, lookup, *settings, now as int, r),
{
    req.validate()?;
    let user = match lookup {
        Ok(user) => user,
        Err(_) => {
            return Err(AppError::AuthenticationError("Invalid credentials".to_owned()));
        },
    };
    let password_matches = verify_password(req.password.as_str(), user.password_hash.as_str())?;
    check_credentials(true, password_matches, user.is_active, settings.disclose_deactivation)?;
    let claims = Claims::issue(
        user.id,
        user.email.clone(),
        user.role,
        now,
        settings.jwt_expiration_hours,
    )?;
    let token = claims.encode(settings.jwt_secret.as_str())?;
    Ok(LoginResponse { token, user: UserResponse::from(&user) })
}

/// Logs a user in at the present instant, read from the clock.
///
/// The result is that of [`login_at`] at some instant.
pub fn login(req: &LoginRequest, lookup: Result<User, StoreFault>, settings: &Settings) -> (r:
    Result<LoginResponse, AppError>)
    ensures
        exists|now: int| #[trigger] login_outcome(*req, lookup, *settings, now, r),
{
    let now = unix_now();
    let r = login_at(req, lookup, settings, now);
    assert(login_outcome(*req, lookup, *settings, now as int, r));
    r
}

/// What a change of password comes to.
pub open spec fn password_change_outcome(
    req: ChangePasswordRequest,
    user: User,
    r: Result<String, AppError>,
) -> bool {
    let refusal = password_change_check(req.new_password@.len());
    let verdict = phc_verdict(req.current_password@, user.password_hash@);
    if refusal is Some {
        r is Err && r->Err_0@ == refusal->0
    } else if verdict is None {
        r is Err && is_unreadable_hash(r->Err_0@)
    } else if !verdict->0 {
        r is Err && r->Err_0@ == Failure::Authentication("Current password is incorrect"@)
    } else {
        match r {
            Ok(hash) => phc_verdict(req.new_password@, hash@) == Some(true) && exists|
                salt: Seq<char>,
            |
                phc_hash(req.new_password@, salt) == Some(hash@),
            Err(e) => is_hashing_failure(e@),
        }
    }
}

/// Decides a change of password for the identity that asks for it, and
/// returns the hash to store.
///
/// The new password is validated first; the current password must match the
/// stored hash; the result is a hash that the new password verifies against.
pub fn change_password(req: &ChangePasswordRequest, user: &User) -> (r: Result<String, AppError>)
    ensures
        password_change_outcome(*req, *user, r),
{
    req.validate()?;
    let is_valid = verify_password(req.current_password.as_str(), user.password_hash.as_str())?;
    if !is_valid {
        return Err(AppError::AuthenticationError("Current password is incorrect".to_owned()));
    }
    hash_password(req.new_password.as_str())
}

/// On the decision itself: an unknown e-mail address and a known one with a
/// wrong password get the same answer, whatever the state of the account
/// and whether or not deactivation is disclosed.
pub proof fn lemma_refusals_do_not_enumerate(is_active: bool, disclose_deactivation: bool)
    ensures
        credentials_answer(false, false, false, disclose_deactivation) == credentials_answer(
            true,
            false,
            is_active,
            disclose_deactivation,
        ),
        credentials_answer(true, false, is_active, disclose_deactivation) == Some(
            invalid_credentials(),
        ),
{
}

/// A login with an e-mail address that the store does not know and a login
/// with a known address and a wrong password are refused with the same
/// failure: the responses agree in status and in every character of the
/// message. Both requests are taken to be well formed, since a malformed
/// request is refused for its form before anything is looked up.
pub proof fn lemma_login_refusals_alike(
    unknown: LoginRequest,
    known: LoginRequest,
    missing: Result<User, StoreFault>,
    found: Result<User, StoreFault>,
    settings_a: Settings,
    settings_b: Settings,
    now_a: int,
    now_b: int,
    a: Result<LoginResponse, AppError>,
    b: Result<LoginResponse, AppError>,
)
    requires
        login_check(email_shape(unknown.email@), unknown.password@.len()) is None,
        login_check(email_shape(known.email@), known.password@.len()) is None,
        missing is Err,
        found is Ok,
        phc_verdict(known.password@, found->Ok_0.password_hash@) == Some(false),
        login_outcome(unknown, missing, settings_a, now_a, a),
        login_outcome(known, found, settings_b, now_b, b),
    ensures
        a is Err,
        b is Err,
        a->Err_0@ == b->Err_0@,
        response_of(a->Err_0@) == response_of(b->Err_0@),
        status_of(a->Err_0@) == 401,
{
}

/// Where deactivation is not disclosed, every refused login is answered
/// alike.
pub proof fn lemma_undisclosed_refusals_alike(found: bool, password_matches: bool, is_active: bool)
    ensures
        credentials_answer(found, password_matches, is_active, false) matches Some(f) ==> f
            == invalid_credentials(),
{
}

} // verus!
