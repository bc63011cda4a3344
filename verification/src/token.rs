//! Session claims and the codec that signs and verifies them.

use vstd::prelude::*;
use crate::error::{response_of, AppError, Failure, TokenFault};
use crate::ident::{hyphenated, uuid_value, UserId};
use crate::json::{
    int_member, json_int, json_members, json_object, json_put_int, json_put_text, json_text,
    jwt_sign, jwt_verify, passes_validation, plain_members, signed_token, text_member,
    verified_payload, JsonObject, JsonValue,
};
use crate::role::{lemma_role_name_round_trip, role_name, role_of_name, UserRole};

verus! {

/// Seconds in one hour of token lifetime.
pub const SECONDS_PER_HOUR: i64 = 3600;

/// The signed assertion that a session token carries.
#[derive(Debug, Clone)]
pub struct Claims {
    /// Subject: the user's identifier as text.
    pub sub: String,
    pub email: String,
    pub role: UserRole,
    /// Expiry, in seconds since the Unix epoch.
    pub exp: i64,
    /// Instant of issue, in seconds since the Unix epoch.
    pub iat: i64,
}

/// Mathematical value of [`Claims`].
pub struct ClaimsView {
    pub sub: Seq<char>,
    pub email: Seq<char>,
    pub role: UserRole,
    pub exp: int,
    pub iat: int,
}

impl View for Claims {
    type V = ClaimsView;

    open spec fn view(&self) -> ClaimsView {
        ClaimsView {
            sub: self.sub@,
            email: self.email@,
            role: self.role,
            exp: self.exp as int,
            iat: self.iat as int,
        }
    }
}

/// The expiry of a token issued at `issued_at` for `hours` hours.
pub open spec fn expiry(issued_at: int, hours: int) -> int {
    issued_at + hours * 3600
}

/// The claims minted for a user at an instant, for a lifetime in hours.
pub open spec fn minted(id: UserId, email: Seq<char>, role: UserRole, issued_at: int, hours: int)
    -> ClaimsView {
    ClaimsView {
        sub: hyphenated(id.0),
        email,
        role,
        exp: expiry(issued_at, hours),
        iat: issued_at,
    }
}

/// The JSON payload that carries a set of claims.
pub open spec fn payload_of(c: ClaimsView) -> Map<Seq<char>, JsonValue> {
    Map::empty().insert("sub"@, JsonValue::Text(c.sub)).insert(
        "email"@,
        JsonValue::Text(c.email),
    ).insert("role"@, JsonValue::Text(role_name(c.role))).insert("exp"@, JsonValue::Int(c.exp)).insert(
        "iat"@,
        JsonValue::Int(c.iat),
    )
}

/// The claims that five payload fields make up: all five must be present,
/// and the role must be a known one.
pub open spec fn claims_of_fields(
    sub: Option<Seq<char>>,
    email: Option<Seq<char>>,
    role: Option<Seq<char>>,
    exp: Option<int>,
    iat: Option<int>,
) -> Option<ClaimsView> {
    if sub is Some && email is Some && role is Some && exp is Some && iat is Some && role_of_name(
        role->0,
    ) is Some {
        Some(
            ClaimsView {
                sub: sub->0,
                email: email->0,
                role: role_of_name(role->0)->0,
                exp: exp->0,
                iat: iat->0,
            },
        )
    } else {
        None
    }
}

/// The claims that a JSON payload carries, if it carries any.
pub open spec fn claims_of(payload: Map<Seq<char>, JsonValue>) -> Option<ClaimsView> {
    claims_of_fields(
        text_member(payload, "sub"@),
        text_member(payload, "email"@),
        text_member(payload, "role"@),
        int_member(payload, "exp"@),
        int_member(payload, "iat"@),
    )
}

/// What accepting claims at an instant comes to: claims that are missing or
/// incomplete are invalid, and claims whose expiry has been reached are
/// expired.
pub open spec fn accepted_at(claims: Option<ClaimsView>, now: int) -> Result<
    ClaimsView,
    TokenFault,
> {
    match claims {
        None => Err(TokenFault::Invalid),
        Some(c) => if now >= c.exp {
            Err(TokenFault::Expired)
        } else {
            Ok(c)
        },
    }
}

/// What decoding a token under a secret at an instant comes to.
pub open spec fn decode_outcome(token: Seq<char>, secret: Seq<char>, now: int) -> Result<
    ClaimsView,
    TokenFault,
> {
    match verified_payload(token, secret) {
        None => Err(TokenFault::Invalid),
        Some(payload) => accepted_at(claims_of(payload), now),
    }
}

/// Whether an executable result is the one that `outcome` describes.
pub open spec fn renders(r: Result<Claims, AppError>, outcome: Result<ClaimsView, TokenFault>)
    -> bool {
    match r {
        Ok(c) => outcome matches Ok(v) && v == c@,
        Err(e) => outcome matches Err(f) && e@ == Failure::Token(f),
    }
}

/// An internal fault that reports a lifetime beyond what a timestamp holds.
pub open spec fn is_lifetime_fault(f: Failure) -> bool {
    f == Failure::Internal("Token lifetime out of range"@)
}

/// The keys of the claims are five different names.
proof fn lemma_claim_keys_differ()
    ensures
        "sub"@ != "email"@,
        "sub"@ != "role"@,
        "sub"@ != "exp"@,
        "sub"@ != "iat"@,
        "sub"@ != "aud"@,
        "email"@ != "role"@,
        "email"@ != "exp"@,
        "email"@ != "iat"@,
        "email"@ != "aud"@,
        "role"@ != "exp"@,
        "role"@ != "iat"@,
        "role"@ != "aud"@,
        "exp"@ != "iat"@,
        "exp"@ != "aud"@,
        "iat"@ != "aud"@,
{
    reveal_strlit("sub");
    reveal_strlit("email");
    reveal_strlit("role");
    reveal_strlit("exp");
    reveal_strlit("iat");
    reveal_strlit("aud");
    assert("sub"@[0] == 's');
    assert("email"@[0] == 'e');
    assert("role"@[0] == 'r');
    assert("exp"@[0] == 'e');
    assert("exp"@[1] == 'x');
    assert("email"@[1] == 'm');
    assert("iat"@[0] == 'i');
    assert("aud"@[0] == 'a');
}

/// Claims survive their payload: reading the payload written for a set of
/// claims gives back exactly those claims, role included. The payload holds
/// only strings and integers, and it passes the token validation exactly
/// when the expiry is not negative.
pub proof fn lemma_payload_round_trip(c: ClaimsView)
    ensures
        claims_of(payload_of(c)) == Some(c),
        plain_members(payload_of(c)),
        passes_validation(payload_of(c)) <==> c.exp >= 0,
{
    lemma_claim_keys_differ();
    lemma_role_name_round_trip(c.role);
    let p = payload_of(c);
    assert(text_member(p, "sub"@) == Some(c.sub));
    assert(text_member(p, "email"@) == Some(c.email));
    assert(text_member(p, "role"@) == Some(role_name(c.role)));
    assert(int_member(p, "exp"@) == Some(c.exp));
    assert(int_member(p, "iat"@) == Some(c.iat));
    assert(!p.contains_key("aud"@));
}

/// The codec's own part of the round trip: where a token verifies under the
/// secret to the payload that was written for a set of claims, decoding it
/// before their expiry returns exactly those claims.
pub proof fn lemma_verified_claims_are_returned(
    c: ClaimsView,
    token: Seq<char>,
    secret: Seq<char>,
    now: int,
)
    requires
        verified_payload(token, secret) == Some(payload_of(c)),
        now < c.exp,
    ensures
        decode_outcome(token, secret, now) == Ok::<ClaimsView, TokenFault>(c),
{
    lemma_payload_round_trip(c);
}

/// A token is never accepted once its expiry has been reached, whatever the
/// secret and whatever else it carries.
pub proof fn lemma_expired_never_accepted(token: Seq<char>, secret: Seq<char>, now: int)
    ensures
        decode_outcome(token, secret, now) matches Ok(c) ==> now < c.exp,
        (verified_payload(token, secret) matches Some(p) && claims_of(p) matches Some(c) && c.exp
            <= now) ==> decode_outcome(token, secret, now) == Err::<ClaimsView, TokenFault>(
            TokenFault::Expired,
        ),
{
}

/// Decoding gives all or nothing. Claims that are accepted are the whole
/// claims of a payload that verified under the secret. Every refusal is
/// answered with status 401 and the one message, whether the signature, the
/// structure, a claim or the expiry was at fault.
pub proof fn lemma_decoding_all_or_nothing(token: Seq<char>, secret: Seq<char>, now: int)
    ensures
        decode_outcome(token, secret, now) matches Ok(c) ==> verified_payload(token, secret)
            matches Some(p) && claims_of(p) == Some(c),
        decode_outcome(token, secret, now) matches Err(fault) ==> response_of(
            Failure::Token(fault),
        ) == (401int, "Invalid or expired token"@),
        verified_payload(token, secret) is None ==> decode_outcome(token, secret, now) == Err::<
            ClaimsView,
            TokenFault,
        >(TokenFault::Invalid),
{
}

/// Reads the clock: `Utc::now().timestamp()` of `chrono`, the seconds since
/// the Unix epoch. Nothing is claimed of the instant.
#[verifier::external_body]
pub(crate) fn unix_now() -> (now: i64) {
    chrono::Utc::now().timestamp()
}

impl Claims {
    /// Mints claims for a user at the given instant.
    ///
    /// The expiry is the instant of issue plus the lifetime, an hour being
    /// 3600 seconds. A lifetime that takes the expiry beyond what a timestamp
    /// holds is an internal fault.
    pub fn issue(
        user_id: UserId,
        email: String,
        role: UserRole,
        issued_at: i64,
        expiration_hours: i64,
    ) -> (r: Result<Claims, AppError>)
        ensures
            match r {
                Ok(c) => c@ == minted(
                    user_id,
                    email@,
                    role,
                    issued_at as int,
                    expiration_hours as int,
                ),
                Err(e) => is_lifetime_fault(e@) && !(i64::MIN <= expiry(
                    issued_at as int,
                    expiration_hours as int,
                ) <= i64::MAX),
            },
    {
        let wide: i128 = issued_at as i128 + expiration_hours as i128 * SECONDS_PER_HOUR as i128;
        let exp: Option<i64> = if i64::MIN as i128 <= wide && wide <= i64::MAX as i128 {
            Some(wide as i64)
        } else {
            None
        };
        match exp {
            Some(exp) => Ok(Claims { sub: user_id.to_text(), email, role, exp, iat: issued_at }),
            None => Err(AppError::InternalError("Token lifetime out of range".to_owned())),
        }
    }

    /// Mints claims for a user at the present instant, read from the clock.
    ///
    /// The claims are those of [`Claims::issue`] at some instant.
    pub fn new(user_id: UserId, email: String, role: UserRole, expiration_hours: i64) -> (r:
        Result<Claims, AppError>)
        ensures
            match r {
                Ok(c) => c@ == minted(user_id, email@, role, c.iat as int, expiration_hours as int),
                Err(e) => is_lifetime_fault(e@),
            },
    {
        let now = unix_now();
        Claims::issue(user_id, email, role, now, expiration_hours)
    }

    /// Whether the expiry has been reached at the given instant.
    pub fn is_expired_at(&self, now: i64) -> (expired: bool)
        ensures
            expired == (now >= self.exp),
    {
        now >= self.exp
    }

    /// Signs the claims under a secret and returns the compact token.
    ///
    /// The token is the one named by [`signed_token`] for the payload of
    /// these claims. Where the expiry is not negative, the token decodes
    /// under the same secret to exactly these claims at every instant before
    /// the expiry. A failure of the signing is a token fault.
    pub fn encode(&self, secret: &str) -> (r: Result<String, AppError>)
        ensures
            match r {
                Ok(t) => signed_token(payload_of(self@), secret@) == Some(t@) && (forall|now: int|
                    self.exp >= 0 && now < self.exp ==> #[trigger] decode_outcome(
                        t@,
                        secret@,
                        now,
                    ) == Ok::<ClaimsView, TokenFault>(self@)),
                Err(e) => signed_token(payload_of(self@), secret@) is None && e@ == Failure::Token(
                    TokenFault::Invalid,
                ),
            },
    {
        let mut payload = json_object();
        json_put_text(&mut payload, "sub", self.sub.as_str());
        json_put_text(&mut payload, "email", self.email.as_str());
        json_put_text(&mut payload, "role", self.role.as_str());
        json_put_int(&mut payload, "exp", self.exp);
        json_put_int(&mut payload, "iat", self.iat);
        proof {
            assert(json_members(payload) =~= payload_of(self@));
            lemma_payload_round_trip(self@);
        }
        match jwt_sign(&payload, secret) {
            Ok(t) => Ok(t),
            Err(_) => Err(AppError::TokenError(TokenFault::Invalid)),
        }
    }

    /// Accepts or refuses the five fields read from a verified payload.
    ///
    /// All five must be present and the role a known one, else the token is
    /// invalid; claims whose expiry has been reached at `now` are expired.
    pub fn from_fields(
        sub: Option<String>,
        email: Option<String>,
        role: Option<String>,
        exp: Option<i64>,
        iat: Option<i64>,
        now: i64,
    ) -> (r: Result<Claims, AppError>)
        ensures
            renders(
                r,
                accepted_at(
                    claims_of_fields(
                        text_of(sub),
                        text_of(email),
                        text_of(role),
                        int_of(exp),
                        int_of(iat),
                    ),
                    now as int,
                ),
            ),
    {
        match (sub, email, role, exp, iat) {
            (Some(sub), Some(email), Some(role), Some(exp), Some(iat)) => {
                match UserRole::parse(role.as_str()) {
                    Some(role) => {
                        if now >= exp {
                            Err(AppError::TokenError(TokenFault::Expired))
                        } else {
                            Ok(Claims { sub, email, role, exp, iat })
                        }
                    },
                    None => Err(AppError::TokenError(TokenFault::Invalid)),
                }
            },
            _ => Err(AppError::TokenError(TokenFault::Invalid)),
        }
    }

    /// Decodes a token under a secret, as of the given instant.
    ///
    /// Succeeds exactly when the token's structure and signature hold under
    /// the secret, its payload carries whole claims, and `now` is before
    /// their expiry; the claims returned are exactly those carried. Every
    /// failure is a token fault.
    pub fn decode_at(token: &str, secret: &str, now: i64) -> (r: Result<Claims, AppError>)
        ensures
            renders(r, decode_outcome(token@, secret@, now as int)),
    {
        match jwt_verify(token, secret) {
            Ok(payload) => {
                let sub = json_text(&payload, "sub");
                let email = json_text(&payload, "email");
                let role = json_text(&payload, "role");
                let exp = json_int(&payload, "exp");
                let iat = json_int(&payload, "iat");
                Claims::from_fields(sub, email, role, exp, iat, now)
            },
            Err(_) => Err(AppError::TokenError(TokenFault::Invalid)),
        }
    }

    /// Decodes a token under a secret, as of the present instant, read from
    /// the clock.
    ///
    /// The result is that of [`Claims::decode_at`] at some instant.
    pub fn decode(token: &str, secret: &str) -> (r: Result<Claims, AppError>)
        ensures
            exists|now: int| renders(r, #[trigger] decode_outcome(token@, secret@, now)),
    {
        let now = unix_now();
        Claims::decode_at(token, secret, now)
    }

    /// The user that the subject claim names.
    ///
    /// Fails with a malformed-subject token fault exactly when the subject is
    /// no identifier. The subject that [`Claims::issue`] writes for a user is
    /// always read back as that user.
    pub fn user_id(&self) -> (r: Result<UserId, AppError>)
        ensures
            match r {
                Ok(id) => uuid_value(self.sub@) == Some(id.0),
                Err(e) => uuid_value(self.sub@) is None && e@ == Failure::Token(
                    TokenFault::MalformedSubject,
                ),
            },
            forall|v: u128| self.sub@ == #[trigger] hyphenated(v) ==> r == Ok::<UserId, AppError>(UserId(v)),
    {
        match UserId::parse(self.sub.as_str()) {
            Some(id) => Ok(id),
            None => Err(AppError::TokenError(TokenFault::MalformedSubject)),
        }
    }
}

/// View of an optional text.
pub open spec fn text_of(s: Option<String>) -> Option<Seq<char>> {
    match s {
        Some(t) => Some(t@),
        None => None,
    }
}

/// View of an optional timestamp.
pub open spec fn int_of(n: Option<i64>) -> Option<int> {
    match n {
        Some(v) => Some(v as int),
        None => None,
    }
}

} // verus!
