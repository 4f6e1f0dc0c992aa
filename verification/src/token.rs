//! Bearer tokens: a signed statement of who the bearer is and until when
//! the statement holds. Signing and checking are JSON Web Token operations
//! keyed by a shared secret; a token carries its own expiry and cannot be
//! revoked.

use crate::clock::now_seconds;
use crate::error::AppError;
use vstd::prelude::*;

verus! {

/// The error of the token functions, carried through unread.
#[verifier::external_type_specification]
#[verifier::external_body]
pub struct ExTokenError(helpers::jwt::Error);

/// What a checked token says.
#[derive(Debug)]
pub struct AuthToken {
    /// Whom the token was issued to: the e-mail address of a user.
    pub subject: String,
    /// The instant after which the token is refused, in seconds since the
    /// Unix epoch.
    pub expiry: i64,
}

/// An `AuthToken` as the contracts speak of it.
pub ghost struct AuthTokenView {
    pub subject: Seq<char>,
    pub expiry: i64,
}

impl View for AuthToken {
    type V = AuthTokenView;

    open spec fn view(&self) -> AuthTokenView {
        AuthTokenView { subject: self.subject@, expiry: self.expiry }
    }
}

/// What the payload of a token reads as, where it can be read: the
/// subject, the time of issue and the expiry that `helpers::jwt::verify`
/// reads from it. It is a matter of the token's text alone; whether a token
/// is accepted is not.
pub uninterp spec fn token_claims(token: Seq<char>) -> Option<(Seq<char>, i64, i64)>;

/// Whether the signature of `token` is the one that `key` gives: the
/// answer of the signature check of `helpers::jwt::verify`, which is a
/// matter of the token's text and of the key alone.
pub uninterp spec fn signed_under(token: Seq<char>, key: Seq<char>) -> bool;

/// Whether `token` reads as issued to `subject`.
pub open spec fn names(token: Seq<char>, subject: Seq<char>) -> bool {
    token_claims(token) matches Some(claims) && claims.0 == subject
}

/// Whether `token` reads as expiring `ttl_seconds` after its issue.
pub open spec fn lives(token: Seq<char>, ttl_seconds: i64) -> bool {
    token_claims(token) matches Some(claims) && claims.2 == claims.1 + ttl_seconds
}

/// Whether `said` is what `token` reads as.
pub open spec fn reads_as(token: Seq<char>, said: AuthTokenView) -> bool {
    token_claims(token) matches Some(claims) && claims.0 == said.subject && claims.2
        == said.expiry
}

/// Whether `token` is what `request` asks for: issued to its subject,
/// expiring its lifetime after issue, and signed with its secret.
pub open spec fn answers(token: Seq<char>, request: SignRequestView) -> bool {
    &&& names(token, request.subject)
    &&& lives(token, request.ttl_seconds)
    &&& signed_under(token, request.secret)
}

/// Whether `checked` can be what a check of `token` under `secret` comes
/// to: what the token reads as, its signature being the one that `secret`
/// gives; or `InvalidToken`.
pub open spec fn is_check_of(
    token: Seq<char>,
    secret: Seq<char>,
    checked: Result<AuthTokenView, AppError>,
) -> bool {
    match checked {
        Ok(said) => reads_as(token, said) && signed_under(token, secret),
        Err(kind) => kind == AppError::InvalidToken,
    }
}

/// What is asked of the signer: whom the token is for, the secret to sign
/// it with, and how long it is to live.
#[derive(Debug)]
pub struct SignRequest<'a> {
    pub subject: String,
    pub secret: &'a str,
    pub ttl_seconds: i64,
}

/// A `SignRequest` as the contracts speak of it.
pub ghost struct SignRequestView {
    pub subject: Seq<char>,
    pub secret: Seq<char>,
    pub ttl_seconds: i64,
}

impl<'a> View for SignRequest<'a> {
    type V = SignRequestView;

    open spec fn view(&self) -> SignRequestView {
        SignRequestView {
            subject: self.subject@,
            secret: self.secret@,
            ttl_seconds: self.ttl_seconds,
        }
    }
}

/// What a check said, or the kind of its failure.
pub open spec fn checked_view(checked: Result<AuthToken, AppError>) -> Result<
    AuthTokenView,
    AppError,
> {
    match checked {
        Ok(said) => Ok(said@),
        Err(kind) => Err(kind),
    }
}

/// The longest lifetime, in seconds, that `sign` takes, towards the future
/// or the past. The expiry is computed on a calendar that ends some 260,000
/// years from now, and leaves it with a panic.
pub const MAX_TTL_SECONDS: i64 = 1_000_000_000_000;

/// `helpers::jwt::sign` with a `String` as the token's data: a token, signed
/// with HMAC-SHA256 under `key`, that carries `subject`, the time of the
/// call and that time plus `expire` seconds. The token depends on the
/// clock. Believed of it: a token always comes back, since with a secret
/// for a key and a text for its data the signer has nothing to fail on; its
/// payload reads as issued to `subject` and as expiring `expire` seconds
/// after its issue; and its signature is the one that the signature check
/// under `key` accepts. The clock must not stand before 1970.
#[verifier::external_body]
fn jwt_sign(subject: String, key: &str, expire: i64) -> (signed: Result<
    String,
    helpers::jwt::Error,
>)
    requires
        -MAX_TTL_SECONDS <= expire <= MAX_TTL_SECONDS,
    ensures
        signed is Ok,
        signed matches Ok(token) ==> (token_claims(token@) matches Some(claims) && claims.0
            == subject@ && claims.2 == claims.1 + expire),
        signed matches Ok(token) ==> signed_under(token@, key@),
{
    helpers::jwt::sign::<String>(subject, key, expire)
}

/// `helpers::jwt::verify` with a `String` as the token's data: checks the
/// signature of `token` under `key` and its expiry against the clock, with
/// a minute's grace, and hands out the data and the expiry read from the
/// token's payload. Whether the token is accepted depends on the clock, and
/// nothing is claimed of that. Believed of a token that is accepted: what
/// is handed out is what the payload reads as, and the signature check
/// under `key` accepted it.
#[verifier::external_body]
fn jwt_verify(token: &str, key: &str) -> (checked: Result<AuthToken, helpers::jwt::Error>)
    ensures
        checked matches Ok(said) ==> (token_claims(token@) matches Some(claims) && claims.0
            == said.subject@ && claims.2 == said.expiry),
        checked matches Ok(said) ==> signed_under(token@, key@),
{
    match helpers::jwt::verify::<String>(token, key) {
        Ok(data) => Ok(
            AuthToken { subject: data.claims.data, expiry: data.claims.exp.timestamp() },
        ),
        Err(err) => Err(err),
    }
}

impl From<helpers::jwt::Error> for AppError {
    fn from(err: helpers::jwt::Error) -> (kind: AppError) {
        AppError::InvalidToken
    }
}

impl vstd::std_specs::convert::FromSpecImpl<helpers::jwt::Error> for AppError {
    open spec fn obeys_from_spec() -> bool {
        true
    }

    open spec fn from_spec(err: helpers::jwt::Error) -> AppError {
        AppError::InvalidToken
    }
}

/// What a signing attempt comes to: the token, or `InvalidToken`.
pub fn sign_outcome(signed: Result<String, helpers::jwt::Error>) -> (outcome: Result<
    String,
    AppError,
>)
    ensures
        match signed {
            Ok(token) => outcome == Ok::<String, AppError>(token),
            Err(_) => outcome == Err::<String, AppError>(AppError::InvalidToken),
        },
{
    match signed {
        Ok(token) => Ok(token),
        Err(err) => Err(AppError::from(err)),
    }
}

/// Whether a token that expires at `expiry` is past its time at `now`.
pub open spec fn expired(expiry: i64, now: i64) -> bool {
    expiry < now
}

/// What a check comes to at the time `now`: what the token says, or
/// `InvalidToken` for every reason there is to refuse it (a signature that
/// does not fit, a payload that cannot be read, an expiry that has passed).
/// A token is good up to and including the second of its expiry.
pub fn verify_outcome(checked: Result<AuthToken, helpers::jwt::Error>, now: i64) -> (outcome:
    Result<AuthToken, AppError>)
    ensures
        match checked {
            Ok(said) => if expired(said.expiry, now) {
                outcome == Err::<AuthToken, AppError>(AppError::InvalidToken)
            } else {
                outcome == Ok::<AuthToken, AppError>(said)
            },
            Err(_) => outcome == Err::<AuthToken, AppError>(AppError::InvalidToken),
        },
{
    match checked {
        Ok(said) => if said.expiry < now {
            Err(AppError::InvalidToken)
        } else {
            Ok(said)
        },
        Err(err) => Err(AppError::from(err)),
    }
}

/// Issues the token that `request` asks for.
///
/// A token always comes back. It is what the signer makes of the clock's
/// reading: it reads as issued to the subject of the request, expires the
/// lifetime of the request after its issue, and is signed with the secret
/// of the request.
pub fn issue(request: SignRequest) -> (issued: Result<String, AppError>)
    requires
        -MAX_TTL_SECONDS <= request.ttl_seconds <= MAX_TTL_SECONDS,
    ensures
        issued matches Ok(token) && answers(token@, request@),
{
    sign_outcome(jwt_sign(request.subject, request.secret, request.ttl_seconds))
}

/// Issues a token for `subject`, signed with `secret`, that expires
/// `ttl_seconds` from now.
pub fn sign(subject: String, secret: &str, ttl_seconds: i64) -> (issued: Result<String, AppError>)
    requires
        -MAX_TTL_SECONDS <= ttl_seconds <= MAX_TTL_SECONDS,
    ensures
        issued matches Ok(token) && answers(
            token@,
            SignRequestView { subject: subject@, secret: secret@, ttl_seconds },
        ),
{
    issue(SignRequest { subject, secret, ttl_seconds })
}

/// Checks `token` under `secret` at the present time.
///
/// Whether the token passes depends on its signature and on the clock: see
/// `verify_outcome` for what is made of the two. A token that passes has
/// the signature that `secret` gives and says what its payload reads as;
/// the one failure kind is `InvalidToken`.
pub fn verify(token: &str, secret: &str) -> (checked: Result<AuthToken, AppError>)
    ensures
        is_check_of(token@, secret@, checked_view(checked)),
{
    let checked = jwt_verify(token, secret);
    verify_outcome(checked, now_seconds())
}

/// A token says what it was issued as: whenever a token that answers
/// `request` is accepted, what the check hands out names the subject of
/// the request, and the expiry that it hands out is the lifetime of the
/// request after the token's issue.
pub proof fn law_accepted_token_says_what_was_asked(
    token: Seq<char>,
    request: SignRequestView,
    said: AuthTokenView,
)
    requires
        answers(token, request),
        reads_as(token, said),
    ensures
        said.subject == request.subject,
        token_claims(token) matches Some(claims) && said.expiry == claims.1 + request.ttl_seconds,
{
}

/// A token does not outlive its lifetime: at every time later than the
/// issue of a token plus the lifetime that was asked for, the token counts
/// as expired, which is when `verify_outcome` refuses it.
pub proof fn law_token_expires_with_its_lifetime(
    token: Seq<char>,
    request: SignRequestView,
    said: AuthTokenView,
    now: i64,
)
    requires
        answers(token, request),
        reads_as(token, said),
        token_claims(token) matches Some(claims) && claims.1 + request.ttl_seconds < now,
    ensures
        expired(said.expiry, now),
{
}

} // verus!
