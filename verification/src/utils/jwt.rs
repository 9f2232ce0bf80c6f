//! Tokens: what they claim, how they are issued, and what a claim must
//! be to let its holder in.

use vstd::prelude::*;
use vstd::string::StringExecFns;

use rand::Rng;

use crate::api::auth::JwtToken;
use crate::clock::now;
use crate::constants::ACCESS_TOKEN_EXPIRE_SECONDS;
use crate::constants::ISSUER;
use crate::constants::REFRESH_TOKEN_EXPIRE_SECONDS;
use crate::constants::SECRET_KEY_LENGTH;
use crate::constants::user_type::ADMIN;
use crate::constants::user_type::SUPER_ADMIN;
use crate::entity::user;
use crate::utils::errors::AError;
use crate::utils::errors::AErrorView;
use crate::utils::errors::StatusCode;
use crate::utils::errors::not_found;
use crate::utils::errors::spec_error;
use crate::utils::errors::unauthorized;
use crate::utils::permission::CheckPermission;

verus! {

/// `jsonwebtoken::errors::Error`, the error of the token library. A value
/// of it is carried through as it is; nothing is known of what it holds.
#[verifier::external_type_specification]
#[verifier::external_body]
pub struct ExJwtError(jsonwebtoken::errors::Error);

/// What a token is good for.
#[derive(PartialEq, Eq, Debug, Clone, Copy, Structural)]
pub enum TokenType {
    /// To act with.
    Access,
    /// To get the next pair of tokens.
    Refresh,
}

impl TokenType {
    /// The number that stands for the type inside a token.
    pub open spec fn spec_code(self) -> u8 {
        match self {
            TokenType::Access => 0,
            TokenType::Refresh => 1,
        }
    }

    /// The number that stands for the type inside a token.
    #[verifier::when_used_as_spec(spec_code)]
    pub fn code(self) -> (code: u8)
        ensures
            code == self.spec_code(),
    {
        match self {
            TokenType::Access => 0,
            TokenType::Refresh => 1,
        }
    }

    /// The type that `code` stands for, if it stands for one.
    pub fn from_code(code: u8) -> (typ: Option<TokenType>)
        ensures
            typ == match code {
                0u8 => Some(TokenType::Access),
                1u8 => Some(TokenType::Refresh),
                _ => None,
            },
    {
        match code {
            0 => Some(TokenType::Access),
            1 => Some(TokenType::Refresh),
            _ => None,
        }
    }
}

/// What a token claims.
#[derive(Debug, Clone, PartialEq, Eq)]
pub struct JwtClaims {
    /// When the token expires, in seconds since the start of 1970.
    pub exp: i64,
    pub iss: String,
    pub user_id: i32,
    /// The secret key of the user at the time of issue.
    pub secret_key: String,
    pub typ: TokenType,
}

/// What a `JwtClaims` stands for in contracts: its texts as sequences of
/// characters, its numbers without bounds.
pub struct JwtClaimsView {
    pub exp: int,
    pub iss: Seq<char>,
    pub user_id: int,
    pub secret_key: Seq<char>,
    pub typ: TokenType,
}

impl View for JwtClaims {
    type V = JwtClaimsView;

    open spec fn view(&self) -> JwtClaimsView {
        JwtClaimsView {
            exp: self.exp as int,
            iss: self.iss@,
            user_id: self.user_id as int,
            secret_key: self.secret_key@,
            typ: self.typ,
        }
    }
}

impl JwtClaimsView {
    /// The claims of a token of type `typ` for the user `user_id`, issued
    /// at `now` and good for `expire_period` seconds.
    pub open spec fn issued(
        user_id: int,
        secret_key: Seq<char>,
        typ: TokenType,
        expire_period: int,
        now: int,
    ) -> JwtClaimsView {
        JwtClaimsView { exp: now + expire_period, iss: ISSUER@, user_id, secret_key, typ }
    }
}

impl JwtClaims {
    /// The claims of a token of type `token_type` for the user `user_id`,
    /// issued at `now` and good for `expire_period` seconds.
    pub fn issued(
        user_id: i32,
        secret_key: String,
        token_type: TokenType,
        expire_period: i64,
        now: i64,
    ) -> (claims: JwtClaims)
        requires
            i64::MIN <= now + expire_period <= i64::MAX,
        ensures
            claims@ == JwtClaimsView::issued(
                user_id as int,
                secret_key@,
                token_type,
                expire_period as int,
                now as int,
            ),
    {
        JwtClaims {
            exp: now + expire_period,
            iss: String::from_str(ISSUER),
            user_id,
            secret_key,
            typ: token_type,
        }
    }
}

/// The token that `jsonwebtoken::encode` makes of the claims `exp`,
/// `iss`, `user_id`, `secret_key` and `typ` under the default header,
/// signed with `jwt_secret`; `None` where it makes none.
pub uninterp spec fn spec_encoded(
    exp: int,
    iss: Seq<char>,
    user_id: int,
    secret_key: Seq<char>,
    typ: int,
    jwt_secret: Seq<char>,
) -> Option<Seq<char>>;

/// The token that stands for `claims`, signed with `jwt_secret`.
pub open spec fn spec_token(claims: JwtClaimsView, jwt_secret: Seq<char>) -> Option<Seq<char>> {
    spec_encoded(
        claims.exp,
        claims.iss,
        claims.user_id,
        claims.secret_key,
        claims.typ.spec_code() as int,
        jwt_secret,
    )
}

/// Signs claims with `jsonwebtoken::encode`, under the default header
/// (HMAC with SHA-256) and the key that `EncodingKey::from_secret` makes
/// of `jwt_secret`. The claims go in as a JSON object of the five fields
/// `exp`, `iss`, `user_id`, `secret_key` and `typ`. The token is a
/// function of these values alone: the two parts in base64 and their
/// signature.
#[verifier::external_body]
fn encode(exp: i64, iss: &str, user_id: i32, secret_key: &str, typ: u8, jwt_secret: &str) -> (r:
    Result<String, jsonwebtoken::errors::Error>)
    ensures
        match r {
            Ok(token) => spec_encoded(
                exp as int,
                iss@,
                user_id as int,
                secret_key@,
                typ as int,
                jwt_secret@,
            ) == Some(token@),
            Err(_) => spec_encoded(
                exp as int,
                iss@,
                user_id as int,
                secret_key@,
                typ as int,
                jwt_secret@,
            ) is None,
        },
{
    let mut object = serde_json::Map::new();
    object.insert("exp".to_string(), serde_json::Value::from(exp));
    object.insert("iss".to_string(), serde_json::Value::from(iss));
    object.insert("user_id".to_string(), serde_json::Value::from(user_id));
    object.insert("secret_key".to_string(), serde_json::Value::from(secret_key));
    object.insert("typ".to_string(), serde_json::Value::from(typ));
    let key = jsonwebtoken::EncodingKey::from_secret(jwt_secret.as_bytes());
    jsonwebtoken::encode(&jsonwebtoken::Header::default(), &object, &key)
}

/// The text of the error `err` of the token library.
pub uninterp spec fn spec_jwt_error_text(err: jsonwebtoken::errors::Error) -> Seq<char>;

/// The text of an error of `jsonwebtoken`, as its `Display` gives it.
#[verifier::external_body]
fn jwt_error_text(err: &jsonwebtoken::errors::Error) -> (text: String)
    ensures
        text@ == spec_jwt_error_text(*err),
{
    err.to_string()
}

/// The failure of the service that an error of `jsonwebtoken` stands
/// for, with the text of the error as its message.
pub fn error_from_jwt(err: jsonwebtoken::errors::Error) -> (e: AError)
    ensures
        e@ == spec_error(StatusCode::InternalServerError, spec_jwt_error_text(err)),
{
    let text = jwt_error_text(&err);
    AError { status: StatusCode::InternalServerError, message: text }
}

/// Issues a token of type `token_type` for the user `user_id` at the time
/// `now`, good for `expire_period` seconds and signed with `jwt_secret`.
pub fn issue_token_at(
    user_id: i32,
    secret_key: String,
    token_type: TokenType,
    expire_period: i64,
    now: i64,
    jwt_secret: &str,
) -> (r: Result<String, jsonwebtoken::errors::Error>)
    requires
        i64::MIN <= now + expire_period <= i64::MAX,
    ensures
        match r {
            Ok(token) => spec_token(
                JwtClaimsView::issued(
                    user_id as int,
                    secret_key@,
                    token_type,
                    expire_period as int,
                    now as int,
                ),
                jwt_secret@,
            ) == Some(token@),
            Err(_) => spec_token(
                JwtClaimsView::issued(
                    user_id as int,
                    secret_key@,
                    token_type,
                    expire_period as int,
                    now as int,
                ),
                jwt_secret@,
            ) is None,
        },
{
    let claims = JwtClaims::issued(user_id, secret_key, token_type, expire_period, now);
    encode(
        claims.exp,
        claims.iss.as_str(),
        claims.user_id,
        claims.secret_key.as_str(),
        claims.typ.code(),
        jwt_secret,
    )
}

/// The longest period for which a token can be issued at any time that
/// the clock can show.
pub const MAX_EXPIRE_PERIOD: i64 = 0x7FFF_0000_0000_0000;

/// The shortest such period: as far back as the longest reaches ahead.
pub const MIN_EXPIRE_PERIOD: i64 = -0x7FFF_0000_0000_0000;

/// Issues a token of type `token_type` for the user `user_id` now, good
/// for `expire_period` seconds and signed with `jwt_secret`.
pub fn issue_token(
    user_id: i32,
    secret_key: String,
    token_type: TokenType,
    expire_period: i64,
    jwt_secret: &str,
) -> (r: Result<String, jsonwebtoken::errors::Error>)
    requires
        MIN_EXPIRE_PERIOD <= expire_period <= MAX_EXPIRE_PERIOD,
    ensures
        exists|now: int|
            -0x1_0000_0000_0000 < now < 0x1_0000_0000_0000 && match r {
                Ok(token) => spec_token(
                    #[trigger] JwtClaimsView::issued(
                        user_id as int,
                        secret_key@,
                        token_type,
                        expire_period as int,
                        now,
                    ),
                    jwt_secret@,
                ) == Some(token@),
                Err(_) => spec_token(
                    JwtClaimsView::issued(
                        user_id as int,
                        secret_key@,
                        token_type,
                        expire_period as int,
                        now,
                    ),
                    jwt_secret@,
                ) is None,
            },
{
    let now = now().seconds;
    issue_token_at(user_id, secret_key, token_type, expire_period, now, jwt_secret)
}

/// The pair of tokens issued at `now` for the user `user_id`: the access
/// token, and after it the refresh token. `None` where either cannot be
/// made.
pub open spec fn spec_token_pair(
    user_id: int,
    secret_key: Seq<char>,
    now: int,
    jwt_secret: Seq<char>,
) -> Option<(Seq<char>, Seq<char>)> {
    let access = spec_token(
        JwtClaimsView::issued(
            user_id,
            secret_key,
            TokenType::Access,
            ACCESS_TOKEN_EXPIRE_SECONDS as int,
            now,
        ),
        jwt_secret,
    );
    let refresh = spec_token(
        JwtClaimsView::issued(
            user_id,
            secret_key,
            TokenType::Refresh,
            REFRESH_TOKEN_EXPIRE_SECONDS as int,
            now,
        ),
        jwt_secret,
    );
    match (access, refresh) {
        (Some(a), Some(r)) => Some((a, r)),
        _ => None,
    }
}

/// The outcome `r` as contracts speak of it: rows and failures by what
/// they stand for.
pub open spec fn pair_view(r: Result<JwtToken, jsonwebtoken::errors::Error>) -> Option<
    (Seq<char>, Seq<char>),
> {
    match r {
        Ok(pair) => Some((pair.access_token@, pair.refresh_token@)),
        Err(_) => None,
    }
}

/// Issues the pair of tokens for the user `user_id` at the time `now`:
/// an access token good for half an hour and a refresh token good for a
/// week. Fails where either cannot be made.
pub fn issue_acc_ref_token_at(user_id: i32, secret_key: String, now: i64, jwt_secret: &str) -> (r:
    Result<JwtToken, jsonwebtoken::errors::Error>)
    requires
        -0x1_0000_0000_0000 < now < 0x1_0000_0000_0000,
    ensures
        pair_view(r) == spec_token_pair(user_id as int, secret_key@, now as int, jwt_secret@),
{
    let access_token = match issue_token_at(
        user_id,
        secret_key.clone(),
        TokenType::Access,
        ACCESS_TOKEN_EXPIRE_SECONDS,
        now,
        jwt_secret,
    ) {
        Ok(token) => token,
        Err(e) => {
            return Err(e);
        },
    };
    let refresh_token = match issue_token_at(
        user_id,
        secret_key,
        TokenType::Refresh,
        REFRESH_TOKEN_EXPIRE_SECONDS,
        now,
        jwt_secret,
    ) {
        Ok(token) => token,
        Err(e) => {
            return Err(e);
        },
    };
    Ok(JwtToken { access_token, refresh_token })
}

/// Issues the pair of tokens for the user `user_id` now.
pub fn issue_acc_ref_token(user_id: i32, secret_key: String, jwt_secret: &str) -> (r: Result<
    JwtToken,
    jsonwebtoken::errors::Error,
>)
    ensures
        exists|now: int|
            -0x1_0000_0000_0000 < now < 0x1_0000_0000_0000 && pair_view(r)
                == #[trigger] spec_token_pair(
                user_id as int,
                secret_key@,
                now,
                jwt_secret@,
            ),
{
    let now = now().seconds;
    issue_acc_ref_token_at(user_id, secret_key, now, jwt_secret)
}

/// What is wrong with the token that came with a request, if anything:
/// there is none that can be read, or it has expired.
pub open spec fn spec_authenticate(token: Option<JwtClaimsView>, now: int) -> Result<
    JwtClaimsView,
    AErrorView,
> {
    match token {
        None => Err(spec_error(StatusCode::Unauthorized, "Missing or bad token"@)),
        Some(claims) => if claims.exp < now {
            Err(spec_error(StatusCode::Unauthorized, "Token expired"@))
        } else {
            Ok(claims)
        },
    }
}

/// The row, where there is one, as contracts speak of it.
pub open spec fn token_view(token: Option<JwtClaims>) -> Option<JwtClaimsView> {
    match token {
        Some(claims) => Some(claims@),
        None => None,
    }
}

/// The outcome `r` as contracts speak of it: rows and failures by what
/// they stand for.
pub open spec fn claims_view(r: Result<JwtClaims, AError>) -> Result<JwtClaimsView, AErrorView> {
    match r {
        Ok(claims) => Ok(claims@),
        Err(e) => Err(e@),
    }
}

/// Lets the claims of a request through at the time `now` if a token came
/// with it, could be read, and has not expired.
pub fn authenticate_at(token: Option<JwtClaims>, now: i64) -> (r: Result<JwtClaims, AError>)
    ensures
        claims_view(r) == spec_authenticate(
            token_view(token),
            now as int,
        ),
{
    match token {
        Some(claims) => {
            if claims.exp < now {
                Err(unauthorized("Token expired"))
            } else {
                Ok(claims)
            }
        },
        None => Err(unauthorized("Missing or bad token")),
    }
}

/// Lets the claims of a request through if a token came with it, could be
/// read, and has not expired by now.
pub fn authenticate(token: Option<JwtClaims>) -> (r: Result<JwtClaims, AError>)
    ensures
        exists|now: int|
            claims_view(r) == #[trigger] spec_authenticate(
                token_view(token),
                now,
            ),
{
    let now = now().seconds;
    authenticate_at(token, now)
}

/// A rule on who gets in: what must hold of the user and of the claims
/// of the token.
pub trait JwtValidator {
    spec fn spec_validate(model: user::ModelView, permission: JwtClaimsView) -> bool;

    fn validate(model: &user::Model, permission: &JwtClaims) -> (r: bool)
        ensures
            r == Self::spec_validate(model@, permission@),
    ;
}

/// Lets in whoever holds a refresh token.
pub struct AllowRefresh;

/// Lets in administrators and super administrators.
pub struct AllowAdmin;

/// Lets in super administrators only.
pub struct AllowSuperAdmin;

impl JwtValidator for AllowRefresh {
    open spec fn spec_validate(model: user::ModelView, permission: JwtClaimsView) -> bool {
        permission.typ == TokenType::Refresh
    }

    fn validate(_model: &user::Model, permission: &JwtClaims) -> (r: bool) {
        permission.typ == TokenType::Refresh
    }
}

impl JwtValidator for AllowAdmin {
    open spec fn spec_validate(model: user::ModelView, permission: JwtClaimsView) -> bool {
        model.role == ADMIN@ || model.role == SUPER_ADMIN@
    }

    fn validate(model: &user::Model, permission: &JwtClaims) -> (r: bool) {
        model.role == String::from_str(ADMIN) || AllowSuperAdmin::validate(model, permission)
    }
}

impl JwtValidator for AllowSuperAdmin {
    open spec fn spec_validate(model: user::ModelView, permission: JwtClaimsView) -> bool {
        model.role == SUPER_ADMIN@
    }

    fn validate(model: &user::Model, _permission: &JwtClaims) -> (r: bool) {
        model.role == String::from_str(SUPER_ADMIN)
    }
}

/// What the check of a token against the user it names comes to: the
/// user is unknown, the token is tied to another key than the user has
/// now, the rule lets the user in, or it does not.
pub open spec fn spec_check_permission<V: JwtValidator>(
    this_user: Option<user::ModelView>,
    permission: JwtClaimsView,
) -> Result<Option<user::ModelView>, AErrorView> {
    match this_user {
        None => Err(spec_error(StatusCode::NotFound, "The user does not exist"@)),
        Some(model) => if model.secret_key != permission.secret_key {
            Err(spec_error(StatusCode::Unauthorized, "Invalid secret key"@))
        } else if V::spec_validate(model, permission) {
            Ok(Some(model))
        } else {
            Ok(None)
        },
    }
}

/// The row, where there is one, as contracts speak of it.
pub open spec fn user_view(this_user: Option<user::Model>) -> Option<user::ModelView> {
    match this_user {
        Some(model) => Some(model@),
        None => None,
    }
}

/// The outcome `r` as contracts speak of it: rows and failures by what
/// they stand for.
pub open spec fn permission_view(r: Result<Option<user::Model>, AError>) -> Result<
    Option<user::ModelView>,
    AErrorView,
> {
    match r {
        Ok(Some(model)) => Ok(Some(model@)),
        Ok(None) => Ok(None),
        Err(e) => Err(e@),
    }
}

/// Checks the claims of a token against `this_user`, the user that they
/// name as the store has it, under the rule `V`.
pub fn check_permission<V: JwtValidator>(this_user: Option<user::Model>, permission: &JwtClaims) -> (r:
    Result<Option<user::Model>, AError>)
    ensures
        permission_view(r) == spec_check_permission::<V>(user_view(this_user), permission@),
        r matches Ok(Some(user)) ==> this_user == Some(user),
{
    let this_user = match this_user {
        Some(model) => model,
        None => {
            return Err(not_found("The user does not exist"));
        },
    };
    if this_user.secret_key != permission.secret_key {
        return Err(unauthorized("Invalid secret key"));
    }
    if V::validate(&this_user, permission) {
        Ok(Some(this_user))
    } else {
        Ok(None)
    }
}

/// Whether `c` is one of the letters `A` to `Z` and `a` to `z` or one of
/// the digits.
pub open spec fn is_letter_or_digit(c: char) -> bool {
    ('A' <= c <= 'Z') || ('a' <= c <= 'z') || ('0' <= c <= '9')
}

/// Whether `key` is made of letters and digits alone.
pub open spec fn is_letters_and_digits(key: Seq<char>) -> bool {
    forall|i: int| 0 <= i < key.len() ==> is_letter_or_digit(#[trigger] key[i])
}

/// Whether `key` is a text that a draw of a secret key can give:
/// `SECRET_KEY_LENGTH` letters and digits.
pub open spec fn is_secret_key(key: Seq<char>) -> bool {
    key.len() == SECRET_KEY_LENGTH && is_letters_and_digits(key)
}

/// A fresh text of `len` letters and digits, each drawn by `rand`'s
/// `Alphanumeric` from the generator of the operating system `OsRng`,
/// which gives up when the system has no randomness to give.
#[verifier::external_body]
fn random_key(len: usize) -> (key: String)
    ensures
        key@.len() == len,
        is_letters_and_digits(key@),
{
    rand::rngs::OsRng.sample_iter(&rand::distributions::Alphanumeric).take(len).map(
        char::from,
    ).collect()
}

/// Whether `key` can replace the key `different_from`: any key can
/// replace none, and no key can replace itself.
pub fn is_fresh_key(key: &String, different_from: &Option<String>) -> (fresh: bool)
    ensures
        fresh == match different_from {
            Some(old_key) => key@ != old_key@,
            None => true,
        },
{
    match different_from {
        Some(old_key) => *key != *old_key,
        None => true,
    }
}

/// What the draw `drawn` comes to where the key must not be
/// `different_from`: the key that was drawn, unless it is that key.
pub open spec fn spec_accept_key(drawn: Seq<char>, different_from: Option<String>) -> Option<
    Seq<char>,
> {
    match different_from {
        Some(old_key) => if drawn != old_key@ {
            Some(drawn)
        } else {
            None
        },
        None => Some(drawn),
    }
}

/// The key, where there is one, as contracts speak of it.
pub open spec fn key_view(key: Option<String>) -> Option<Seq<char>> {
    match key {
        Some(k) => Some(k@),
        None => None,
    }
}

/// Hands out the key `drawn` unless it is the key `different_from`.
pub fn accept_key(drawn: String, different_from: &Option<String>) -> (key: Option<String>)
    ensures
        key_view(key) == spec_accept_key(drawn@, *different_from),
{
    if is_fresh_key(&drawn, different_from) {
        Some(drawn)
    } else {
        None
    }
}

/// Draws one secret key, and hands it out unless it is the key
/// `different_from`. There is a key whenever `different_from` is no key
/// that a draw can give; otherwise whoever needs a key draws until there
/// is one.
pub fn gen_secret_key(different_from: &Option<String>) -> (key: Option<String>)
    ensures
        exists|drawn: Seq<char>|
            is_secret_key(drawn) && key_view(key) == #[trigger] spec_accept_key(
                drawn,
                *different_from,
            ),
        different_from is None ==> key is Some,
        different_from matches Some(old_key) && !is_secret_key(old_key@) ==> key is Some,
        key matches Some(k) ==> is_secret_key(k@) && (different_from matches Some(old_key)
            ==> k@ != old_key@),
        key is None ==> (different_from matches Some(old_key) && is_secret_key(old_key@)),
{
    let drawn = random_key(SECRET_KEY_LENGTH);
    let ghost text = drawn@;
    let key = accept_key(drawn, different_from);
    assert(is_secret_key(text) && key_view(key) == spec_accept_key(text, *different_from));
    key
}

impl CheckPermission for AllowRefresh {
    type Output = user::Model;

    type Authentication = JwtClaims;

    type AppData = Option<user::Model>;

    open spec fn outcome(
        data: Option<user::Model>,
        permission: JwtClaims,
        r: Result<Option<user::Model>, AError>,
    ) -> bool {
        &&& permission_view(r) == spec_check_permission::<AllowRefresh>(user_view(data), permission@)
        &&& r matches Ok(Some(user)) ==> data == Some(user)
    }

    fn check_permission(data: Option<user::Model>, permission: &JwtClaims) -> (r: Result<
        Option<user::Model>,
        AError,
    >) {
        check_permission::<AllowRefresh>(data, permission)
    }
}

impl CheckPermission for AllowAdmin {
    type Output = user::Model;

    type Authentication = JwtClaims;

    type AppData = Option<user::Model>;

    open spec fn outcome(
        data: Option<user::Model>,
        permission: JwtClaims,
        r: Result<Option<user::Model>, AError>,
    ) -> bool {
        &&& permission_view(r) == spec_check_permission::<AllowAdmin>(user_view(data), permission@)
        &&& r matches Ok(Some(user)) ==> data == Some(user)
    }

    fn check_permission(data: Option<user::Model>, permission: &JwtClaims) -> (r: Result<
        Option<user::Model>,
        AError,
    >) {
        check_permission::<AllowAdmin>(data, permission)
    }
}

impl CheckPermission for AllowSuperAdmin {
    type Output = user::Model;

    type Authentication = JwtClaims;

    type AppData = Option<user::Model>;

    open spec fn outcome(
        data: Option<user::Model>,
        permission: JwtClaims,
        r: Result<Option<user::Model>, AError>,
    ) -> bool {
        &&& permission_view(r) == spec_check_permission::<AllowSuperAdmin>(
            user_view(data),
            permission@,
        )
        &&& r matches Ok(Some(user)) ==> data == Some(user)
    }

    fn check_permission(data: Option<user::Model>, permission: &JwtClaims) -> (r: Result<
        Option<user::Model>,
        AError,
    >) {
        check_permission::<AllowSuperAdmin>(data, permission)
    }
}

} // verus!
