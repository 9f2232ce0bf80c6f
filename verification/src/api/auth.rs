//! Who may do what: signing in, and the rules on registering, reading,
//! changing and removing users.

use vstd::prelude::*;
use vstd::string::StringExecFns;

use argon2::PasswordHasher;
use argon2::PasswordVerifier;

use crate::api::Paged;
use crate::api::PagingRequest;
use crate::api::paged;
use crate::clock::now;
use crate::clock::Timestamp;
use crate::constants::user_type::ADMIN;
use crate::constants::user_type::SUPER_ADMIN;
use crate::entity::ActiveValue;
use crate::entity::user;
use crate::entity::user::GetUser;
use crate::entity::user::UpdateUser;
use crate::utils::errors::AError;
use crate::utils::errors::AErrorView;
use crate::utils::errors::StatusCode;
use crate::utils::errors::bad_request;
use crate::utils::errors::conflict;
use crate::utils::errors::forbidden;
use crate::utils::errors::iam_a_teapot;
use crate::utils::errors::not_found;
use crate::utils::errors::spec_error;
use crate::utils::jwt::error_from_jwt;
use crate::utils::jwt::gen_secret_key;
use crate::utils::jwt::issue_acc_ref_token;
use crate::utils::jwt::issue_acc_ref_token_at;
use crate::utils::jwt::spec_token_pair;
use crate::utils::jwt::user_view;
use crate::utils::permission::permission_denied;

verus! {

/// `argon2::password_hash::Error`, the error of the hashing library. A
/// value of it is carried through as it is; nothing is known of what
/// it holds.
#[verifier::external_type_specification]
#[verifier::external_body]
pub struct ExPasswordHashError(argon2::password_hash::Error);

/// The credentials that a user signs in with.
#[derive(Debug, Clone, PartialEq, Eq)]
pub struct LoginRequest {
    pub id: i32,
    pub password: String,
}

/// The two tokens that a user gets on signing in: a short-lived one to
/// act with, and a longer-lived one to get the next pair.
#[derive(Debug, Clone, PartialEq, Eq)]
pub struct JwtToken {
    pub access_token: String,
    pub refresh_token: String,
}

/// Whether `password` is the password that `hash` was made of, as
/// `argon2` finds it: `None` where it cannot tell, because `hash` is no
/// hash that it can read or the computation fails.
pub uninterp spec fn spec_verify_password(password: Seq<char>, hash: Seq<char>) -> Option<bool>;

/// Checks `password` against `hash`: parses the hash with
/// `argon2::PasswordHash::new` and recomputes it with
/// `Argon2::verify_password` under the default parameters. A password
/// that does not match comes back as `Ok(false)`, any other failure as
/// the error of `argon2`.
#[verifier::external_body]
fn verify_password(password: &str, hash: &str) -> (r: Result<bool, argon2::password_hash::Error>)
    ensures
        match r {
            Ok(matches) => spec_verify_password(password@, hash@) == Some(matches),
            Err(_) => spec_verify_password(password@, hash@) is None,
        },
{
    let parsed = argon2::PasswordHash::new(hash)?;
    match argon2::Argon2::default().verify_password(password.as_bytes(), &parsed) {
        Ok(()) => Ok(true),
        Err(argon2::password_hash::Error::Password) => Ok(false),
        Err(e) => Err(e),
    }
}

/// Hashes `password` under a salt that `SaltString::generate` draws from
/// the generator of the operating system, with `Argon2::hash_password`
/// under the default parameters. Nothing is claimed of the hash: the salt
/// differs from call to call. The generator gives up when the system has
/// no randomness to give.
#[verifier::external_body]
fn to_salted_password(password: &String) -> (r: Result<String, argon2::password_hash::Error>) {
    let salt = argon2::password_hash::SaltString::generate(&mut rand::rngs::OsRng);
    Ok(argon2::Argon2::default().hash_password(password.as_bytes(), &salt)?.to_string())
}

/// The text of the error `err` of the hashing library.
pub uninterp spec fn spec_password_error_text(err: argon2::password_hash::Error) -> Seq<char>;

/// The text of an error of `argon2`, as its `Display` gives it.
#[verifier::external_body]
fn password_error_text(err: &argon2::password_hash::Error) -> (text: String)
    ensures
        text@ == spec_password_error_text(*err),
{
    err.to_string()
}

/// The failure of the service that an error of `argon2` stands for, with
/// the text of the error as its message.
pub fn error_from_password_hash(err: argon2::password_hash::Error) -> (e: AError)
    ensures
        e@ == spec_error(StatusCode::InternalServerError, spec_password_error_text(err)),
{
    let text = password_error_text(&err);
    AError { status: StatusCode::InternalServerError, message: text }
}

/// What is reported where the user is not there.
pub open spec fn user_not_found() -> AErrorView {
    spec_error(StatusCode::NotFound, "User not found"@)
}

/// Whether the row at position `i` is the user `id`, not deleted.
pub open spec fn is_user_at(users: Seq<user::Model>, i: int, id: int) -> bool {
    0 <= i < users.len() && users[i].id == id && !users[i].is_deleted
}

/// The user `id` among `users`, unless deleted: the first such row.
pub fn find_user_by_id(id: i32, users: &Vec<user::Model>) -> (found: Option<user::Model>)
    ensures
        match found {
            Some(user) => exists|i: int|
                is_user_at(users@, i, id as int) && user@ == users[i]@ && forall|j: int|
                    0 <= j < i ==> !is_user_at(users@, j, id as int),
            None => forall|i: int| !is_user_at(users@, i, id as int),
        },
{
    let mut i: usize = 0;
    while i < users.len()
        invariant
            i <= users.len(),
            forall|j: int| 0 <= j < i ==> !is_user_at(users@, j, id as int),
        decreases users.len() - i,
    {
        if users[i].id == id && !users[i].is_deleted {
            assert(is_user_at(users@, i as int, id as int));
            return Some(users[i].duplicate());
        }
        i += 1;
    }
    None
}

/// The rows as contracts speak of them.
pub open spec fn user_views(rows: Seq<user::Model>) -> Seq<user::ModelView> {
    rows.map_values(|user: user::Model| user@)
}

/// The rule that picks the users that are not deleted.
pub open spec fn is_not_deleted() -> spec_fn(user::ModelView) -> bool {
    |user: user::ModelView| !user.is_deleted
}

/// The users among `users` that are not deleted, in their order.
pub fn find_user(users: &Vec<user::Model>) -> (found: Vec<user::Model>)
    ensures
        user_views(found@) == user_views(users@).filter(is_not_deleted()),
{
    let mut rows: Vec<user::Model> = Vec::new();
    let mut i: usize = 0;
    proof {
        crate::api::lemma_filter_none(user_views(users@), is_not_deleted());
    }
    while i < users.len()
        invariant
            i <= users.len(),
            user_views(rows@) =~= user_views(users@).take(i as int).filter(is_not_deleted()),
        decreases users.len() - i,
    {
        proof {
            crate::api::lemma_filter_step(user_views(users@), i as int, is_not_deleted());
        }
        if !users[i].is_deleted {
            let ghost listed = rows@;
            rows.push(users[i].duplicate());
            assert(user_views(rows@) =~= user_views(listed).push(users@[i as int]@));
        }
        i += 1;
    }
    assert(user_views(users@).take(i as int) =~= user_views(users@));
    rows
}

/// The rows as contracts speak of them.
pub open spec fn shown_users(rows: Seq<GetUser>) -> Seq<user::GetUserView> {
    rows.map_values(|user: GetUser| user@)
}

/// The users as a client sees them at the time `now`.
pub open spec fn users_at(rows: Seq<user::ModelView>, now: Timestamp) -> Seq<
    user::GetUserView,
> {
    rows.map_values(|user: user::ModelView| user.shown(now.spec_days_since(user.birth)))
}

/// The page `paging` of the users among `users` that are not deleted, as
/// a client sees them at the time `now`, with the number of all of them.
pub fn get_users_at(paging: PagingRequest, users: &Vec<user::Model>, now: &Timestamp) -> (page:
    Paged<GetUser>)
    ensures
        page.count == user_views(users@).filter(is_not_deleted()).len(),
        shown_users(page.items@) == users_at(
            user_views(users@).filter(is_not_deleted()),
            *now,
        ).subrange(paging.spec_start(page.count as int), paging.spec_end(page.count as int)),
{
    let found = paged(find_user(users), paging);
    let Paged { count, items } = found;
    let ghost all = user_views(users@).filter(is_not_deleted());
    let ghost start = paging.spec_start(count as int);
    let ghost end = paging.spec_end(count as int);
    let mut shown: Vec<GetUser> = Vec::new();
    let mut i: usize = 0;
    assert(user_views(items@) =~= all.subrange(start, end));
    while i < items.len()
        invariant
            i <= items.len(),
            shown_users(shown@) =~= users_at(user_views(items@), *now).take(i as int),
        decreases items.len() - i,
    {
        let ghost listed = shown@;
        shown.push(GetUser::from_model_at(items[i].duplicate(), now));
        assert(shown_users(shown@) =~= shown_users(listed).push(
            items@[i as int]@.shown(now.spec_days_since(items@[i as int].birth)),
        ));
        i += 1;
    }
    assert(users_at(user_views(items@), *now).take(i as int) =~= users_at(user_views(items@), *now));
    assert(users_at(all.subrange(start, end), *now) =~= users_at(all, *now).subrange(start, end));
    Paged { count, items: shown }
}

/// The page `paging` of the users among `users` that are not deleted, as
/// a client sees them now, with the number of all of them.
pub fn get_users(paging: PagingRequest, users: &Vec<user::Model>) -> (page: Paged<GetUser>)
    ensures
        page.count == user_views(users@).filter(is_not_deleted()).len(),
        exists|t: Timestamp|
            shown_users(page.items@) == (#[trigger] users_at(
                user_views(users@).filter(is_not_deleted()),
                t,
            )).subrange(paging.spec_start(page.count as int), paging.spec_end(page.count as int)),
{
    let t = now();
    get_users_at(paging, users, &t)
}

/// What signing in comes to at the time `now`, where `user` is the user
/// that the credentials name, as the store has it.
///
/// An unknown user is not found. A password that does not match is
/// turned away as invalid credentials; a hash that cannot be checked is a
/// failure of the service. Otherwise the user gets a pair of tokens,
/// signed with `jwt_secret`.
pub fn login_at(creds: &LoginRequest, user: Option<user::Model>, now: i64, jwt_secret: &str) -> (r:
    Result<JwtToken, AError>)
    requires
        -0x1_0000_0000_0000 < now < 0x1_0000_0000_0000,
    ensures
        match user {
            None => r matches Err(e) && e@ == user_not_found(),
            Some(u) => match spec_verify_password(creds.password@, u.password_salt@) {
                None => r matches Err(e) && e.status == StatusCode::InternalServerError,
                Some(false) => r matches Err(e) && e@ == spec_error(
                    StatusCode::ImATeapot,
                    "Invalid credentials"@,
                ),
                Some(true) => match spec_token_pair(
                    u.id as int,
                    u.secret_key@,
                    now as int,
                    jwt_secret@,
                ) {
                    Some(pair) => r matches Ok(tokens) && tokens.access_token@ == pair.0
                        && tokens.refresh_token@ == pair.1,
                    None => r matches Err(e) && e.status == StatusCode::InternalServerError,
                },
            },
        },
{
    let user = match user {
        Some(user) => user,
        None => {
            return Err(not_found("User not found"));
        },
    };
    match verify_password(creds.password.as_str(), user.password_salt.as_str()) {
        Ok(true) => {},
        Ok(false) => {
            return Err(iam_a_teapot("Invalid credentials"));
        },
        Err(e) => {
            return Err(error_from_password_hash(e));
        },
    }
    match issue_acc_ref_token_at(user.id, user.secret_key, now, jwt_secret) {
        Ok(tokens) => Ok(tokens),
        Err(e) => Err(error_from_jwt(e)),
    }
}

/// What has to be found out before a user of some role is registered.
#[derive(Debug, Clone, Copy, PartialEq, Eq, Structural)]
pub enum RegistrationCheck {
    /// An administrator is registered by a super administrator only.
    BySuperAdmin,
    /// A super administrator is registered only while there is none.
    NoSuperAdminYet,
}

/// What has to be found out before a user of the role `role` is
/// registered. No other role than administrator and super administrator
/// can be registered.
pub fn registration_check(role: &String) -> (r: Result<RegistrationCheck, AError>)
    ensures
        role@ == ADMIN@ ==> r == Ok::<RegistrationCheck, AError>(RegistrationCheck::BySuperAdmin),
        role@ != ADMIN@ && role@ == SUPER_ADMIN@ ==> r == Ok::<RegistrationCheck, AError>(
            RegistrationCheck::NoSuperAdminYet,
        ),
        role@ != ADMIN@ && role@ != SUPER_ADMIN@ ==> (r matches Err(e) && e@ == spec_error(
            StatusCode::BadRequest,
            "Invalid user role"@,
        )),
{
    if *role == String::from_str(ADMIN) {
        Ok(RegistrationCheck::BySuperAdmin)
    } else if *role == String::from_str(SUPER_ADMIN) {
        Ok(RegistrationCheck::NoSuperAdminYet)
    } else {
        Err(bad_request("Invalid user role"))
    }
}

/// Whether a super administrator can be registered, where
/// `super_admin` is one that the store has, if it has any.
pub fn no_super_admin_yet(super_admin: &Option<user::Model>) -> (r: Result<(), AError>)
    ensures
        super_admin is None ==> r is Ok,
        super_admin is Some ==> (r matches Err(e) && e@ == spec_error(
            StatusCode::Conflict,
            "Super admin already exists"@,
        )),
{
    match super_admin {
        Some(_) => Err(conflict("Super admin already exists")),
        None => Ok(()),
    }
}

/// The row for the user that `info` registers, with `hashed` as the hash
/// of its password and `secret_key` as the key that its tokens are tied
/// to.
pub open spec fn spec_registered(info: user::NewUser, hashed: String, secret_key: String) -> user::ActiveModel {
    user::ActiveModel {
        id: ActiveValue::NotSet,
        password_salt: ActiveValue::Changed(hashed),
        secret_key: ActiveValue::Changed(secret_key),
        role: ActiveValue::Changed(info.role),
        real_name: ActiveValue::Changed(info.real_name),
        sex: ActiveValue::Changed(info.sex),
        birth: match info.birth {
            Some(birth) => ActiveValue::Changed(birth),
            None => ActiveValue::NotSet,
        },
        is_deleted: ActiveValue::Changed(false),
    }
}

/// Why a user of the role `role` cannot be registered, if it cannot,
/// where `by_super_admin` is what the check of the caller as a super
/// administrator came to, and `super_admin` a super administrator that
/// the store has, if it has any.
///
/// An administrator is registered by a super administrator only: where
/// the caller did not pass as one, the failure of that check is the
/// reason. A super administrator is registered only while there is
/// none. No other role can be registered.
pub open spec fn spec_registration_refusal(
    role: Seq<char>,
    by_super_admin: Result<(), AError>,
    super_admin: Option<user::Model>,
) -> Option<AErrorView> {
    if role == ADMIN@ {
        match by_super_admin {
            Ok(()) => None,
            Err(e) => Some(e@),
        }
    } else if role == SUPER_ADMIN@ {
        if super_admin is Some {
            Some(spec_error(StatusCode::Conflict, "Super admin already exists"@))
        } else {
            None
        }
    } else {
        Some(spec_error(StatusCode::BadRequest, "Invalid user role"@))
    }
}

/// Refuses the registration of a user of the role `role` where it is
/// not to be, given what the check of the caller as a super
/// administrator came to and a super administrator that the store has.
pub fn check_registration(
    role: &String,
    by_super_admin: Result<(), AError>,
    super_admin: &Option<user::Model>,
) -> (r: Result<(), AError>)
    ensures
        match spec_registration_refusal(role@, by_super_admin, *super_admin) {
            Some(refusal) => r matches Err(e) && e@ == refusal,
            None => r is Ok,
        },
{
    match registration_check(role) {
        Ok(RegistrationCheck::BySuperAdmin) => by_super_admin,
        Ok(RegistrationCheck::NoSuperAdminYet) => no_super_admin_yet(super_admin),
        Err(e) => Err(e),
    }
}

/// What the registration of the user `info` comes to where `hashed` is
/// the hash of its password and `secret_key` the key that its tokens are
/// tied to: the reason why it is refused, or the row to write.
pub open spec fn spec_register(
    info: user::NewUser,
    by_super_admin: Result<(), AError>,
    super_admin: Option<user::Model>,
    hashed: String,
    secret_key: String,
) -> Result<user::ActiveModel, AErrorView> {
    match spec_registration_refusal(info.role@, by_super_admin, super_admin) {
        Some(refusal) => Err(refusal),
        None => Ok(spec_registered(info, hashed, secret_key)),
    }
}

/// Registers the user `info` with `hashed` as the hash of its password
/// and `secret_key` as the key that its tokens are tied to, where
/// `by_super_admin` is what the check of the caller as a super
/// administrator came to, and `super_admin` a super administrator that
/// the store has, if it has any.
///
/// Refused where the role is none that can be registered, where an
/// administrator is not registered by a super administrator, and where
/// a super administrator is registered while there is one. Otherwise
/// the row to write comes back.
pub fn registered(
    info: user::NewUser,
    by_super_admin: Result<(), AError>,
    super_admin: &Option<user::Model>,
    hashed: String,
    secret_key: String,
) -> (r: Result<user::ActiveModel, AError>)
    ensures
        row_view(r) == spec_register(info, by_super_admin, *super_admin, hashed, secret_key),
{
    match check_registration(&info.role, by_super_admin, super_admin) {
        Ok(()) => {},
        Err(e) => {
            return Err(e);
        },
    }
    let user::NewUser { password_salt: _, role, real_name, sex, birth } = info;
    let mut row = user::NewUser { password_salt: hashed, role, real_name, sex, birth }.into_active_model();
    row.secret_key = ActiveValue::Changed(secret_key);
    Ok(row)
}

/// Registers the user `info` with `secret_key` as the key that its
/// tokens are tied to, where `by_super_admin` is what the check of the
/// caller as a super administrator came to, and `super_admin` a super
/// administrator that the store has, if it has any.
///
/// Refused, before anything is hashed, where the role is none that can
/// be registered, where an administrator is not registered by a super
/// administrator, and where a super administrator is registered while
/// there is one. Otherwise the password is hashed and the row to write
/// comes back; the registration fails where the password cannot be
/// hashed.
pub fn register(
    info: user::NewUser,
    by_super_admin: Result<(), AError>,
    super_admin: &Option<user::Model>,
    secret_key: String,
) -> (r: Result<user::ActiveModel, AError>)
    ensures
        match spec_registration_refusal(info.role@, by_super_admin, *super_admin) {
            Some(refusal) => r matches Err(e) && e@ == refusal,
            None => match r {
                Ok(row) => exists|hashed: String|
                    row == #[trigger] spec_registered(info, hashed, secret_key),
                Err(e) => e.status == StatusCode::InternalServerError,
            },
        },
{
    match check_registration(&info.role, by_super_admin, super_admin) {
        Ok(()) => {},
        Err(e) => {
            return Err(e);
        },
    }
    let hashed = match to_salted_password(&info.password_salt) {
        Ok(hashed) => hashed,
        Err(e) => {
            return Err(error_from_password_hash(e));
        },
    };
    registered(info, Ok(()), &None, hashed, secret_key)
}

/// Whether the user `auth` may read, change or remove the user `id`:
/// every user may do so to itself, and a super administrator to all.
pub open spec fn spec_may_access(auth: user::ModelView, id: int) -> bool {
    auth.role == SUPER_ADMIN@ || auth.id == id
}

pub fn may_access(auth: &user::Model, id: i32) -> (r: bool)
    ensures
        r == spec_may_access(auth@, id as int),
{
    auth.role == String::from_str(SUPER_ADMIN) || auth.id == id
}

/// The user `id` as `auth` may see it, `days` days after its birth, where
/// `target` is that user as the store has it.
pub open spec fn spec_get_user(
    id: int,
    auth: user::ModelView,
    target: Option<user::ModelView>,
    days: int,
) -> Result<user::GetUserView, AErrorView> {
    if !spec_may_access(auth, id) {
        Err(permission_denied())
    } else {
        match target {
            None => Err(user_not_found()),
            Some(user) => Ok(user.shown(days)),
        }
    }
}

/// The outcome `r` as contracts speak of it: rows and failures by what
/// they stand for.
pub open spec fn shown_user(r: Result<GetUser, AError>) -> Result<user::GetUserView, AErrorView> {
    match r {
        Ok(user) => Ok(user@),
        Err(e) => Err(e@),
    }
}

/// Shows the user `id` to `auth`, where `target` is that user as the
/// store has it. Only the user itself and a super administrator may see
/// it.
pub fn get_user(id: i32, auth: &user::Model, target: Option<user::Model>) -> (r: Result<
    GetUser,
    AError,
>)
    ensures
        exists|days: int|
            shown_user(r) == #[trigger] spec_get_user(id as int, auth@, user_view(target), days),
{
    if !may_access(auth, id) {
        let e = forbidden("Permission denied");
        assert(Err::<user::GetUserView, AErrorView>(e@) == spec_get_user(
            id as int,
            auth@,
            user_view(target),
            0,
        ));
        return Err(e);
    }
    match target {
        Some(user) => {
            let ghost before = user@;
            let shown = GetUser::from_model(user);
            let ghost days = choose|days: int| shown@ == #[trigger] before.shown(days);
            assert(Ok::<user::GetUserView, AErrorView>(shown@) == spec_get_user(
                id as int,
                auth@,
                user_view(target),
                days,
            ));
            Ok(shown)
        },
        None => {
            let e = not_found("User not found");
            assert(Err::<user::GetUserView, AErrorView>(e@) == spec_get_user(
                id as int,
                auth@,
                user_view(target),
                0,
            ));
            Err(e)
        },
    }
}

/// Whether `auth` may make the change `info` to the user `id`: it must
/// be allowed to change that user at all, and only a super administrator
/// can make a super administrator.
pub open spec fn spec_may_update(id: int, info: UpdateUser, auth: user::ModelView) -> bool {
    &&& spec_may_access(auth, id)
    &&& !(info.role matches Some(role) && auth.role != SUPER_ADMIN@ && role@ == SUPER_ADMIN@)
}

/// The row for the change `info` to the user `id`, asked for by `auth`,
/// with `hashed` as the hash of the new password where there is one.
pub open spec fn spec_update_user(
    id: i32,
    info: UpdateUser,
    auth: user::ModelView,
    hashed: Option<String>,
) -> Result<user::ActiveModel, AErrorView> {
    if !spec_may_update(id as int, info, auth) {
        Err(permission_denied())
    } else {
        Ok(
            user::ActiveModel {
                id: ActiveValue::Unchanged(id),
                password_salt: match hashed {
                    Some(v) => ActiveValue::Changed(v),
                    None => ActiveValue::NotSet,
                },
                secret_key: ActiveValue::NotSet,
                role: match info.role {
                    Some(v) => ActiveValue::Changed(v),
                    None => ActiveValue::NotSet,
                },
                real_name: match info.real_name {
                    Some(v) => ActiveValue::Changed(v),
                    None => ActiveValue::NotSet,
                },
                sex: match info.sex {
                    Some(v) => ActiveValue::Changed(v),
                    None => ActiveValue::NotSet,
                },
                birth: match info.birth {
                    Some(v) => ActiveValue::Changed(v),
                    None => ActiveValue::NotSet,
                },
                is_deleted: ActiveValue::NotSet,
            },
        )
    }
}

/// The outcome `r` as contracts speak of it: rows and failures by what
/// they stand for.
pub open spec fn row_view(r: Result<user::ActiveModel, AError>) -> Result<
    user::ActiveModel,
    AErrorView,
> {
    match r {
        Ok(row) => Ok(row),
        Err(e) => Err(e@),
    }
}

/// Refuses the change `info` to the user `id` where `auth` may not make
/// it.
pub fn check_update(id: i32, info: &UpdateUser, auth: &user::Model) -> (r: Result<(), AError>)
    ensures
        spec_may_update(id as int, *info, auth@) ==> r is Ok,
        !spec_may_update(id as int, *info, auth@) ==> (r matches Err(e) && e@
            == permission_denied()),
{
    if !may_access(auth, id) {
        return Err(forbidden("Permission denied"));
    }
    match &info.role {
        Some(wanted) => {
            if auth.role != String::from_str(SUPER_ADMIN) && *wanted == String::from_str(
                SUPER_ADMIN,
            ) {
                return Err(forbidden("Permission denied"));
            }
        },
        None => {},
    }
    Ok(())
}

/// The row for the change `info` to the user `id`, asked for by `auth`,
/// with `hashed` in the place of the new password. Refused where `auth`
/// may not make the change. The key of the row is `id`, and stays.
pub fn updated_user(id: i32, info: UpdateUser, auth: &user::Model, hashed: Option<String>) -> (r:
    Result<user::ActiveModel, AError>)
    ensures
        row_view(r) == spec_update_user(id, info, auth@, hashed),
{
    match check_update(id, &info, auth) {
        Ok(()) => {},
        Err(e) => {
            return Err(e);
        },
    }
    let UpdateUser { password_salt: _, role, real_name, sex, birth } = info;
    let mut row = UpdateUser { password_salt: hashed, role, real_name, sex, birth }.into_active_model();
    row.id = ActiveValue::Unchanged(id);
    Ok(row)
}

/// The row for the change `info` to the user `id`, asked for by `auth`.
///
/// Refused where `auth` may not make it. A new password is hashed before
/// it is written; the change fails where it cannot be hashed. The key of
/// the row is `id`, and stays.
pub fn update_user(id: i32, info: UpdateUser, auth: &user::Model) -> (r: Result<
    user::ActiveModel,
    AError,
>)
    ensures
        !spec_may_update(id as int, info, auth@) ==> (r matches Err(e) && e@
            == permission_denied()),
        spec_may_update(id as int, info, auth@) ==> match r {
            Ok(row) => exists|hashed: Option<String>|
                hashed is Some == info.password_salt is Some && Ok::<user::ActiveModel, AErrorView>(
                    row,
                ) == #[trigger] spec_update_user(id, info, auth@, hashed),
            Err(e) => info.password_salt is Some && e.status == StatusCode::InternalServerError,
        },
{
    match check_update(id, &info, auth) {
        Ok(()) => {},
        Err(e) => {
            return Err(e);
        },
    }
    let hashed = match &info.password_salt {
        Some(password) => match to_salted_password(password) {
            Ok(hashed) => Some(hashed),
            Err(e) => {
                return Err(error_from_password_hash(e));
            },
        },
        None => None,
    };
    updated_user(id, info, auth, hashed)
}

/// The user `id` marked as deleted, as `auth` asks, where `target` is
/// that user as the store has it: `auth` itself where it removes itself.
pub open spec fn spec_delete_user(
    id: int,
    auth: user::ModelView,
    target: Option<user::ModelView>,
) -> Result<user::ModelView, AErrorView> {
    if !spec_may_access(auth, id) {
        Err(permission_denied())
    } else if id == auth.id {
        Ok(user::ModelView { is_deleted: true, ..auth })
    } else {
        match target {
            None => Err(user_not_found()),
            Some(user) => Ok(user::ModelView { is_deleted: true, ..user }),
        }
    }
}

/// The outcome `r` as contracts speak of it: rows and failures by what
/// they stand for.
pub open spec fn removed_view(r: Result<user::Model, AError>) -> Result<user::ModelView, AErrorView> {
    match r {
        Ok(user) => Ok(user@),
        Err(e) => Err(e@),
    }
}

/// Marks the user `id` as deleted, as `auth` asks. Only the user itself
/// and a super administrator may do so. The row stays in the store.
pub fn delete_user(id: i32, auth: user::Model, target: Option<user::Model>) -> (r: Result<
    user::Model,
    AError,
>)
    ensures
        removed_view(r) == spec_delete_user(id as int, auth@, user_view(target)),
{
    if !may_access(&auth, id) {
        return Err(forbidden("Permission denied"));
    }
    let target = if id == auth.id {
        auth
    } else {
        match target {
            Some(user) => user,
            None => {
                return Err(not_found("User not found"));
            },
        }
    };
    let mut removed = target;
    removed.is_deleted = true;
    Ok(removed)
}

/// The user `auth` with `secret_key` as the key that its tokens are tied
/// to.
pub fn rekeyed(auth: user::Model, secret_key: String) -> (user: user::Model)
    ensures
        user@ == (user::ModelView { secret_key: secret_key@, ..auth@ }),
{
    let mut user = auth;
    user.secret_key = secret_key;
    user
}

/// Signs the user `auth` out: draws a secret key and returns `auth` with
/// it, so that no token issued before is good any longer, unless it is
/// the key that `auth` has. That cannot be where the key of `auth` is
/// none that a draw can give; otherwise the caller draws until it is not.
pub fn logout(auth: user::Model) -> (r: Option<user::Model>)
    ensures
        exists|drawn: Seq<char>|
            crate::utils::jwt::is_secret_key(drawn) && user_view(r) == #[trigger] spec_logout(
                auth@,
                drawn,
            ),
        !crate::utils::jwt::is_secret_key(auth@.secret_key) ==> r is Some,
        r matches Some(user) ==> user@.secret_key != auth@.secret_key
            && crate::utils::jwt::is_secret_key(user@.secret_key) && user@ == (user::ModelView {
            secret_key: user@.secret_key,
            ..auth@
        }),
{
    let old_key = Some(auth.secret_key.clone());
    let drawn = gen_secret_key(&old_key);
    proof {
        let text = choose|text: Seq<char>|
            crate::utils::jwt::is_secret_key(text) && crate::utils::jwt::key_view(drawn)
                == #[trigger] crate::utils::jwt::spec_accept_key(text, old_key);
        assert(match drawn {
            Some(key) => spec_logout(auth@, key@),
            None => None,
        } == spec_logout(auth@, text));
    }
    logout_with(auth, drawn)
}

/// What signing the user `auth` out comes to where the key `drawn` was
/// drawn: `auth` with that key, unless it is the key that `auth` has.
pub open spec fn spec_logout(auth: user::ModelView, drawn: Seq<char>) -> Option<user::ModelView> {
    if drawn != auth.secret_key {
        Some(user::ModelView { secret_key: drawn, ..auth })
    } else {
        None
    }
}

/// Signs the user `auth` out with the key `drawn`, where one was drawn:
/// returns `auth` with that key, unless it is the key that `auth` has.
pub fn logout_with(auth: user::Model, drawn: Option<String>) -> (r: Option<user::Model>)
    ensures
        user_view(r) == match drawn {
            Some(key) => spec_logout(auth@, key@),
            None => None,
        },
{
    match drawn {
        Some(key) => {
            if key != auth.secret_key {
                Some(rekeyed(auth, key))
            } else {
                None
            }
        },
        None => None,
    }
}

/// What signing in comes to now.
pub fn login(creds: &LoginRequest, user: Option<user::Model>, jwt_secret: &str) -> (r: Result<
    JwtToken,
    AError,
>)
    ensures
        user is None ==> (r matches Err(e) && e@ == user_not_found()),
        user matches Some(u) && spec_verify_password(creds.password@, u.password_salt@) == Some(false)
            ==> (r matches Err(e) && e@ == spec_error(
            StatusCode::ImATeapot,
            "Invalid credentials"@,
        )),
        user matches Some(u) && spec_verify_password(creds.password@, u.password_salt@) is None
            ==> (r matches Err(e) && e.status == StatusCode::InternalServerError),
        r matches Ok(tokens) ==> user is Some && spec_verify_password(
            creds.password@,
            user->0.password_salt@,
        ) == Some(true) && exists|now: int|
            #[trigger] spec_token_pair(
                user->0.id as int,
                user->0.secret_key@,
                now,
                jwt_secret@,
            ) == Some((tokens.access_token@, tokens.refresh_token@)),
{
    let t = now().seconds;
    login_at(creds, user, t, jwt_secret)
}

/// The pair of tokens that the user `auth` gets for its refresh token.
pub fn refresh(auth: &user::Model, jwt_secret: &str) -> (r: Result<JwtToken, AError>)
    ensures
        r matches Ok(tokens) ==> exists|now: int|
            #[trigger] spec_token_pair(auth.id as int, auth.secret_key@, now, jwt_secret@) == Some(
                (tokens.access_token@, tokens.refresh_token@),
            ),
        r matches Err(e) ==> e.status == StatusCode::InternalServerError && exists|now: int|
            #[trigger] spec_token_pair(auth.id as int, auth.secret_key@, now, jwt_secret@) is None,
{
    match issue_acc_ref_token(auth.id, auth.secret_key.clone(), jwt_secret) {
        Ok(tokens) => Ok(tokens),
        Err(e) => Err(error_from_jwt(e)),
    }
}

/// The user `auth` as it sees itself.
pub fn get_self(auth: user::Model) -> (shown: GetUser)
    ensures
        exists|days: int| shown@ == #[trigger] auth@.shown(days),
{
    GetUser::from_model(auth)
}

} // verus!
