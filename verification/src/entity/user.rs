//! The users of the back office.

use vstd::prelude::*;

use crate::clock::Timestamp;

use crate::clock::now;
use crate::entity::ActiveValue;
use crate::entity::Sex;
use crate::entity::to_active;

verus! {

/// A user as it is stored.
#[derive(Debug, Clone, PartialEq, Eq)]
pub struct Model {
    pub id: i32,
    /// The hash of the password, with its salt.
    pub password_salt: String,
    /// The key that the tokens of the user are tied to: a token that names
    /// another key is no longer good.
    pub secret_key: String,
    pub role: String,
    pub real_name: String,
    pub sex: Sex,
    pub birth: Timestamp,
    /// Users are never removed, only marked.
    pub is_deleted: bool,
}

/// What a `Model` stands for in contracts: its texts as sequences of
/// characters, its numbers without bounds.
pub struct ModelView {
    pub id: int,
    pub password_salt: Seq<char>,
    pub secret_key: Seq<char>,
    pub role: Seq<char>,
    pub real_name: Seq<char>,
    pub sex: Sex,
    pub birth: Timestamp,
    pub is_deleted: bool,
}

impl View for Model {
    type V = ModelView;

    open spec fn view(&self) -> ModelView {
        ModelView {
            id: self.id as int,
            password_salt: self.password_salt@,
            secret_key: self.secret_key@,
            role: self.role@,
            real_name: self.real_name@,
            sex: self.sex,
            birth: self.birth,
            is_deleted: self.is_deleted,
        }
    }
}

/// A user as it is shown to a client.
#[derive(Debug, Clone, PartialEq, Eq)]
pub struct GetUser {
    pub id: i32,
    pub role: String,
    pub real_name: String,
    pub sex: Sex,
    /// Full years of 365 days since the birth.
    pub age: i64,
}

/// What a `GetUser` stands for in contracts: its texts as sequences of
/// characters, its numbers without bounds.
pub struct GetUserView {
    pub id: int,
    pub role: Seq<char>,
    pub real_name: Seq<char>,
    pub sex: Sex,
    pub age: int,
}

impl View for GetUser {
    type V = GetUserView;

    open spec fn view(&self) -> GetUserView {
        GetUserView {
            id: self.id as int,
            role: self.role@,
            real_name: self.real_name@,
            sex: self.sex,
            age: self.age as int,
        }
    }
}

/// A request to register a user. `password_salt` holds the password as
/// it came in, until it is hashed.
#[derive(Debug, Clone, PartialEq, Eq)]
pub struct NewUser {
    pub password_salt: String,
    pub role: String,
    pub real_name: String,
    pub sex: Sex,
    pub birth: Option<Timestamp>,
}

/// A request to change a user: what is absent stays as it is.
#[derive(Debug, Clone, PartialEq, Eq)]
pub struct UpdateUser {
    pub password_salt: Option<String>,
    pub role: Option<String>,
    pub real_name: Option<String>,
    pub sex: Option<Sex>,
    pub birth: Option<Timestamp>,
}

/// A user that is about to be written, column by column.
#[derive(Debug, Clone, PartialEq, Eq)]
pub struct ActiveModel {
    pub id: ActiveValue<i32>,
    pub password_salt: ActiveValue<String>,
    pub secret_key: ActiveValue<String>,
    pub role: ActiveValue<String>,
    pub real_name: ActiveValue<String>,
    pub sex: ActiveValue<Sex>,
    pub birth: ActiveValue<Timestamp>,
    pub is_deleted: ActiveValue<bool>,
}

/// The number of full years of 365 days in `days` days, counted towards
/// zero.
pub open spec fn years_of(days: int) -> int {
    if days >= 0 {
        days / 365
    } else {
        -((-days) / 365)
    }
}

impl ModelView {
    /// The user as a client sees it, `days` days after the birth.
    pub open spec fn shown(self, days: int) -> GetUserView {
        GetUserView {
            id: self.id,
            role: self.role,
            real_name: self.real_name,
            sex: self.sex,
            age: years_of(days),
        }
    }
}

impl Model {
    /// A copy of the row.
    pub fn duplicate(&self) -> (user: Model)
        ensures
            user@ == self@,
    {
        Model {
            id: self.id,
            password_salt: self.password_salt.clone(),
            secret_key: self.secret_key.clone(),
            role: self.role.clone(),
            real_name: self.real_name.clone(),
            sex: self.sex,
            birth: self.birth,
            is_deleted: self.is_deleted,
        }
    }
}

impl GetUser {
    /// The user as a client sees it, `days` days after the birth.
    pub fn with_age(value: Model, days: i64) -> (shown: GetUser)
        ensures
            shown@ == value@.shown(days as int),
    {
        GetUser {
            id: value.id,
            role: value.role,
            real_name: value.real_name,
            sex: value.sex,
            age: days / 365,
        }
    }

    /// The user as a client sees it at the time `now`.
    pub fn from_model_at(value: Model, now: &Timestamp) -> (shown: GetUser)
        ensures
            shown@ == value@.shown(now.spec_days_since(value.birth)),
    {
        let days = now.days_since(value.birth);
        GetUser::with_age(value, days)
    }

    /// The user as a client sees it now.
    pub fn from_model(value: Model) -> (shown: GetUser)
        ensures
            exists|days: int| shown@ == #[trigger] value@.shown(days),
    {
        let t = now();
        GetUser::from_model_at(value, &t)
    }
}

impl NewUser {
    /// The row for a new user: every column of the request is written, the
    /// key is left to the store, the secret key is still to be drawn, and
    /// the user is not deleted.
    pub fn into_active_model(self) -> (row: ActiveModel)
        ensures
            row.id == ActiveValue::<i32>::NotSet,
            row.password_salt == ActiveValue::Changed(self.password_salt),
            row.secret_key == ActiveValue::<String>::NotSet,
            row.role == ActiveValue::Changed(self.role),
            row.real_name == ActiveValue::Changed(self.real_name),
            row.sex == ActiveValue::Changed(self.sex),
            row.birth == match self.birth {
                Some(birth) => ActiveValue::Changed(birth),
                None => ActiveValue::NotSet,
            },
            row.is_deleted == ActiveValue::Changed(false),
    {
        ActiveModel {
            id: ActiveValue::NotSet,
            password_salt: ActiveValue::Changed(self.password_salt),
            secret_key: ActiveValue::NotSet,
            role: ActiveValue::Changed(self.role),
            real_name: ActiveValue::Changed(self.real_name),
            sex: ActiveValue::Changed(self.sex),
            birth: to_active(self.birth),
            is_deleted: ActiveValue::Changed(false),
        }
    }
}

impl UpdateUser {
    /// The row for a change of a user: the columns that the request holds
    /// are written, the others are left as they are.
    pub fn into_active_model(self) -> (row: ActiveModel)
        ensures
            row.id == ActiveValue::<i32>::NotSet,
            row.password_salt == match self.password_salt {
                Some(v) => ActiveValue::Changed(v),
                None => ActiveValue::NotSet,
            },
            row.secret_key == ActiveValue::<String>::NotSet,
            row.role == match self.role {
                Some(v) => ActiveValue::Changed(v),
                None => ActiveValue::NotSet,
            },
            row.real_name == match self.real_name {
                Some(v) => ActiveValue::Changed(v),
                None => ActiveValue::NotSet,
            },
            row.sex == match self.sex {
                Some(v) => ActiveValue::Changed(v),
                None => ActiveValue::NotSet,
            },
            row.birth == match self.birth {
                Some(v) => ActiveValue::Changed(v),
                None => ActiveValue::NotSet,
            },
            row.is_deleted == ActiveValue::<bool>::NotSet,
    {
        ActiveModel {
            id: ActiveValue::NotSet,
            password_salt: to_active(self.password_salt),
            secret_key: ActiveValue::NotSet,
            role: to_active(self.role),
            real_name: to_active(self.real_name),
            sex: to_active(self.sex),
            birth: to_active(self.birth),
            is_deleted: ActiveValue::NotSet,
        }
    }
}

} // verus!
