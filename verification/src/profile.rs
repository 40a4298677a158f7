//! Who the user is, and the figures of the account.

use vstd::prelude::*;
use vstd::string::StringExecFns;

verus! {

/// What the user told about themselves.
#[derive(Clone, Debug, PartialEq, Eq)]
pub struct UserInformation {
    pub name: String,
    pub username: String,
    pub age: u32,
    pub weight: u32,
    pub height: u32,
    pub registration_date: String,
}

/// What the user information is.
pub struct UserInformationView {
    pub name: Seq<char>,
    pub username: Seq<char>,
    pub age: u32,
    pub weight: u32,
    pub height: u32,
    pub registration_date: Seq<char>,
}

impl View for UserInformation {
    type V = UserInformationView;

    open spec fn view(&self) -> UserInformationView {
        UserInformationView {
            name: self.name@,
            username: self.username@,
            age: self.age,
            weight: self.weight,
            height: self.height,
            registration_date: self.registration_date@,
        }
    }
}

impl UserInformationView {
    /// What stands for a user who has told nothing yet.
    pub open spec fn initial() -> UserInformationView {
        UserInformationView {
            name: "name"@,
            username: "username"@,
            age: 0,
            weight: 0,
            height: 0,
            registration_date: Seq::empty(),
        }
    }
}

impl UserInformation {
    /// What stands for a user who has told nothing yet: the words "name" and
    /// "username", zeros, and no date of registration.
    pub fn default() -> (r: UserInformation)
        ensures
            r@ == UserInformationView::initial(),
    {
        UserInformation {
            name: String::from_str("name"),
            username: String::from_str("username"),
            age: 0,
            weight: 0,
            height: 0,
            registration_date: String::new(),
        }
    }
}

/// The figures of the account.
#[derive(Clone, Copy, Debug, PartialEq, Eq, Structural)]
pub struct AccountData {
    pub level: u32,
    pub xp: u32,
    pub current_streak: u32,
    pub lifted_weight: u32,
    pub registrated_cals: u32,
    pub registrated_meals: u32,
}

impl AccountData {
    /// An account on which nothing has happened: every figure is zero.
    pub fn default() -> (r: AccountData)
        ensures
            r == (AccountData {
                level: 0,
                xp: 0,
                current_streak: 0,
                lifted_weight: 0,
                registrated_cals: 0,
                registrated_meals: 0,
            }),
    {
        AccountData {
            level: 0,
            xp: 0,
            current_streak: 0,
            lifted_weight: 0,
            registrated_cals: 0,
            registrated_meals: 0,
        }
    }
}

} // verus!
