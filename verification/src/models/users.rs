use vstd::prelude::*;

use crate::commons::chassis::{push_error, ve_views, ValidationError};
use crate::commons::util;
use crate::commons::util::{argon_matches, blank_text};

verus! {

/// A registered person of the platform: a coach or a member.
pub struct User {
    pub id: String,
    pub full_name: String,
    pub email: String,
    pub blocked: bool,
    pub user_type: String,
    pub created_at: i64,
    pub updated_at: i64,
    pub password: String,
}

impl User {
    pub fn id(&self) -> (r: &str)
        ensures
            r@ == self.id@,
    {
        self.id.as_str()
    }

    pub fn email(&self) -> (r: &str)
        ensures
            r@ == self.email@,
    {
        self.email.as_str()
    }

    pub fn name(&self) -> (r: &str)
        ensures
            r@ == self.full_name@,
    {
        self.full_name.as_str()
    }

    pub fn user_type(&self) -> (r: &str)
        ensures
            r@ == self.user_type@,
    {
        self.user_type.as_str()
    }

    /// A field-for-field copy.
    pub fn duplicate(&self) -> (r: User)
        ensures
            r == *self,
    {
        User {
            id: self.id.clone(),
            full_name: self.full_name.clone(),
            email: self.email.clone(),
            blocked: self.blocked,
            user_type: self.user_type.clone(),
            created_at: self.created_at,
            updated_at: self.updated_at,
            password: self.password.clone(),
        }
    }
}

/// The fields obtained while creating a new user.
pub struct Registration {
    pub full_name: String,
    pub email: String,
    pub password: String,
}

/// The checks that fail on a registration, in the order they are
/// reported.
pub open spec fn registration_errors(r: &Registration) -> Seq<(Seq<char>, Seq<char>)> {
    let e0 = Seq::<(Seq<char>, Seq<char>)>::empty();
    let e1 = if blank_text(r.email@) {
        e0.push(("email"@, "email is a must for registration"@))
    } else {
        e0
    };
    let e2 = if blank_text(r.password@) {
        e1.push(("password"@, "password is a must for registration"@))
    } else {
        e1
    };
    if blank_text(r.full_name@) {
        e2.push(("full_name"@, "Full name of the user is a must for registration"@))
    } else {
        e2
    }
}

impl Registration {
    pub fn validate(&self) -> (r: Vec<ValidationError>)
        ensures
            ve_views(r@) == registration_errors(self),
            r@.len() == 0 <==> !blank_text(self.email@) && !blank_text(self.password@)
                && !blank_text(self.full_name@),
    {
        let mut errors: Vec<ValidationError> = Vec::new();
        if util::is_blank(self.email.as_str()) {
            push_error(&mut errors, "email", "email is a must for registration");
        }
        if util::is_blank(self.password.as_str()) {
            push_error(&mut errors, "password", "password is a must for registration");
        }
        if util::is_blank(self.full_name.as_str()) {
            push_error(&mut errors, "full_name", "Full name of the user is a must for registration");
        }
        errors
    }
}

/// The persistable form of a new user, with a fresh id and the password
/// replaced by its verification string.
pub struct NewUser {
    pub id: String,
    pub full_name: String,
    pub email: String,
    pub user_type: String,
    pub password: String,
}

impl NewUser {
    pub fn from(registration: &Registration) -> (r: NewUser)
        ensures
            r.id@.len() == 36,
            r.full_name@ == registration.full_name@,
            r.email@ == registration.email@,
            r.user_type@ == util::MEMBER@,
            r.password@.len() == 128 || r.password@.len() == 0,
            r.password@.len() == 128 ==> argon_matches(r.password@, registration.password@),
    {
        let fuzzy_id = util::fuzzy_id();
        NewUser {
            id: fuzzy_id,
            full_name: registration.full_name.clone(),
            email: registration.email.clone(),
            user_type: util::MEMBER.to_owned(),
            password: util::hash(registration.password.as_str()),
        }
    }
}

/// The name and password received during login.
pub struct LoginRequest {
    pub email: String,
    pub password: String,
}

pub struct ResetPasswordRequest {
    pub email: String,
    pub password: String,
    pub new_password: String,
}

/// The checks that fail on a password reset, in the order they are
/// reported.
pub open spec fn reset_password_errors(r: &ResetPasswordRequest) -> Seq<(Seq<char>, Seq<char>)> {
    let e0 = Seq::<(Seq<char>, Seq<char>)>::empty();
    let e1 = if blank_text(r.email@) {
        e0.push(("email"@, "email is a must for password reset."@))
    } else {
        e0
    };
    let e2 = if blank_text(r.password@) {
        e1.push(("password"@, "Current Password cannot be blank."@))
    } else {
        e1
    };
    if blank_text(r.new_password@) {
        e2.push(("new_password"@, "New password cannot be blank."@))
    } else {
        e2
    }
}

impl ResetPasswordRequest {
    pub fn validate(&self) -> (r: Vec<ValidationError>)
        ensures
            ve_views(r@) == reset_password_errors(self),
            r@.len() == 0 <==> !blank_text(self.email@) && !blank_text(self.password@)
                && !blank_text(self.new_password@),
    {
        let mut errors: Vec<ValidationError> = Vec::new();
        if util::is_blank(self.email.as_str()) {
            push_error(&mut errors, "email", "email is a must for password reset.");
        }
        if util::is_blank(self.password.as_str()) {
            push_error(&mut errors, "password", "Current Password cannot be blank.");
        }
        if util::is_blank(self.new_password.as_str()) {
            push_error(&mut errors, "new_password", "New password cannot be blank.");
        }
        errors
    }
}

pub struct UserCriteria {
    pub id: String,
}

} // verus!
