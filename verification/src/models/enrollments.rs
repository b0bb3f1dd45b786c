use vstd::prelude::*;

use crate::commons::chassis::{push_error, ve_views, ValidationError};
use crate::commons::util;
use crate::commons::util::blank_text;
use crate::models::programs::Program;
use crate::models::users::User;

verus! {

/// The membership of one user in one program; `is_new` marks one that no
/// session has touched yet.
pub struct Enrollment {
    pub id: String,
    pub program_id: String,
    pub member_id: String,
    pub created_at: i64,
    pub updated_at: i64,
    pub is_new: bool,
}

impl Enrollment {
    pub fn id(&self) -> (r: &str)
        ensures
            r@ == self.id@,
    {
        self.id.as_str()
    }

    pub fn program_id(&self) -> (r: &str)
        ensures
            r@ == self.program_id@,
    {
        self.program_id.as_str()
    }

    pub fn member_id(&self) -> (r: &str)
        ensures
            r@ == self.member_id@,
    {
        self.member_id.as_str()
    }

    pub fn is_new(&self) -> (r: bool)
        ensures
            r == self.is_new,
    {
        self.is_new
    }

    /// A field-for-field copy.
    pub fn duplicate(&self) -> (r: Enrollment)
        ensures
            r == *self,
    {
        Enrollment {
            id: self.id.clone(),
            program_id: self.program_id.clone(),
            member_id: self.member_id.clone(),
            created_at: self.created_at,
            updated_at: self.updated_at,
            is_new: self.is_new,
        }
    }
}

pub struct NewEnrollmentRequest {
    pub program_id: String,
    pub user_id: String,
}

/// The checks that fail on a new-enrollment request, in the order they
/// are reported.
pub open spec fn new_enrollment_errors(r: &NewEnrollmentRequest) -> Seq<(Seq<char>, Seq<char>)> {
    let e0 = Seq::<(Seq<char>, Seq<char>)>::empty();
    let e1 = if blank_text(r.program_id@) {
        e0.push(("program_id"@, "The Program id is invalid."@))
    } else {
        e0
    };
    if blank_text(r.user_id@) {
        e1.push(("user_id"@, "The User id is invalid."@))
    } else {
        e1
    }
}

impl NewEnrollmentRequest {
    pub fn validate(&self) -> (r: Vec<ValidationError>)
        ensures
            ve_views(r@) == new_enrollment_errors(self),
            r@.len() == 0 <==> !blank_text(self.program_id@) && !blank_text(self.user_id@),
    {
        let mut errors: Vec<ValidationError> = Vec::new();
        if util::is_blank(self.program_id.as_str()) {
            push_error(&mut errors, "program_id", "The Program id is invalid.");
        }
        if util::is_blank(self.user_id.as_str()) {
            push_error(&mut errors, "user_id", "The User id is invalid.");
        }
        errors
    }
}

/// A coach-initiated enrollment of a member, carrying the invitation
/// mail's subject and message.
pub struct ManagedEnrollmentRequest {
    pub program_id: String,
    pub coach_id: String,
    pub member_mail: String,
    pub subject: String,
    pub message: String,
}

/// Whether an enrollment query wants every member or only new ones.
#[derive(Clone, Copy, PartialEq, Eq, Structural, Debug)]
pub enum EnrollmentFilter {
    ALL,
    NEW,
}

pub struct EnrollmentCriteria {
    pub program_id: String,
    pub desire: EnrollmentFilter,
}

pub struct PlanCriteria {
    pub enrollment_id: String,
}

/// The persistable form of a new enrollment, with a fresh id.
pub struct NewEnrollment {
    pub id: String,
    pub program_id: String,
    pub member_id: String,
}

impl NewEnrollment {
    pub fn from(program: &Program, user: &User) -> (r: NewEnrollment)
        ensures
            r.id@.len() == 36,
            r.program_id@ == program.id@,
            r.member_id@ == user.id@,
    {
        let fuzzy_id = util::fuzzy_id();
        NewEnrollment { id: fuzzy_id, program_id: program.id.clone(), member_id: user.id.clone() }
    }
}

} // verus!
