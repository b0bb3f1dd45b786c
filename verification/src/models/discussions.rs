use vstd::prelude::*;

use crate::commons::util;

verus! {

/// One message of an enrollment's discussion thread.
pub struct Discussion {
    pub id: String,
    pub enrollment_id: String,
    pub created_by_id: String,
    pub description: String,
    pub created_at: i64,
    pub updated_at: i64,
}

impl Discussion {
    pub fn id(&self) -> (r: &str)
        ensures
            r@ == self.id@,
    {
        self.id.as_str()
    }

    pub fn enrollment_id(&self) -> (r: &str)
        ensures
            r@ == self.enrollment_id@,
    {
        self.enrollment_id.as_str()
    }

    pub fn created_by_id(&self) -> (r: &str)
        ensures
            r@ == self.created_by_id@,
    {
        self.created_by_id.as_str()
    }

    pub fn description(&self) -> (r: &str)
        ensures
            r@ == self.description@,
    {
        self.description.as_str()
    }

    pub fn created_at(&self) -> (r: i64)
        ensures
            r == self.created_at,
    {
        self.created_at
    }

    /// A field-for-field copy.
    pub fn duplicate(&self) -> (r: Discussion)
        ensures
            r == *self,
    {
        Discussion {
            id: self.id.clone(),
            enrollment_id: self.enrollment_id.clone(),
            created_by_id: self.created_by_id.clone(),
            description: self.description.clone(),
            created_at: self.created_at,
            updated_at: self.updated_at,
        }
    }
}

/// A request to post one discussion message; the recipient and the
/// denormalized display names feed the pending-response indicator.
pub struct NewDiscussionRequest {
    pub enrollment_id: String,
    pub created_by_id: String,
    pub description: String,
    pub to_id: String,
    pub program_id: String,
    pub program_name: String,
    pub coach_id: String,
    pub coach_name: String,
    pub member_id: String,
    pub member_name: String,
}

/// The persistable form of a new discussion message, with a fresh id.
pub struct NewDiscussion {
    pub id: String,
    pub enrollment_id: String,
    pub created_by_id: String,
    pub description: String,
}

impl NewDiscussion {
    pub fn from(request: &NewDiscussionRequest) -> (r: NewDiscussion)
        ensures
            r.id@.len() == 36,
            r.enrollment_id@ == request.enrollment_id@,
            r.created_by_id@ == request.created_by_id@,
            r.description@ == request.description@,
    {
        let fuzzy_id = util::fuzzy_id();
        NewDiscussion {
            id: fuzzy_id,
            enrollment_id: request.enrollment_id.clone(),
            created_by_id: request.created_by_id.clone(),
            description: request.description.clone(),
        }
    }
}

pub struct DiscussionCriteria {
    pub enrollment_id: String,
}

} // verus!
