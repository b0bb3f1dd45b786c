use vstd::prelude::*;

use crate::models::discussions::NewDiscussionRequest;
use crate::models::users::User;

verus! {

/// One row of the discussion feed queue: a pending-response indicator
/// addressed to one user for one enrollment thread.
pub struct Feed {
    pub id: String,
    pub to_id: String,
    pub discussion_id: String,
    pub created_at: i64,
    pub is_pending: bool,
    pub enrollment_id: String,
    pub program_id: String,
    pub program_name: String,
    pub coach_id: String,
    pub coach_name: String,
    pub member_id: String,
    pub member_name: String,
}

impl Feed {
    pub fn id(&self) -> (r: &str)
        ensures
            r@ == self.id@,
    {
        self.id.as_str()
    }

    pub fn created_at(&self) -> (r: i64)
        ensures
            r == self.created_at,
    {
        self.created_at
    }

    pub fn to_id(&self) -> (r: &str)
        ensures
            r@ == self.to_id@,
    {
        self.to_id.as_str()
    }

    pub fn enrollment_id(&self) -> (r: &str)
        ensures
            r@ == self.enrollment_id@,
    {
        self.enrollment_id.as_str()
    }

    pub fn program_id(&self) -> (r: &str)
        ensures
            r@ == self.program_id@,
    {
        self.program_id.as_str()
    }

    pub fn program_name(&self) -> (r: &str)
        ensures
            r@ == self.program_name@,
    {
        self.program_name.as_str()
    }

    pub fn coach_id(&self) -> (r: &str)
        ensures
            r@ == self.coach_id@,
    {
        self.coach_id.as_str()
    }

    pub fn coach_name(&self) -> (r: &str)
        ensures
            r@ == self.coach_name@,
    {
        self.coach_name.as_str()
    }

    pub fn member_id(&self) -> (r: &str)
        ensures
            r@ == self.member_id@,
    {
        self.member_id.as_str()
    }

    pub fn member_name(&self) -> (r: &str)
        ensures
            r@ == self.member_name@,
    {
        self.member_name.as_str()
    }

    /// A field-for-field copy.
    pub fn duplicate(&self) -> (r: Feed)
        ensures
            r == *self,
    {
        Feed {
            id: self.id.clone(),
            to_id: self.to_id.clone(),
            discussion_id: self.discussion_id.clone(),
            created_at: self.created_at,
            is_pending: self.is_pending,
            enrollment_id: self.enrollment_id.clone(),
            program_id: self.program_id.clone(),
            program_name: self.program_name.clone(),
            coach_id: self.coach_id.clone(),
            coach_name: self.coach_name.clone(),
            member_id: self.member_id.clone(),
            member_name: self.member_name.clone(),
        }
    }
}

/// The persistable form of a new feed row, keyed by the discussion it
/// announces.
pub struct NewFeed {
    pub id: String,
    pub to_id: String,
    pub discussion_id: String,
    pub enrollment_id: String,
    pub program_id: String,
    pub program_name: String,
    pub coach_id: String,
    pub coach_name: String,
    pub member_id: String,
    pub member_name: String,
}

impl NewFeed {
    pub fn from(request: &NewDiscussionRequest, discussion_id: &str) -> (r: NewFeed)
        ensures
            r.id@ == discussion_id@,
            r.discussion_id@ == discussion_id@,
            r.to_id@ == request.to_id@,
            r.enrollment_id@ == request.enrollment_id@,
            r.program_id@ == request.program_id@,
            r.program_name@ == request.program_name@,
            r.coach_id@ == request.coach_id@,
            r.coach_name@ == request.coach_name@,
            r.member_id@ == request.member_id@,
            r.member_name@ == request.member_name@,
    {
        NewFeed {
            id: discussion_id.to_owned(),
            discussion_id: discussion_id.to_owned(),
            to_id: request.to_id.clone(),
            enrollment_id: request.enrollment_id.clone(),
            program_id: request.program_id.clone(),
            program_name: request.program_name.clone(),
            coach_id: request.coach_id.clone(),
            coach_name: request.coach_name.clone(),
            member_id: request.member_id.clone(),
            member_name: request.member_name.clone(),
        }
    }
}

/// One pending feed row, joined with the message text and its author.
pub struct PendingFeed {
    pub description: String,
    pub feed: Feed,
    pub user: User,
}

impl PendingFeed {
    pub fn description(&self) -> (r: &str)
        ensures
            r@ == self.description@,
    {
        self.description.as_str()
    }

    pub fn feed(&self) -> (r: &Feed)
        ensures
            *r == self.feed,
    {
        &self.feed
    }

    pub fn user(&self) -> (r: &User)
        ensures
            *r == self.user,
    {
        &self.user
    }
}

} // verus!
