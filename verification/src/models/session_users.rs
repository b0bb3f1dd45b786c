use vstd::prelude::*;

use crate::commons::util;
use crate::models::sessions::Session;
use crate::models::users::User;

verus! {

/// The association of one user with one session, as coach or member.
pub struct SessionUser {
    pub id: String,
    pub session_id: String,
    pub user_id: String,
    pub user_type: String,
}

impl SessionUser {
    pub fn id(&self) -> (r: &str)
        ensures
            r@ == self.id@,
    {
        self.id.as_str()
    }

    pub fn session_id(&self) -> (r: &str)
        ensures
            r@ == self.session_id@,
    {
        self.session_id.as_str()
    }

    pub fn user_id(&self) -> (r: &str)
        ensures
            r@ == self.user_id@,
    {
        self.user_id.as_str()
    }

    pub fn user_type(&self) -> (r: &str)
        ensures
            r@ == self.user_type@,
    {
        self.user_type.as_str()
    }

    /// A field-for-field copy.
    pub fn duplicate(&self) -> (r: SessionUser)
        ensures
            r == *self,
    {
        SessionUser {
            id: self.id.clone(),
            session_id: self.session_id.clone(),
            user_id: self.user_id.clone(),
            user_type: self.user_type.clone(),
        }
    }
}

/// The persistable association of one user with one session, with a fresh
/// id.
pub struct NewSessionUser {
    pub id: String,
    pub session_id: String,
    pub user_id: String,
    pub user_type: String,
}

impl NewSessionUser {
    pub fn from(session: &Session, user: &User, session_user_type: &str) -> (r: NewSessionUser)
        ensures
            r.id@.len() == 36,
            r.session_id@ == session.id@,
            r.user_id@ == user.id@,
            r.user_type@ == session_user_type@,
    {
        let fuzzy_id = util::fuzzy_id();
        NewSessionUser {
            id: fuzzy_id,
            session_id: session.id.clone(),
            user_id: user.id.clone(),
            user_type: session_user_type.to_owned(),
        }
    }
}

pub struct SessionCriteria {
    pub id: String,
}

/// One session association together with the user it points at.
pub struct SessionPeople {
    pub session_user: SessionUser,
    pub user: User,
}

} // verus!
