use vstd::prelude::*;

verus! {

/// A coach of the platform, as the programs side sees one.
pub struct Coach {
    pub id: String,
    pub user_id: String,
    pub full_name: String,
    pub email: String,
    pub created_at: i64,
    pub updated_at: i64,
    pub token: Option<i32>,
}

impl Coach {
    pub fn id(&self) -> (r: &str)
        ensures
            r@ == self.id@,
    {
        self.id.as_str()
    }

    pub fn user_id(&self) -> (r: &str)
        ensures
            r@ == self.user_id@,
    {
        self.user_id.as_str()
    }

    pub fn email(&self) -> (r: &str)
        ensures
            r@ == self.email@,
    {
        self.email.as_str()
    }

    pub fn name(&self) -> (r: &str)
        ensures
            r@ == self.full_name@,
    {
        self.full_name.as_str()
    }

    pub fn token(&self) -> (r: Option<i32>)
        ensures
            r == self.token,
    {
        self.token
    }
}

} // verus!
