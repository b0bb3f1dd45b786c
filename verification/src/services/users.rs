use vstd::prelude::*;

use crate::commons::chassis::ServiceError;
use crate::models::users::User;
use crate::store::{has_user, Store};

verus! {

/// The user with the given id.
pub fn find(store: &Store, the_id: &str) -> (r: Result<User, ServiceError>)
    ensures
        r is Ok <==> has_user(store.users@, the_id@),
        r matches Ok(u) ==> exists|i: int|
            0 <= i < store.users@.len() && store.users@[i] == u && u.id@ == the_id@,
        r is Err ==> (r matches Err(e) && e == ServiceError::NotFound),
{
    let key: String = the_id.to_owned();
    let mut i: usize = 0;
    while i < store.users.len()
        invariant
            0 <= i <= store.users@.len(),
            key@ == the_id@,
            forall|j: int| 0 <= j < i ==> store.users@[j].id@ != the_id@,
        decreases store.users@.len() - i,
    {
        if store.users[i].id.eq(&key) {
            let u = store.users[i].duplicate();
            proof {
                assert(store.users@[i as int] == u && u.id@ == the_id@);
            }
            return Ok(u);
        }
        i = i + 1;
    }
    Err(ServiceError::NotFound)
}

} // verus!
