use vstd::prelude::*;

use crate::commons::chassis::ServiceError;
use crate::models::programs::Program;
use crate::store::{has_program, Store};

verus! {

/// The program with the given id.
pub fn find(store: &Store, the_id: &str) -> (r: Result<Program, ServiceError>)
    ensures
        r is Ok <==> has_program(store.programs@, the_id@),
        r matches Ok(p) ==> exists|i: int|
            0 <= i < store.programs@.len() && store.programs@[i] == p && p.id@ == the_id@,
        r is Err ==> (r matches Err(e) && e == ServiceError::NotFound),
{
    let key: String = the_id.to_owned();
    let mut i: usize = 0;
    while i < store.programs.len()
        invariant
            0 <= i <= store.programs@.len(),
            key@ == the_id@,
            forall|j: int| 0 <= j < i ==> store.programs@[j].id@ != the_id@,
        decreases store.programs@.len() - i,
    {
        if store.programs[i].id.eq(&key) {
            let p = store.programs[i].duplicate();
            proof {
                assert(store.programs@[i as int] == p && p.id@ == the_id@);
            }
            return Ok(p);
        }
        i = i + 1;
    }
    Err(ServiceError::NotFound)
}

} // verus!
