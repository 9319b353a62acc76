use vstd::prelude::*;

verus! {

use crate::error::AllocationFailed;

/// Wraps driver-assigned identifiers in owning handles, for the object kinds
/// the driver allocates in batches.
///
/// The caller asks the driver to generate the identifiers and hands them in;
/// the trait turns each into a handle, treating the null identifier as an
/// allocation failure.
pub trait Generator {
    type Object;

    /// The identifier a generated handle wraps.
    spec fn object_id(obj: &Self::Object) -> u32;

    /// Wrap one nonzero identifier.
    fn new_object(id: u32) -> (r: Self::Object)
        requires
            id != 0,
        ensures
            Self::object_id(&r) == id;

    /// Wrap one driver-generated identifier, rejecting the null identifier.
    fn gen_one(id: u32) -> (r: Result<Self::Object, AllocationFailed>)
        ensures
            r is Ok <==> id != 0,
            r matches Ok(obj) ==> Self::object_id(&obj) == id,
    {
        if id == 0 {
            Err(AllocationFailed)
        } else {
            Ok(Self::new_object(id))
        }
    }

    /// Wrap a batch of driver-generated identifiers, in order.  If any of
    /// them is the null identifier the whole batch is rejected: a partial
    /// allocation is reported as a failure, not as a shorter batch.
    fn gen(ids: Vec<u32>) -> (r: Result<Vec<Self::Object>, AllocationFailed>)
        ensures
            r is Ok <==> (forall|i: int| 0 <= i < ids@.len() ==> ids@[i] != 0),
            r matches Ok(objs) ==> {
                &&& objs@.len() == ids@.len()
                &&& forall|i: int|
                    0 <= i < ids@.len() ==> Self::object_id(&objs@[i]) == ids@[i]
            },
    {
        let mut objs: Vec<Self::Object> = Vec::new();
        let mut k: usize = 0;
        while k < ids.len()
            invariant
                0 <= k <= ids@.len(),
                objs@.len() == k,
                forall|i: int| 0 <= i < k ==> ids@[i] != 0,
                forall|i: int| 0 <= i < k ==> Self::object_id(&objs@[i]) == ids@[i],
            decreases ids@.len() - k,
        {
            let id = ids[k];
            if id == 0 {
                return Err(AllocationFailed);
            }
            objs.push(Self::new_object(id));
            k = k + 1;
        }
        Ok(objs)
    }
}

} // verus!
