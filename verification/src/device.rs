//! Device-directory decisions. Enumeration itself is an external
//! collaborator that supplies device handles and friendly names; what the
//! library decides is the lookup: which enumerated device a requested
//! name selects, and the descriptive failure when none does.

use vstd::prelude::*;

use crate::errors::WasapiError;

verus! {

/// Find the first device whose friendly name equals the requested name.
///
/// `names` holds the friendly names of the enumerated devices, in
/// enumeration order. The result is the index of the first match; when no
/// name matches, the failure is `DeviceNotFound` carrying the requested
/// name, so the report names what was searched for.
pub fn device_index_with_name(names: &Vec<String>, name: &String) -> (r: Result<
    usize,
    WasapiError,
>)
    ensures
        r is Ok <==> (exists|i: int| 0 <= i < names@.len() && names@[i]@ == name@),
        r is Ok ==> 0 <= r->Ok_0 < names@.len() && names@[r->Ok_0 as int]@ == name@ && (forall|
            j: int,
        | 0 <= j < r->Ok_0 ==> names@[j]@ != name@),
        r is Err ==> (r->Err_0 matches WasapiError::DeviceNotFound(n) && n@ == name@),
{
    let mut i: usize = 0;
    while i < names.len()
        invariant
            i <= names@.len(),
            forall|j: int| 0 <= j < i ==> names@[j]@ != name@,
        decreases names@.len() - i,
    {
        if names[i].eq(name) {
            return Ok(i);
        }
        i += 1;
    }
    Err(WasapiError::DeviceNotFound(name.clone()))
}

} // verus!
