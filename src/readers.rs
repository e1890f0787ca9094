use vstd::prelude::*;
use crate::error::Error;

verus! {

/// Some run of `lookup` on index `j` may yield a reader.
pub open spec fn lookup_may_succeed<T, F: Fn(u32) -> Result<T, Error>>(lookup: F, j: u32) -> bool {
    exists|t: T| lookup.ensures((j,), Ok::<T, Error>(t))
}

/// Looks up every reader index in `[0, count)` in order and collects the
/// readers. The first failed lookup ends the scan and its error is returned;
/// the readers found before it are dropped.
pub fn collect_readers<T, F: Fn(u32) -> Result<T, Error>>(count: u32, lookup: F) -> (r: Result<
    Vec<T>,
    Error,
>)
    requires
        forall|i: u32| i < count ==> lookup.requires((i,)),
    ensures
        count == 0 ==> (r matches Ok(v) && v.len() == 0),
        r matches Ok(v) ==> {
            &&& v.len() == count
            &&& forall|i: int|
                0 <= i < count ==> lookup.ensures((i as u32,), Ok::<T, Error>(#[trigger] v[i]))
        },
        r matches Err(e) ==> exists|k: u32|
            {
                &&& k < count
                &&& #[trigger] lookup.ensures((k,), Err::<T, Error>(e))
                &&& forall|j: u32| j < k ==> #[trigger] lookup_may_succeed(lookup, j)
            },
{
    let mut found: Vec<T> = Vec::new();
    let mut i: u32 = 0;
    while i < count
        invariant
            i <= count,
            found.len() == i,
            forall|j: u32| j < count ==> lookup.requires((j,)),
            forall|j: int|
                0 <= j < i ==> lookup.ensures((j as u32,), Ok::<T, Error>(#[trigger] found[j])),
        decreases count - i,
    {
        match lookup(i) {
            Ok(reader) => {
                found.push(reader);
            },
            Err(e) => {
                assert forall|j: u32| j < i implies #[trigger] lookup_may_succeed(lookup, j) by {
                    assert(lookup.ensures((j as int as u32,), Ok::<T, Error>(found[j as int])));
                }
                return Err(e);
            },
        }
        i = i + 1;
    }
    Ok(found)
}

} // verus!
