use vstd::prelude::*;

verus! {

/// How many path points a query may write: what the caller asks for, but
/// never more than the query's buffer was provisioned with.
pub fn path_point_limit(requested: i32, provisioned: i32) -> (r: i32)
    ensures
        r == if requested <= provisioned {
            requested
        } else {
            provisioned
        },
        r <= provisioned,
        r <= requested,
{
    if requested <= provisioned {
        requested
    } else {
        provisioned
    }
}

} // verus!
