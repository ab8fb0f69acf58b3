use vstd::prelude::*;

verus! {

/// Reads a C boolean: Allegro reports truth as any non-zero integer.
pub fn c_bool(code: i32) -> (r: bool)
    ensures
        r == (code != 0),
{
    code != 0
}

/// Turns the status that an Allegro call reports into a result:
/// success for any non-zero status, failure for zero.
pub fn status_result(code: i32) -> (r: Result<(), ()>)
    ensures
        r is Ok <==> code != 0,
        r is Err <==> code == 0,
{
    if code != 0 {
        Ok(())
    } else {
        Err(())
    }
}

} // verus!
