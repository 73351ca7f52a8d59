use vstd::prelude::*;

verus! {

/// Turns the outcome of creating the log file into the outcome of logger
/// start-up: success drops the handle, an error is passed on as it is.
pub fn initialize<F, E>(created: Result<F, E>) -> (r: Result<(), E>)
    ensures
        r is Ok <==> created is Ok,
        created matches Err(e) ==> r == Err::<(), E>(e),
{
    match created {
        Ok(_) => Ok(()),
        Err(e) => Err(e),
    }
}

} // verus!
