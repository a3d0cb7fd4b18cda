//! The context's enumeration decision. The context owns the native driver
//! instance and a background thread that services completion events until
//! told to stop; initialization, the thread, and the teardown ordering
//! (signal the stop flag, interrupt the blocked wait, join, then release
//! the driver) are native and thread plumbing in the surrounding
//! application. What enumeration decides is here: the native device-list
//! call returns a length or a negative error code, and a snapshot of that
//! many per-device references is taken before the list itself is released.

use vstd::prelude::*;

use crate::error::Error;
use crate::error::ErrorInner;

verus! {

/// Interprets the native device-list call's return value: a negative value
/// is surfaced as its error code, a non-negative one is the number of
/// attached devices to snapshot (zero attached devices is no error: the
/// snapshot is simply empty).
pub fn device_list_len(len_or_err: isize) -> (r: Result<usize, Error>)
    requires
        len_or_err >= i32::MIN,
    ensures
        len_or_err >= 0 <==> r is Ok,
        len_or_err >= 0 ==> r == Result::<usize, Error>::Ok(len_or_err as usize),
        len_or_err < 0 ==> r == Result::<usize, Error>::Err(
            Error(ErrorInner::ReturnCode(len_or_err as i32)),
        ),
{
    if len_or_err >= 0 {
        Ok(len_or_err as usize)
    } else {
        Err(Error(ErrorInner::ReturnCode(len_or_err as i32)))
    }
}

} // verus!
