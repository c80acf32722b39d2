//! What the futures that wait on a transporter decide.
use crate::error::{Error, ErrorKind};
use vstd::prelude::*;

verus! {

/// The outcome of waiting for one received item, once the transporter has
/// answered: the item, or an `Other` error where the transporter reported that
/// it terminated.
pub fn wait_recv_outcome<T>(received: Option<T>) -> (r: crate::Result<T>)
    ensures
        received is Some ==> r == Ok::<T, Error>(received->Some_0),
        received is None ==> r is Err && r->Err_0.spec_kind() == ErrorKind::Other,
{
    match received {
        Some(x) => Ok(x),
        None => Err(Error::new(ErrorKind::Other, "Transporter unexpectedly terminated".to_string())),
    }
}

} // verus!
