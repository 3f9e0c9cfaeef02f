//! The catching side: what an unwind brought, told apart.

use crate::erased::{carried, open_carrier, Erased};
use crate::exception::{carries, Carrier, Exception};
use vstd::prelude::*;

verus! {

/// Why a guarded computation did not run to its end.
#[derive(Debug)]
pub enum CatchError {
    /// An exception was thrown: the carrier it travelled in.
    Exception(Carrier),
    /// Any other unwind: its payload, untouched.
    Panic(Erased),
}

/// What a payload is classified as: the carrier it holds, or else the payload itself.
pub open spec fn classified(payload: Erased) -> CatchError {
    match carried(payload) {
        Some(c) => CatchError::Exception(c),
        None => CatchError::Panic(payload),
    }
}

/// What the outcome of a guarded computation settles to: its value, or else the
/// classification of what the unwind brought.
pub open spec fn settled<T>(outcome: Result<T, Erased>) -> Result<T, CatchError> {
    match outcome {
        Ok(value) => Ok(value),
        Err(payload) => Err(classified(payload)),
    }
}

/// Tells a thrown exception from any other unwind.
///
/// The payload is tested against the carrier type alone, never against the type of an
/// exception inside a carrier.
pub fn classify(payload: Erased) -> (r: CatchError)
    ensures
        r == classified(payload),
{
    match open_carrier(payload) {
        Ok(c) => CatchError::Exception(*c),
        Err(rest) => CatchError::Panic(rest),
    }
}

/// Turns the outcome of a computation that ran under unwind protection into the answer of
/// a catch: the value where it ran to its end, the classified payload where it did not.
pub fn settle<T>(outcome: Result<T, Erased>) -> (r: Result<T, CatchError>)
    ensures
        r == settled(outcome),
{
    match outcome {
        Ok(value) => Ok(value),
        Err(payload) => Err(classify(payload)),
    }
}

/// What was thrown is what is caught. Where the payload of an unwind holds a carrier of
/// `e`, the outcome settles to an exception, and the carrier that comes out is that very
/// carrier: it has the name that `e` gave and holds `e` as `e` erased itself.
pub proof fn law_round_trip<E: Exception, T>(e: E, c: Carrier, payload: Erased)
    requires
        carries(c, e),
        carried(payload) == Some(c),
    ensures
        settled(Err::<T, Erased>(payload)) == Err::<T, CatchError>(CatchError::Exception(c)),
        settled(Err::<T, Erased>(payload)) matches Err(CatchError::Exception(caught)) && carries(
            caught,
            e,
        ),
{
}

/// An unwind that is no exception passes through: it never settles to an exception, and its
/// payload arrives unchanged.
pub proof fn law_other_faults_pass<T>(payload: Erased)
    requires
        carried(payload) is None,
    ensures
        settled(Err::<T, Erased>(payload)) == Err::<T, CatchError>(CatchError::Panic(payload)),
{
}

} // verus!
