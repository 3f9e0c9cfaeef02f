//! The exception capability, the carrier that wraps a thrown exception, and the way back to
//! the concrete type.

use crate::erased::{recoverable, recovers, seal, Erased};
use vstd::prelude::*;

verus! {

/// What a type must offer to be thrown.
///
/// Implementations are written by the users of this crate and lie outside what is verified
/// here. So the contracts of this crate speak of a call of `name` or `into_any` only as of a
/// call whose outcome is the implementation's own.
pub trait Exception: 'static + Send + core::fmt::Debug {
    /// The name of the exception: by it a catching side can tell what it holds before it
    /// asks for a concrete type.
    fn name(&self) -> &'static str;

    /// Gives up the concrete type. An implementation erases `self` itself, so that
    /// [`ExceptionDowncast::try_downcast`] can find it again.
    fn into_any(self: Box<Self>) -> Erased;
}

/// The one type under which every exception travels.
///
/// A carrier is made when an exception is thrown. It keeps the name that the exception gave
/// and the exception itself, erased.
#[derive(Debug)]
pub struct Carrier {
    pub name: &'static str,
    pub payload: Erased,
}

/// Whether `c` is a carrier of `e`: its name is an answer of `e.name()`, and its payload is
/// what `into_any` makes of `e`.
pub open spec fn carries<E: Exception>(c: Carrier, e: E) -> bool {
    &&& call_ensures(E::name, (&e,), c.name)
    &&& call_ensures(E::into_any, (Box::new(e),), c.payload)
}

/// Wraps an exception for throwing: asks it for its name, then erases it.
pub fn carrier_of<E: Exception>(e: E) -> (c: Carrier)
    ensures
        carries(c, e),
{
    let name = e.name();
    let payload = Box::new(e).into_any();
    Carrier { name, payload }
}

/// A carrier is an exception too, so that what was caught can be thrown again.
impl Exception for Carrier {
    /// The name of the exception inside.
    fn name(&self) -> (r: &'static str)
        ensures
            r == self.name,
    {
        self.name
    }

    /// Erases the carrier as a whole: the result holds this carrier, not the exception
    /// inside it.
    fn into_any(self: Box<Self>) -> (e: Erased)
        ensures
            crate::erased::carried(e) == Some(*self),
    {
        seal(self)
    }
}

/// The way from a caught exception back to its concrete type.
pub trait ExceptionDowncast: Sized {
    /// The erased exception that a downcast works on.
    spec fn payload(&self) -> Erased;

    /// Takes the exception out as an `E`: the value that [`ExceptionDowncast::try_downcast`]
    /// gives. To ask for a type that the exception does not have is a programming error: the
    /// call is allowed only where the exception is an `E`, which [`Erased::holds`] tells.
    /// Unverified code that asks for another type is stopped by a panic.
    fn downcast<E: Exception>(self) -> (r: E)
        requires
            recoverable::<E>(self.payload()),
        ensures
            recovers(self.payload(), r),
            call_ensures(Self::try_downcast::<E>, (self,), Ok::<E, Erased>(r)),
    ;

    /// Tries to take the exception out as an `E`. It succeeds exactly where the exception is
    /// an `E`; a mismatch gives the erased exception back, unchanged.
    fn try_downcast<E: Exception>(self) -> (r: Result<E, Erased>)
        ensures
            match r {
                Ok(v) => recoverable::<E>(self.payload()) && recovers(self.payload(), v),
                Err(rest) => !recoverable::<E>(self.payload()) && rest == self.payload(),
            },
    ;
}

impl ExceptionDowncast for Carrier {
    open spec fn payload(&self) -> Erased {
        self.payload
    }

    fn downcast<E: Exception>(self) -> (r: E) {
        self.try_downcast::<E>().expect("Downcasting failed, mismatched type")
    }

    fn try_downcast<E: Exception>(self) -> (r: Result<E, Erased>) {
        self.payload.recover::<E>()
    }
}

/// Whether `e` erases itself: whatever `into_any` makes of `e` is an `E`, and the one value
/// to be recovered from it is `e`.
///
/// This is what [`Exception::into_any`] asks of an implementation. One that erases another
/// value in place of `self` does not have it.
pub open spec fn erases_itself<E: Exception>(e: E) -> bool {
    forall|p: Erased| #[trigger]
        call_ensures(E::into_any, (Box::new(e),), p) ==> recoverable::<E>(p) && forall|v: E| #[trigger]
            recovers(p, v) ==> v == e
}

/// What was thrown is what is recovered. Where `c` is a carrier of an exception `e` that
/// erases itself, every answer of `try_downcast` at the type of `e` is `e` itself.
pub proof fn law_recovered_is_thrown<E: Exception>(e: E, c: Carrier, back: Result<E, Erased>)
    requires
        erases_itself(e),
        carries(c, e),
        call_ensures(Carrier::try_downcast::<E>, (c,), back),
    ensures
        back == Ok::<E, Erased>(e),
{
}

} // verus!
