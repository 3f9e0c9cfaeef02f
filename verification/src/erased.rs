//! Values whose concrete type has been erased.

use crate::exception::Carrier;
use std::any::Any;
use vstd::prelude::*;

verus! {

/// A value of some `'static` type behind a `Box<dyn Any + Send>`: the payload of an unwind,
/// and what is left of an exception once its type is forgotten.
///
/// Verus accepts no trait object of `std::any::Any`, so the box is hidden from it. All that
/// verified code knows of an erased value comes from the contracts in this module.
#[verifier::external_body]
#[derive(Debug)]
pub struct Erased {
    pub boxed: Box<dyn Any + Send>,
}

/// The carrier inside an erased value: `Some` when the concrete type of the value is
/// [`Carrier`], `None` for a value of any other type.
///
/// It stands for what `Box<dyn Any + Send>::downcast::<Carrier>` finds.
pub uninterp spec fn carried(e: Erased) -> Option<Carrier>;

/// Whether `v` is a value that `Box<dyn Any + Send>::downcast::<T>` hands out of `e`.
///
/// Which values those are is decided by std alone: the concrete type of an erased value has
/// no counterpart in ghost code, except for carriers (see [`carried`]).
pub closed spec fn recovers<T: 'static>(e: Erased, v: T) -> bool {
    call_ensures(unbox::<T>, (e,), Ok::<Box<T>, Erased>(Box::new(v)))
}

/// Whether no attempt to take a `T` out of `e` fails: `e` is a `T`.
///
/// [`Erased::holds`] decides it.
pub closed spec fn recoverable<T: 'static>(e: Erased) -> bool {
    forall|r: Result<Box<T>, Erased>| call_ensures(unbox::<T>, (e,), r) ==> r is Ok
}

/// Erases a carrier: the coercion of `Box<Carrier>` to `Box<dyn Any + Send>`, which Verus
/// cannot follow.
///
/// Trusted: the erased value holds exactly that carrier. `std::any` documents that a box
/// downcasts to the type it was made from, and to the value it was made from.
#[verifier::external_body]
pub(crate) fn seal(c: Box<Carrier>) -> (e: Erased)
    ensures
        carried(e) == Some(*c),
{
    Erased { boxed: c }
}

/// `Box<dyn Any + Send>::downcast::<Carrier>`.
///
/// Trusted: it succeeds exactly on the values that hold a carrier and hands that carrier
/// out; on any other value it fails and gives the value back as it was.
#[verifier::external_body]
pub(crate) fn open_carrier(e: Erased) -> (r: Result<Box<Carrier>, Erased>)
    ensures
        match r {
            Ok(c) => carried(e) == Some(*c),
            Err(rest) => carried(e) is None && rest == e,
        },
{
    match e.boxed.downcast::<Carrier>() {
        Ok(c) => Ok(c),
        Err(boxed) => Err(Erased { boxed }),
    }
}

/// `Box<dyn Any + Send>::downcast::<T>` for a type of the caller's choosing.
///
/// Trusted: a failed attempt gives the value back as it was. When the attempt succeeds is not
/// stated: that depends on the concrete type behind the box.
#[verifier::external_body]
pub(crate) fn unbox<T: 'static>(e: Erased) -> (r: Result<Box<T>, Erased>)
    ensures
        r matches Err(rest) ==> rest == e,
{
    match e.boxed.downcast::<T>() {
        Ok(b) => Ok(b),
        Err(boxed) => Err(Erased { boxed }),
    }
}

/// `<dyn Any + Send>::is::<T>`.
///
/// Trusted: it answers `true` exactly on the values that `downcast::<T>` accepts. std
/// documents both by the same test, whether the type behind the box is `T`.
#[verifier::external_body]
pub(crate) fn is_a<T: 'static>(e: &Erased) -> (yes: bool)
    ensures
        yes == recoverable::<T>(*e),
{
    e.boxed.is::<T>()
}

impl Erased {
    /// Whether the value is a `T`.
    pub fn holds<T: 'static>(&self) -> (yes: bool)
        ensures
            yes == recoverable::<T>(*self),
    {
        is_a::<T>(self)
    }

    /// Tries to take the value out as a `T`.
    ///
    /// It succeeds exactly where the value is a `T`. A mismatch is no fault: the erased
    /// value comes back unchanged in `Err`, ready for an attempt at another type.
    pub fn recover<T: 'static>(self) -> (r: Result<T, Erased>)
        ensures
            match r {
                Ok(v) => recoverable::<T>(self) && recovers(self, v),
                Err(rest) => !recoverable::<T>(self) && rest == self,
            },
    {
        if self.holds::<T>() {
            match unbox::<T>(self) {
                Ok(b) => Ok(*b),
                Err(rest) => Err(rest),
            }
        } else {
            Err(self)
        }
    }
}

} // verus!
