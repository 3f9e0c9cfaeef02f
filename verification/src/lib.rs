//! Typed exceptions on top of unwinding.
//!
//! A value of a type that implements [`Exception`] is wrapped in a [`Carrier`] when it is
//! thrown. Whatever an unwind brings to the catching side is an [`Erased`] value; [`settle`]
//! tells a carrier from any other payload and answers with a [`CatchError`]. The concrete
//! exception comes back out of the carrier through [`ExceptionDowncast`].
//!
//! The unwinding itself and the process-wide hook are not part of this crate: it holds the
//! decisions made around them.

pub mod codegen;
pub mod erased;
pub mod exception;
pub mod guard;
pub mod outcome;

pub use erased::Erased;
pub use exception::{carrier_of, Carrier, Exception, ExceptionDowncast};
pub use guard::{silences, SuppressionGuard};
pub use outcome::{classify, settle, CatchError};
