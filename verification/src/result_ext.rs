use vstd::prelude::*;

use crate::compat::Compat;
use crate::context::Context;
use crate::display::DisplayText;
use crate::error::Error;
use crate::fail::Fail;

verus! {

/// Extension methods for `Result`: transform the error side while passing a
/// success value through untouched.
///
/// Every operation is total: a success stays the identical success, and an
/// error is wrapped, never inspected beyond its capability. The contracts
/// common to every implementation are stated here over `result_spec`, the
/// receiver seen as the underlying `Result`; each implementation adds what
/// it guarantees about the retained cause.
pub trait ResultExt<T, E> {
    /// The receiver, seen as the underlying `Result`.
    spec fn result_spec(self) -> Result<T, E>;

    /// Wraps the error in [`Compat`] to make it compatible with legacy error
    /// handling interfaces. On success the value passes through untouched.
    fn compat(self) -> (r: Result<T, Compat<E>>)
        ensures
            self.result_spec() matches Ok(t) ==> (r matches Ok(rt) && rt == t),
            self.result_spec() matches Err(e) ==> (r matches Err(c) && c.inner_spec() == e),
    ;

    /// Wraps the error in a [`Context`] wrapper carrying the fixed payload
    /// `context`. On success the value passes through untouched and the
    /// payload is unused; on failure the wrapper holds the payload, displays
    /// as the payload's text alone, and retains the original error as its
    /// cause.
    fn context<D: DisplayText + Send + Sync + 'static>(self, context: D) -> (r: Result<
        T,
        Context<D>,
    >)
        ensures
            self.result_spec() matches Ok(t) ==> (r matches Ok(rt) && rt == t),
            self.result_spec() is Err ==> (r matches Err(c) && c.payload_spec() == context
                && c.display_spec() == context.display_spec()),
    ;

    /// Wraps the error in a [`Context`] wrapper whose payload is produced by
    /// `f` from a borrowed view of the error value. On success `f` is never
    /// invoked; on failure it is invoked exactly once, and the wrapper holds
    /// its output as the payload, displays as that payload's text alone, and
    /// retains the original error as its cause.
    fn with_context<F, D>(self, f: F) -> (r: Result<T, Context<D>>) where
        F: FnOnce(&E) -> D,
        D: DisplayText + Send + Sync + 'static,

        requires
            self.result_spec() matches Err(e) ==> call_requires(f, (&e,)),
        ensures
            self.result_spec() matches Ok(t) ==> (r matches Ok(rt) && rt == t),
            self.result_spec() matches Err(e) ==> (r matches Err(c) && call_ensures(
                f,
                (&e,),
                c.payload_spec(),
            ) && c.display_spec() == c.payload_spec().display_spec()),
    ;
}

impl<T, E: Fail> ResultExt<T, E> for Result<T, E> {
    open spec fn result_spec(self) -> Result<T, E> {
        self
    }

    fn compat(self) -> (r: Result<T, Compat<E>>) {
        match self {
            Ok(t) => Ok(t),
            Err(e) => Err(Compat::new(e)),
        }
    }

    fn context<D: DisplayText + Send + Sync + 'static>(self, context: D) -> (r: Result<
        T,
        Context<D>,
    >)
        ensures
            self matches Err(e) ==> (r matches Err(c) && c.cause_spec().text_spec()
                == e.display_spec() && c.cause_spec().causes_spec() == e.cause_chain()),
    {
        match self {
            Ok(t) => Ok(t),
            Err(e) => {
                let cause = Error::from_fail(&e);
                Err(Context::new(context, cause))
            },
        }
    }

    fn with_context<F, D>(self, f: F) -> (r: Result<T, Context<D>>) where
        F: FnOnce(&E) -> D,
        D: DisplayText + Send + Sync + 'static,

        ensures
            self matches Err(e) ==> (r matches Err(c) && c.cause_spec().text_spec()
                == e.display_spec() && c.cause_spec().causes_spec() == e.cause_chain()),
    {
        match self {
            Ok(t) => Ok(t),
            Err(e) => {
                let context = f(&e);
                let cause = Error::from_fail(&e);
                Err(Context::new(context, cause))
            },
        }
    }
}

impl<T> ResultExt<T, Error> for Result<T, Error> {
    open spec fn result_spec(self) -> Result<T, Error> {
        self
    }

    fn compat(self) -> (r: Result<T, Compat<Error>>) {
        match self {
            Ok(t) => Ok(t),
            Err(e) => Err(Compat::new(e)),
        }
    }

    fn context<D: DisplayText + Send + Sync + 'static>(self, context: D) -> (r: Result<
        T,
        Context<D>,
    >)
        ensures
            self matches Err(e) ==> (r matches Err(c) && c.cause_spec() == e),
    {
        match self {
            Ok(t) => Ok(t),
            Err(e) => Err(Context::new(context, e)),
        }
    }

    fn with_context<F, D>(self, f: F) -> (r: Result<T, Context<D>>) where
        F: FnOnce(&Error) -> D,
        D: DisplayText + Send + Sync + 'static,

        ensures
            self matches Err(e) ==> (r matches Err(c) && c.cause_spec() == e),
    {
        match self {
            Ok(t) => Ok(t),
            Err(e) => {
                let context = f(&e);
                Err(Context::new(context, e))
            },
        }
    }
}

} // verus!
