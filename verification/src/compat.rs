use vstd::prelude::*;

use crate::display::DisplayText;
use crate::fail::Fail;

verus! {

/// A compatibility wrapper: owns an error satisfying the [`Fail`] capability
/// and re-exposes it through the legacy "has a description, has a cause"
/// interface.
pub struct Compat<E> {
    inner: E,
}

impl<E> Compat<E> {
    /// The wrapped error.
    pub closed spec fn inner_spec(&self) -> E {
        self.inner
    }

    /// Wraps an error for the legacy interface.
    pub fn new(inner: E) -> (c: Compat<E>)
        ensures
            c.inner_spec() == inner,
    {
        Compat { inner }
    }

    /// A reference to the wrapped error.
    pub fn get_ref(&self) -> (r: &E)
        ensures
            *r == self.inner_spec(),
    {
        &self.inner
    }

    /// Unwraps the wrapped error.
    pub fn into_inner(self) -> (r: E)
        ensures
            r == self.inner_spec(),
    {
        self.inner
    }
}

impl<E: DisplayText> Compat<E> {
    /// The legacy description: exactly the wrapped error's display text.
    pub fn description(&self) -> (r: String)
        ensures
            r@ == self.inner_spec().display_spec(),
    {
        self.inner.display_text()
    }
}

impl<E: Fail> Compat<E> {
    /// The legacy cause: the display text of the wrapped error's nearest
    /// cause, or nothing when the wrapped error has no cause.
    pub fn cause_text(&self) -> (r: Option<String>)
        ensures
            r is Some <==> self.inner_spec().cause_chain().len() > 0,
            r matches Some(t) ==> t@ == self.inner_spec().cause_chain()[0],
    {
        let causes = self.inner.cause_texts();
        if causes.len() > 0 {
            Some(causes[0].clone())
        } else {
            None
        }
    }
}

/// Compat-wrapping an error and then reading its description through the
/// legacy interface returns the original error's display text unchanged. The
/// premise is exactly what the compat transform guarantees of the wrapper it
/// builds; the conclusion equates the description's text with the original's.
pub proof fn lemma_compat_preserves_description<E: Fail>(original: E, wrapper: Compat<E>)
    requires
        wrapper.inner_spec() == original,
    ensures
        wrapper.inner_spec().display_spec() == original.display_spec(),
        wrapper.inner_spec().cause_chain() == original.cause_chain(),
{
}

} // verus!
