use vstd::prelude::*;

use crate::display::DisplayText;
use crate::error::Error;
use crate::fail::Fail;

verus! {

/// An error wrapped together with a descriptive context payload.
///
/// The wrapper displays only the payload's own text; the wrapped error stays
/// reachable as the cause, so the diagnostic chain keeps every level. The
/// payload is attached at the moment an error is transformed and the original
/// error is retained, already erased, as the cause.
pub struct Context<D> {
    payload: D,
    cause: Error,
}

impl<D> Context<D> {
    /// The context payload.
    pub closed spec fn payload_spec(&self) -> D {
        self.payload
    }

    /// The erased error retained as the cause.
    pub closed spec fn cause_spec(&self) -> Error {
        self.cause
    }

    /// Wraps an already-erased cause error together with a context payload.
    pub fn new(payload: D, cause: Error) -> (c: Context<D>)
        ensures
            c.payload_spec() == payload,
            c.cause_spec() == cause,
    {
        Context { payload, cause }
    }

    /// The context payload.
    pub fn get_context(&self) -> (r: &D)
        ensures
            *r == self.payload_spec(),
    {
        &self.payload
    }

    /// The erased error retained as the cause.
    pub fn cause(&self) -> (r: &Error)
        ensures
            *r == self.cause_spec(),
    {
        &self.cause
    }
}

impl<D: DisplayText> DisplayText for Context<D> {
    /// A context wrapper displays only its payload's text; the wrapped
    /// error's own text is not concatenated.
    open spec fn display_spec(&self) -> Seq<char> {
        self.payload_spec().display_spec()
    }

    fn display_text(&self) -> (r: String) {
        self.payload.display_text()
    }
}

impl<D: DisplayText + Send + Sync + 'static> Fail for Context<D> {
    /// The wrapper's nearest cause is the wrapped error itself; the wrapped
    /// error's own causes follow.
    open spec fn cause_chain(&self) -> Seq<Seq<char>> {
        seq![self.cause_spec().text_spec()] + self.cause_spec().causes_spec()
    }

    fn cause_texts(&self) -> (r: Vec<String>) {
        let r = self.cause.chain_texts();
        proof {
            assert forall|i: int| 0 <= i < r@.len() implies
                r@[i]@ == self.cause_chain()[i] by {
                if i >= 1 {
                    assert(r@[i]@ == self.cause_spec().causes_spec()[i - 1]);
                }
            }
        }
        r
    }
}

/// Wrapping a context wrapper in another context wrapper adds one level to
/// the cause chain instead of collapsing levels: the new chain starts with
/// the inner wrapper's display text, followed by the inner wrapper's whole
/// chain, so its length grows by one with every wrap applied. The premises
/// are exactly what the context transform guarantees of a wrapper built
/// around an inner wrapper.
pub proof fn lemma_rewrap_extends_chain<D1, D2>(inner: Context<D1>, outer: Context<D2>)
    where
        D1: DisplayText + Send + Sync + 'static,
        D2: DisplayText + Send + Sync + 'static,
    requires
        outer.cause_spec().text_spec() == inner.display_spec(),
        outer.cause_spec().causes_spec() == inner.cause_chain(),
    ensures
        outer.cause_chain().len() == inner.cause_chain().len() + 1,
        outer.cause_chain()[0] == inner.display_spec(),
        forall|i: int| 1 <= i < outer.cause_chain().len() ==>
            #[trigger] outer.cause_chain()[i] == inner.cause_chain()[i - 1],
{
}

} // verus!
