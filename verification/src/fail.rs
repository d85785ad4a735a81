use vstd::prelude::*;

use crate::display::DisplayText;

verus! {

/// The error capability: any displayable, thread-transferable error that can
/// report the chain of underlying causes it carries.
///
/// The capability is open: arbitrary types may implement it. An error's
/// diagnostic content is modelled by its own display text (from
/// [`DisplayText`]) together with `cause_chain`, the display texts of its
/// causes, nearest cause first. An error with no underlying cause has an
/// empty chain.
pub trait Fail: DisplayText + Send + Sync + 'static {
    /// The display texts of the chain of underlying causes, nearest first.
    spec fn cause_chain(&self) -> Seq<Seq<char>>;

    /// Produces the display texts of the chain of underlying causes,
    /// nearest first.
    fn cause_texts(&self) -> (r: Vec<String>)
        ensures
            r@.len() == self.cause_chain().len(),
            forall|i: int| 0 <= i < r@.len() ==> #[trigger] r@[i]@ == self.cause_chain()[i],
    ;
}

} // verus!
