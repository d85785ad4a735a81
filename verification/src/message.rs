use vstd::prelude::*;

use crate::display::DisplayText;
use crate::fail::Fail;

verus! {

/// A leaf error made from a displayable message alone: it displays as its
/// message and carries no underlying cause.
pub struct ErrorMessage<D> {
    msg: D,
}

impl<D> ErrorMessage<D> {
    /// The message.
    pub closed spec fn msg_spec(&self) -> D {
        self.msg
    }

    /// Makes an error out of a displayable message.
    pub fn new(msg: D) -> (e: ErrorMessage<D>)
        ensures
            e.msg_spec() == msg,
    {
        ErrorMessage { msg }
    }
}

impl<D: DisplayText> DisplayText for ErrorMessage<D> {
    open spec fn display_spec(&self) -> Seq<char> {
        self.msg_spec().display_spec()
    }

    fn display_text(&self) -> (r: String) {
        self.msg.display_text()
    }
}

impl<D: DisplayText + Send + Sync + 'static> Fail for ErrorMessage<D> {
    open spec fn cause_chain(&self) -> Seq<Seq<char>> {
        Seq::empty()
    }

    fn cause_texts(&self) -> (r: Vec<String>) {
        Vec::new()
    }
}

} // verus!
