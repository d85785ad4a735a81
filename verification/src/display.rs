use vstd::prelude::*;

verus! {

/// Capability of producing a human-readable display string.
///
/// This is the library's displayability bound: a context payload, and every
/// error handled by this layer, must be able to render itself as text. The
/// spec-level text `display_spec` is the mathematical model; `display_text`
/// produces exactly that text.
pub trait DisplayText {
    /// The display text, as a mathematical sequence of characters.
    spec fn display_spec(&self) -> Seq<char>;

    /// Produces the display text.
    fn display_text(&self) -> (r: String)
        ensures
            r@ == self.display_spec(),
    ;
}

impl DisplayText for String {
    open spec fn display_spec(&self) -> Seq<char> {
        self@
    }

    fn display_text(&self) -> (r: String) {
        self.clone()
    }
}

} // verus!
