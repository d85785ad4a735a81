use vstd::prelude::*;

use crate::display::DisplayText;
use crate::fail::Fail;

verus! {

/// The type-erased error container.
///
/// Erasing an error keeps exactly its diagnostic content: the display text of
/// the error itself and the display texts of its chain of underlying causes,
/// nearest first. Both remain reachable for diagnostic chain-walking.
pub struct Error {
    text: String,
    causes: Vec<String>,
}

impl Error {
    /// The display text of the erased error.
    pub closed spec fn text_spec(&self) -> Seq<char> {
        self.text@
    }

    /// The display texts of the erased error's causes, nearest first.
    pub closed spec fn causes_spec(&self) -> Seq<Seq<char>> {
        self.causes@.map_values(|s: String| s@)
    }

    /// Erases an error: keeps its display text and its cause chain.
    pub fn from_fail<F: Fail>(failure: &F) -> (e: Error)
        ensures
            e.text_spec() == failure.display_spec(),
            e.causes_spec() == failure.cause_chain(),
    {
        let text = failure.display_text();
        let causes = failure.cause_texts();
        let e = Error { text, causes };
        proof {
            assert forall|i: int| 0 <= i < e.causes_spec().len() implies
                e.causes_spec()[i] == failure.cause_chain()[i] by {
                assert(e.causes_spec()[i] == causes@[i]@);
            }
            assert(e.causes_spec() =~= failure.cause_chain());
        }
        e
    }

    /// The display text of the erased error.
    pub fn text(&self) -> (r: &String)
        ensures
            r@ == self.text_spec(),
    {
        &self.text
    }

    /// The display texts of the erased error's causes, nearest first.
    pub fn causes(&self) -> (r: &Vec<String>)
        ensures
            r@.len() == self.causes_spec().len(),
            forall|i: int| 0 <= i < r@.len() ==> #[trigger] r@[i]@ == self.causes_spec()[i],
    {
        &self.causes
    }

    /// Produces the whole diagnostic chain of the erased error: its own
    /// display text first, then the texts of its causes, nearest first.
    pub fn chain_texts(&self) -> (r: Vec<String>)
        ensures
            r@.len() == 1 + self.causes_spec().len(),
            r@[0]@ == self.text_spec(),
            forall|i: int| 1 <= i < r@.len() ==> #[trigger] r@[i]@ == self.causes_spec()[i - 1],
    {
        let mut r: Vec<String> = Vec::new();
        r.push(self.text.clone());
        let mut i: usize = 0;
        while i < self.causes.len()
            invariant
                i <= self.causes.len(),
                r@.len() == 1 + i,
                r@[0]@ == self.text_spec(),
                forall|j: int| 1 <= j < r@.len() ==> #[trigger] r@[j]@ == self.causes_spec()[j - 1],
            decreases self.causes.len() - i,
        {
            r.push(self.causes[i].clone());
            i += 1;
        }
        r
    }
}

impl DisplayText for Error {
    open spec fn display_spec(&self) -> Seq<char> {
        self.text_spec()
    }

    fn display_text(&self) -> (r: String) {
        self.text.clone()
    }
}

} // verus!
