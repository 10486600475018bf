//! Scroll binding structure for operands and the execution tree. The
//! form is a placeholder while operand resolution settles; it carries no
//! state yet.
use vstd::prelude::*;

verus! {

/// The scroll-level binding form handed onward after resolution. It
/// carries no fields yet; resolved instruction, operands and trust
/// metadata will live here.
#[derive(Debug)]
pub struct ScrollForm {}

impl ScrollForm {
    /// Builds an (empty) scroll form from a resolved operand set. The
    /// binding conversion itself is future work: until it lands, every
    /// call returns the empty form normally, rather than aborting as an
    /// unfinished stub would.
    pub fn from_operands() -> (r: ScrollForm)
        ensures
            r == (ScrollForm {  }),
    {
        ScrollForm {  }
    }
}

/// A structure that can be assembled from a resolved operand set.
pub trait BindableForm: Sized {
    /// Builds the form from the operands at hand.
    fn from_operands() -> Self;
}

} // verus!
