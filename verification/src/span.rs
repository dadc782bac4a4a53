//! Byte ranges of the original source.
use vstd::prelude::*;

verus! {

/// A byte range `[lo, hi)` of the original source, with the syntactic context
/// in which the node was made. The context `0` is the empty one.
#[derive(Clone, Copy, Debug, PartialEq, Eq, Structural)]
pub struct Span {
    pub lo: u32,
    pub hi: u32,
    pub ctxt: u32,
}

/// The span of a node that has no place in any source.
pub open spec fn dummy_span() -> Span {
    Span { lo: 0, hi: 0, ctxt: 0 }
}

impl Span {
    pub fn new(lo: u32, hi: u32) -> (r: Span)
        ensures
            r == (Span { lo, hi, ctxt: 0 }),
    {
        Span { lo, hi, ctxt: 0 }
    }

    pub fn dummy() -> (r: Span)
        ensures
            r == dummy_span(),
    {
        Span { lo: 0, hi: 0, ctxt: 0 }
    }

    /// Both ends are zero: the span points nowhere.
    pub open spec fn spec_is_dummy(&self) -> bool {
        self.lo == 0 && self.hi == 0
    }

    #[verifier::when_used_as_spec(spec_is_dummy)]
    pub fn is_dummy(&self) -> (r: bool)
        ensures
            r == self.spec_is_dummy(),
    {
        self.lo == 0 && self.hi == 0
    }

    /// A node is synthesized when its span is dummy or carries a context; it
    /// is original otherwise, and only then may its source text be looked up.
    pub open spec fn spec_is_synthesized(&self) -> bool {
        self.spec_is_dummy() || self.ctxt != 0
    }

    #[verifier::when_used_as_spec(spec_is_synthesized)]
    pub fn is_synthesized(&self) -> (r: bool)
        ensures
            r == self.spec_is_synthesized(),
    {
        self.is_dummy() || self.ctxt != 0
    }

    /// The same span ending at `hi`.
    pub fn with_hi(&self, hi: u32) -> (r: Span)
        ensures
            r == (Span { lo: self.lo, hi, ctxt: self.ctxt }),
    {
        Span { lo: self.lo, hi, ctxt: self.ctxt }
    }
}

} // verus!
