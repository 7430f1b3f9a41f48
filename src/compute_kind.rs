//! The three-level execution-kind lattice and its join combinators.
use vstd::prelude::*;

verus! {

/// How a piece of code must be scheduled: pure computation, frame-bound
/// rendering, or code that may suspend the running script.
///
/// The variants are listed in lattice order, lowest first.
#[derive(Clone, Copy, Debug, PartialEq, Eq, Structural, PartialOrd, Ord, Hash)]
pub enum ComputeKind {
    Computational,
    Graphical,
    Reactive,
}

impl ComputeKind {
    /// Position of the kind in the total order.
    pub open spec fn rank(self) -> nat {
        match self {
            ComputeKind::Computational => 0,
            ComputeKind::Graphical => 1,
            ComputeKind::Reactive => 2,
        }
    }

    /// `self` is below or equal to `other` in the lattice.
    pub open spec fn le(self, other: ComputeKind) -> bool {
        self.rank() <= other.rank()
    }
}

/// The larger of two kinds.
pub open spec fn kind_max(a: ComputeKind, b: ComputeKind) -> ComputeKind {
    if a.rank() >= b.rank() {
        a
    } else {
        b
    }
}

/// The join of a sequence of kinds; `Computational` for the empty sequence.
pub open spec fn kind_max_all(s: Seq<ComputeKind>) -> ComputeKind
    decreases s.len(),
{
    if s.len() == 0 {
        ComputeKind::Computational
    } else {
        kind_max(kind_max_all(s.drop_last()), s.last())
    }
}

/// Something whose execution kind depends on nothing but itself.
pub trait Computable {
    spec fn kind(&self) -> ComputeKind;

    fn get_compute_kind(&self) -> (r: ComputeKind)
        ensures
            r == self.kind(),
    ;
}

impl Computable for ComputeKind {
    open spec fn kind(&self) -> ComputeKind {
        *self
    }

    fn get_compute_kind(&self) -> (r: ComputeKind) {
        *self
    }
}

/// The join of two kinds.
pub fn join(a: ComputeKind, b: ComputeKind) -> (r: ComputeKind)
    ensures
        r == kind_max(a, b),
{
    match (a, b) {
        (ComputeKind::Reactive, _) | (_, ComputeKind::Reactive) => ComputeKind::Reactive,
        (ComputeKind::Graphical, _) | (_, ComputeKind::Graphical) => ComputeKind::Graphical,
        _ => ComputeKind::Computational,
    }
}

/// The join of any number of kinds; `Computational` when there are none.
pub fn join_all(kinds: &[ComputeKind]) -> (r: ComputeKind)
    ensures
        r == kind_max_all(kinds@),
{
    let mut acc = ComputeKind::Computational;
    let mut i: usize = 0;
    while i < kinds.len()
        invariant
            i <= kinds@.len(),
            acc == kind_max_all(kinds@.subrange(0, i as int)),
        decreases kinds@.len() - i,
    {
        assert(kinds@.subrange(0, i + 1).drop_last() =~= kinds@.subrange(0, i as int));
        acc = join(acc, kinds[i]);
        i = i + 1;
    }
    assert(kinds@.subrange(0, i as int) =~= kinds@);
    acc
}

} // verus!
