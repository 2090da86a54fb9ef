//! The interface shared by the world generators.
use vstd::prelude::*;

verus! {

/// A generator: samples an output at an input, with the help of a supplement.
pub trait Gen<S> {
    type In;
    type Out;

    /// The inputs and supplements at which `sample` may be called.
    spec fn sample_requires(&self, i: Self::In, supplement: S) -> bool;

    /// The outputs that `sample` may give at `i` with `supplement`.
    spec fn sample_ensures(&self, i: Self::In, supplement: S, o: Self::Out) -> bool;

    /// Samples the generator at `i`.
    fn sample(&self, i: Self::In, supplement: &S) -> (o: Self::Out)
        requires
            self.sample_requires(i, *supplement),
        ensures
            self.sample_ensures(i, *supplement, o),
    ;
}

} // verus!
