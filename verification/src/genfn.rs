//! Composable generator functions: values that can be evaluated at an input.
//!
//! Each generator states, as spec functions, when it may be evaluated
//! (`eval_requires`) and which values it may yield (`eval_ensures`).
use core::marker::PhantomData;
use core::ops::Add;
use vstd::prelude::*;
use vstd::pervasive::strictly_cloned;
use vstd::std_specs::ops::AddSpec;

verus! {

/// A function from inputs `I` to outputs `O`.
pub trait GenFn<I, O>: Sized {
    /// The inputs at which `eval` may be called.
    spec fn eval_requires(&self, i: I) -> bool;

    /// The values that `eval` may yield at `i`.
    spec fn eval_ensures(&self, i: I, o: O) -> bool;

    /// Evaluates this function at `i`.
    fn eval(&self, i: I) -> (o: O)
        requires
            self.eval_requires(i),
        ensures
            self.eval_ensures(i, o),
    ;

    /// Wraps this function so that `m` is applied to each of its results.
    fn map<M, MO>(self, m: M) -> (r: MapFn<I, Self, O, M, MO>) where M: Fn(O) -> MO
        ensures
            r.inner() == self,
            r.mapper() == m,
    {
        MapFn::new(self, m)
    }
}

/// A function whose outputs can be raised to a power.
pub trait FloatFn<I, O>: GenFn<I, O> {
    /// Wraps this function so that each of its results is raised to `pow`.
    fn powf(self, pow: O) -> (r: PowfFn<Self, O>)
        ensures
            r.base() == self,
            r.exponent() == pow,
    {
        PowfFn::new(self, pow)
    }
}

/// A function that yields the same value at every input.
pub struct ConstantFn<O> {
    o: O,
}

impl<O> ConstantFn<O> {
    /// The value this function yields.
    pub closed spec fn value(&self) -> O {
        self.o
    }

    pub fn new(o: O) -> (r: Self)
        ensures
            r.value() == o,
    {
        Self { o }
    }
}

impl<I, O: Clone> GenFn<I, O> for ConstantFn<O> {
    open spec fn eval_requires(&self, i: I) -> bool {
        true
    }

    /// The result is a clone of the value.
    open spec fn eval_ensures(&self, i: I, o: O) -> bool {
        strictly_cloned(self.value(), o)
    }

    fn eval(&self, i: I) -> (o: O) {
        self.o.clone()
    }
}

impl<I, O: Clone> FloatFn<I, O> for ConstantFn<O> {

}

/// A function `f` whose results are raised to the power `pow`.
pub struct PowfFn<F, O> {
    f: F,
    pow: O,
}

impl<F, O> PowfFn<F, O> {
    /// The function whose results are raised.
    pub closed spec fn base(&self) -> F {
        self.f
    }

    /// The power the results are raised to.
    pub closed spec fn exponent(&self) -> O {
        self.pow
    }

    pub fn new(f: F, pow: O) -> (r: Self)
        ensures
            r.base() == f,
            r.exponent() == pow,
    {
        Self { f, pow }
    }

    /// The function whose results are raised.
    pub fn base_fn(&self) -> (r: &F)
        ensures
            *r == self.base(),
    {
        &self.f
    }

    /// The power the results are raised to.
    pub fn power(&self) -> (r: &O)
        ensures
            *r == self.exponent(),
    {
        &self.pow
    }
}

/// The pointwise sum of two functions.
pub struct AddFn<F, G> {
    f: F,
    g: G,
}

impl<F, G> AddFn<F, G> {
    /// The left summand.
    pub closed spec fn left(&self) -> F {
        self.f
    }

    /// The right summand.
    pub closed spec fn right(&self) -> G {
        self.g
    }

    pub fn new(f: F, g: G) -> (r: Self)
        ensures
            r.left() == f,
            r.right() == g,
    {
        Self { f, g }
    }
}

/// `o` is a sum that evaluating `f + g` at `i` may give: `f` at a clone of
/// `i` plus `g` at `i`.
pub open spec fn sum_at<I: Clone, F: GenFn<I, O>, G: GenFn<I, O>, O: Add<Output = O>>(f: F, g: G, i: I, o: O) -> bool {
    exists|j: I, x: O, y: O|
        #![trigger strictly_cloned(i, j), f.eval_ensures(j, x), g.eval_ensures(i, y)]
        strictly_cloned(i, j) && f.eval_ensures(j, x) && g.eval_ensures(i, y) && o == x.add_spec(y)
}

impl<I: Clone, F, G, O> GenFn<I, O> for AddFn<F, G> where
    F: GenFn<I, O>,
    G: GenFn<I, O>,
    O: Add<Output = O>,
 {
    /// Both parts may be evaluated (the left one at every clone of `i`),
    /// and any two values they may give can be added.
    open spec fn eval_requires(&self, i: I) -> bool {
        &&& forall|j: I| #[trigger] strictly_cloned(i, j) ==> self.left().eval_requires(j)
        &&& self.right().eval_requires(i)
        &&& O::obeys_add_spec()
        &&& forall|j: I, x: O, y: O|
            #![trigger strictly_cloned(i, j), self.left().eval_ensures(j, x), self.right().eval_ensures(i, y)]
            strictly_cloned(i, j) && self.left().eval_ensures(j, x) && self.right().eval_ensures(i, y)
                ==> x.add_req(y)
    }

    open spec fn eval_ensures(&self, i: I, o: O) -> bool {
        sum_at(self.left(), self.right(), i, o)
    }

    fn eval(&self, i: I) -> (o: O) {
        let j = i.clone();
        assert(strictly_cloned(i, j));
        let a = self.f.eval(j);
        let b = self.g.eval(i);
        assert(self.left().eval_ensures(j, a) && self.right().eval_ensures(i, b));
        assert(a.add_req(b));
        a + b
    }
}

/// Evaluating a sum of two functions at `i` gives the left part's value at
/// a clone of `i` plus the right part's value at `i`.
pub proof fn lemma_add_fn_sum<I: Clone, F: GenFn<I, O>, G: GenFn<I, O>, O: Add<Output = O>>(
    a: AddFn<F, G>,
    i: I,
    o: O,
)
    ensures
        <AddFn<F, G> as GenFn<I, O>>::eval_ensures(&a, i, o) <==> exists|j: I, x: O, y: O|
            #![trigger strictly_cloned(i, j), a.left().eval_ensures(j, x), a.right().eval_ensures(i, y)]
            strictly_cloned(i, j) && a.left().eval_ensures(j, x) && a.right().eval_ensures(i, y) && o
                == x.add_spec(y),
{
}

/// Where `+` on the outputs commutes and cloning `i` gives back `i`,
/// swapping the two parts of a sum changes neither where it may be
/// evaluated nor what it may yield.
pub proof fn lemma_add_fn_swap<I: Clone, F: GenFn<I, O>, G: GenFn<I, O>, O: Add<Output = O>>(
    a: AddFn<F, G>,
    b: AddFn<G, F>,
    i: I,
)
    requires
        b.left() == a.right(),
        b.right() == a.left(),
        forall|j: I| #[trigger] strictly_cloned(i, j) ==> j == i,
        strictly_cloned(i, i),
        forall|x: O, y: O| #[trigger] x.add_spec(y) == y.add_spec(x),
        forall|x: O, y: O| #[trigger] x.add_req(y) == y.add_req(x),
    ensures
        forall|o: O|
            #[trigger] <AddFn<G, F> as GenFn<I, O>>::eval_ensures(&b, i, o) == <AddFn<F, G> as GenFn<I, O>>::eval_ensures(&a, i, o),
        <AddFn<G, F> as GenFn<I, O>>::eval_requires(&b, i) == <AddFn<F, G> as GenFn<I, O>>::eval_requires(&a, i),
{
    let f = a.left();
    let g = a.right();
    assert forall|o: O| #[trigger] <AddFn<G, F> as GenFn<I, O>>::eval_ensures(&b, i, o) == <AddFn<F, G> as GenFn<I, O>>::eval_ensures(&a, i, o) by {
        if sum_at(f, g, i, o) {
            let (j, x, y) = choose|j: I, x: O, y: O|
                #![trigger strictly_cloned(i, j), f.eval_ensures(j, x), g.eval_ensures(i, y)]
                strictly_cloned(i, j) && f.eval_ensures(j, x) && g.eval_ensures(i, y) && o == x.add_spec(y);
            assert(j == i);
            assert(o == y.add_spec(x));
            assert(strictly_cloned(i, i) && g.eval_ensures(i, y) && f.eval_ensures(i, x));
        }
        if sum_at(g, f, i, o) {
            let (j, y, x) = choose|j: I, y: O, x: O|
                #![trigger strictly_cloned(i, j), g.eval_ensures(j, y), f.eval_ensures(i, x)]
                strictly_cloned(i, j) && g.eval_ensures(j, y) && f.eval_ensures(i, x) && o == y.add_spec(x);
            assert(j == i);
            assert(o == x.add_spec(y));
            assert(strictly_cloned(i, i) && f.eval_ensures(i, x) && g.eval_ensures(i, y));
        }
    }
    assert(<AddFn<G, F> as GenFn<I, O>>::eval_requires(&b, i) == <AddFn<F, G> as GenFn<I, O>>::eval_requires(&a, i)) by {
        assert forall|j: I, x: O, y: O|
            strictly_cloned(i, j) && f.eval_ensures(j, x) && g.eval_ensures(i, y) implies x.add_req(y) == y.add_req(x) by {}
    }
}

/// A function `f` whose results are passed through `m`.
pub struct MapFn<I, F, F2M, M, O> {
    f: F,
    m: M,
    _phantom: PhantomData<(I, F2M, O)>,
}

impl<I, F, F2M, M, O> MapFn<I, F, F2M, M, O> {
    /// The function whose results are mapped.
    pub closed spec fn inner(&self) -> F {
        self.f
    }

    /// The map applied to each result.
    pub closed spec fn mapper(&self) -> M {
        self.m
    }

    pub fn new(f: F, m: M) -> (r: Self)
        ensures
            r.inner() == f,
            r.mapper() == m,
    {
        Self { f, m, _phantom: PhantomData }
    }
}

impl<I, F, F2M, M, O> MapFn<I, F, F2M, M, O> where F: GenFn<I, F2M>, M: Fn(F2M) -> O {
    /// Evaluates the wrapped function at `i` and maps its result.
    pub fn eval(&self, i: I) -> (o: O)
        requires
            self.inner().eval_requires(i),
            forall|x: F2M| #[trigger] self.inner().eval_ensures(i, x) ==> call_requires(self.mapper(), (x,)),
        ensures
            exists|x: F2M| #[trigger] self.inner().eval_ensures(i, x) && call_ensures(self.mapper(), (x,), o),
    {
        let x = self.f.eval(i);
        (self.m)(x)
    }
}

impl<I, F, F2M, M, O> GenFn<I, O> for MapFn<I, F, F2M, M, O> where
    F: GenFn<I, F2M>,
    M: Fn(F2M) -> O,
 {
    /// The wrapped function may be evaluated, and the map may be called at
    /// each value it may give.
    open spec fn eval_requires(&self, i: I) -> bool {
        &&& self.inner().eval_requires(i)
        &&& forall|x: F2M| #[trigger] self.inner().eval_ensures(i, x) ==> call_requires(self.mapper(), (x,))
    }

    /// `o` is what the map may give at a value the wrapped function may give.
    open spec fn eval_ensures(&self, i: I, o: O) -> bool {
        exists|x: F2M| #[trigger] self.inner().eval_ensures(i, x) && call_ensures(self.mapper(), (x,), o)
    }

    fn eval(&self, i: I) -> (o: O) {
        MapFn::eval(self, i)
    }
}

/// Evaluating a mapped function at `i` gives the map applied to a value the
/// wrapped function gives at `i`; it may be evaluated exactly where the
/// wrapped function may be, and the map may be called on its values.
pub proof fn lemma_map_fn_composes<I, F: GenFn<I, F2M>, F2M, M: Fn(F2M) -> O, O>(
    mf: MapFn<I, F, F2M, M, O>,
    i: I,
    o: O,
)
    ensures
        <MapFn<I, F, F2M, M, O> as GenFn<I, O>>::eval_ensures(&mf, i, o) <==> exists|x: F2M|
            #[trigger] mf.inner().eval_ensures(i, x) && call_ensures(mf.mapper(), (x,), o),
        <MapFn<I, F, F2M, M, O> as GenFn<I, O>>::eval_requires(&mf, i) <==> (mf.inner().eval_requires(i)
            && forall|x: F2M| #[trigger] mf.inner().eval_ensures(i, x) ==> call_requires(mf.mapper(), (x,))),
{
}

/// A mapped function is fixed by what it wraps and its map: `map` and
/// `MapFn::new` on the same parts build the same value.
pub proof fn lemma_map_fn_parts<I, F, F2M, M, O>(a: MapFn<I, F, F2M, M, O>, b: MapFn<I, F, F2M, M, O>)
    requires
        a.inner() == b.inner(),
        a.mapper() == b.mapper(),
    ensures
        a == b,
{
    assert(a._phantom == b._phantom);
}

} // verus!
