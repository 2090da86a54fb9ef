//! A direct-mapped cache in front of a generator.
//!
//! Each input hashes to one slot of the cache. A sample first looks in that
//! slot; if it holds the same input, its output is returned, otherwise the
//! wrapped generator is sampled and the slot is overwritten.
use crate::vec::Vec2;
use crate::world::gen::Gen;
use core::hash::Hasher;
use fnv::FnvHasher;
use vstd::prelude::*;

verus! {

/// The FNV hash (with key 0) of the coordinates of a point, in the byte
/// order of the machine.
///
/// Calls `fnv::FnvHasher::with_key`, `Hasher::write_i64` and `Hasher::finish`.
/// Nothing is stated of the result: it depends on the machine's byte order.
#[verifier::external_body]
fn fnv_hash_point(x: i64, y: i64) -> u64 {
    let mut hasher = FnvHasher::with_key(0);
    hasher.write_i64(x);
    hasher.write_i64(y);
    hasher.finish()
}

/// A value that can key the cache.
pub trait CacheKey: Copy {
    /// Whether two keys are the same.
    fn key_eq(&self, other: &Self) -> (r: bool)
        ensures
            r == (*self == *other),
    ;

    /// A hash of the key that picks its slot.
    fn key_hash(&self) -> u64;
}

impl CacheKey for Vec2 {
    fn key_eq(&self, other: &Self) -> (r: bool) {
        self.x == other.x && self.y == other.y
    }

    fn key_hash(&self) -> u64 {
        fnv_hash_point(self.x, self.y)
    }
}

/// A generator `T` with a cache of the outputs it gave.
pub struct CacheGen<T, I, O> {
    cache: Vec<Option<(I, O)>>,
    gen: T,
}

impl<T, I, O> CacheGen<T, I, O> {
    /// The slots of the cache.
    pub closed spec fn entries(&self) -> Seq<Option<(I, O)>> {
        self.cache@
    }

    /// The wrapped generator.
    pub closed spec fn generator(&self) -> T {
        self.gen
    }

    /// Slot `e` holds an output for input `i`.
    pub open spec fn keyed(e: Option<(I, O)>, i: I) -> bool {
        e matches Some(p) && p.0 == i
    }

    /// What one sample at `i` does, from this cache to `after`, giving `o`:
    /// the generator stays; either some slot already held `(i, o)` and
    /// nothing changes, or a slot not holding `i` now holds `(i, o)`, `o`
    /// being a sample of the generator, and no other slot changes.
    pub open spec fn sample_step<S>(&self, after: Self, i: I, supplement: S, o: O) -> bool where
        T: Gen<S, In = I, Out = O>,
     {
        &&& after.generator() == self.generator()
        &&& after.entries().len() == self.entries().len()
        &&& exists|j: int|
            0 <= j < self.entries().len() && {
                ||| self.entries()[j] == Some((i, o)) && after.entries() == self.entries()
                ||| !Self::keyed(self.entries()[j], i) && after.entries() == self.entries().update(
                    j,
                    Some((i, o)),
                ) && self.generator().sample_ensures(i, supplement, o)
            }
    }

    /// Every output held in the cache is one that the generator may give
    /// for its input with `supplement`.
    pub open spec fn consistent<S>(&self, supplement: S) -> bool where T: Gen<S, In = I, Out = O> {
        forall|j: int|
            0 <= j < self.entries().len() ==> match #[trigger] self.entries()[j] {
                Some((k, o)) => self.generator().sample_ensures(k, supplement, o),
                None => true,
            }
    }

    /// A cache of `cache_size` empty slots in front of `gen`.
    pub fn new(gen: T, cache_size: usize) -> (r: Self)
        ensures
            r.generator() == gen,
            r.entries() == Seq::<Option<(I, O)>>::new(cache_size as nat, |j: int| None),
    {
        let mut cache: Vec<Option<(I, O)>> = Vec::new();
        let mut n: usize = 0;
        while n < cache_size
            invariant
                n <= cache_size,
                cache@ == Seq::<Option<(I, O)>>::new(n as nat, |j: int| None),
            decreases cache_size - n,
        {
            cache.push(None);
            n += 1;
            assert(cache@ =~= Seq::<Option<(I, O)>>::new(n as nat, |j: int| None));
        }
        Self { cache, gen }
    }

    /// The wrapped generator.
    pub fn internal(&self) -> (r: &T)
        ensures
            *r == self.generator(),
    {
        &self.gen
    }
}

impl<T, I: CacheKey, O: Copy> CacheGen<T, I, O> {
    /// Samples at `i`: the output cached for `i` if its slot holds one, else
    /// a fresh sample of the generator, which then replaces the slot. On a
    /// hit the cache is unchanged; on a miss only the slot of `i` changes.
    pub fn sample<S>(&mut self, i: I, supplement: &S) -> (o: O) where T: Gen<S, In = I, Out = O>
        requires
            old(self).entries().len() > 0,
            old(self).generator().sample_requires(i, *supplement),
        ensures
            old(self).sample_step(*final(self), i, *supplement, o),
            old(self).consistent(*supplement) ==> final(self).consistent(*supplement)
                && old(self).generator().sample_ensures(i, *supplement, o),
    {
        let len = self.cache.len();
        let idx = (i.key_hash() % (len as u64)) as usize;
        match self.cache[idx] {
            Some((cached_i, o)) => {
                if cached_i.key_eq(&i) {
                    return o;
                }
            },
            None => {},
        }
        let samp = self.gen.sample(i, supplement);
        self.cache.set(idx, Some((i, samp)));
        samp
    }
}

/// For a generator that gives one output at `i`, sampling a consistent
/// cache at `i` gives that output, and afterwards the cache is as before
/// with one slot holding `(i, o)`.
pub proof fn lemma_cache_gives_the_sample<T, I, O, S>(
    before: CacheGen<T, I, O>,
    after: CacheGen<T, I, O>,
    i: I,
    supplement: S,
    o: O,
) where T: Gen<S, In = I, Out = O>
    requires
        before.sample_step(after, i, supplement, o),
        before.consistent(supplement),
        forall|o1: O, o2: O|
            #![trigger before.generator().sample_ensures(i, supplement, o1), before.generator().sample_ensures(i, supplement, o2)]
            before.generator().sample_ensures(i, supplement, o1) && before.generator().sample_ensures(i, supplement, o2)
                ==> o1 == o2,
    ensures
        before.generator().sample_ensures(i, supplement, o),
        forall|o2: O| #[trigger] before.generator().sample_ensures(i, supplement, o2) ==> o2 == o,
        exists|j: int| 0 <= j < before.entries().len() && after.entries() == before.entries().update(j, Some((i, o))),
{
    let j = choose|j: int|
        0 <= j < before.entries().len() && {
            ||| before.entries()[j] == Some((i, o)) && after.entries() == before.entries()
            ||| !CacheGen::<T, I, O>::keyed(before.entries()[j], i) && after.entries() == before.entries().update(
                j,
                Some((i, o)),
            ) && before.generator().sample_ensures(i, supplement, o)
        };
    if before.entries()[j] == Some((i, o)) {
        assert(before.entries().update(j, Some((i, o))) =~= before.entries());
    }
    assert(before.entries().update(j, Some((i, o))) == after.entries());
}

} // verus!
