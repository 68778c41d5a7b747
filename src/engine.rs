use crate::field::{field_extends, NoiseField};
use crate::lattice::{corner_seq, lemma_corners_distinct, Dimension, LatticePoint};
use rand::rngs::StdRng;
use rand::SeedableRng;
use vstd::prelude::*;

verus! {

#[verifier::external_type_specification]
#[verifier::external_body]
pub struct ExStdRng(StdRng);

/// Relies on rand's `SeedableRng::seed_from_u64` for `StdRng`: the returned
/// generator's stream is fixed by `seed`.
#[verifier::external_body]
fn seeded_rng(seed: u64) -> (r: StdRng) {
    StdRng::seed_from_u64(seed)
}

/// Relies on rand's `random`: a value drawn from the thread-local generator;
/// nothing is known of it.
pub assume_specification<T>[ rand::random::<T> ]() -> (r: T)
    where
        rand::distributions::Standard: rand::distributions::Distribution<T>,
;

/// What a dimension supplies to the engine: the lattice shape, an optional
/// default palette, and the floating-point geometry of one sample.
pub trait GradVector {
    /// A gradient, and also a query point: one coordinate per axis.
    type U: Copy;

    /// What one sample returns.
    type Noise;

    /// The shape of the lattice.
    fn dimension() -> Dimension;

    /// The palette that a seeded engine starts with, if any.
    fn default_gradient_list() -> Option<Vec<Self::U>>;

    /// A gradient synthesized from the stream, used when no palette is set.
    fn new_normalized(random: &mut StdRng) -> Self::U;

    /// The palette slot of the next draw: a float of `[0, 1)` from the stream,
    /// scaled by `len` and truncated.
    fn palette_slot(random: &mut StdRng, len: usize) -> usize;

    /// The coordinates of `p` truncated toward zero (the second is 0 for one
    /// axis). For a negative coordinate this is not the floor: the base then
    /// lies on the far side of the point, and the cell's corners do not
    /// surround it. Sampled values depend on this, so it is kept.
    fn cell_base(p: &Self::U) -> (i32, i32);

    /// Blends the corner influences of `p` and normalizes the result; the
    /// gradients are in the order of the corners.
    fn noise_value(p: &Self::U, corners: &Vec<LatticePoint>, gradients: &Vec<Self::U>) -> Self::Noise;
}

/// Why an engine could not be built.
#[derive(Clone, Copy, Debug, PartialEq, Eq, Structural)]
pub enum PaletteError {
    /// Palette mode was asked for with a palette that holds no gradient.
    EmptyPalette,
}

/// How many points of `cs` are not yet in `field`, each counted where it
/// stands in `cs`.
pub open spec fn miss_count<U>(field: Map<LatticePoint, U>, cs: Seq<LatticePoint>) -> nat
    decreases cs.len(),
{
    if cs.len() == 0 {
        0
    } else {
        miss_count(field, cs.drop_last()) + if field.contains_key(cs.last()) {
            0nat
        } else {
            1nat
        }
    }
}

/// A query whose corners all have gradients draws nothing from the stream.
pub proof fn lemma_revisit_draws_nothing<U>(field: Map<LatticePoint, U>, cs: Seq<LatticePoint>)
    requires
        forall|j: int| 0 <= j < cs.len() ==> #[trigger] field.contains_key(cs[j]),
    ensures
        miss_count(field, cs) == 0,
    decreases cs.len(),
{
    if cs.len() > 0 {
        let rest = cs.drop_last();
        assert forall|j: int| 0 <= j < rest.len() implies #[trigger] field.contains_key(rest[j]) by {
            assert(rest[j] == cs[j]);
        }
        lemma_revisit_draws_nothing(field, rest);
        assert(field.contains_key(cs[cs.len() - 1]));
    }
}

/// Querying a cell whose corners were all visited leaves the field as it
/// was: each stored gradient is reused, none is regenerated.
pub proof fn lemma_revisit_keeps_field<U>(
    earlier: Map<LatticePoint, U>,
    later: Map<LatticePoint, U>,
    cs: Seq<LatticePoint>,
)
    requires
        visited_exactly(earlier, later, cs),
        forall|j: int| 0 <= j < cs.len() ==> #[trigger] earlier.contains_key(cs[j]),
    ensures
        later == earlier,
{
    assert forall|p: LatticePoint| #[trigger] later.contains_key(p) implies earlier.contains_key(p) by {
        if cs.contains(p) {
            let k = choose|k: int| 0 <= k < cs.len() && cs[k] == p;
            assert(earlier.contains_key(cs[k]));
        }
    }
    assert(later =~= earlier);
}

/// `later` is `earlier` with a gradient added at each point of `cs` that
/// lacked one, and at no other point.
pub open spec fn visited_exactly<U>(
    earlier: Map<LatticePoint, U>,
    later: Map<LatticePoint, U>,
    cs: Seq<LatticePoint>,
) -> bool {
    &&& field_extends(earlier, later)
    &&& forall|j: int| 0 <= j < cs.len() ==> #[trigger] later.contains_key(cs[j])
    &&& forall|p: LatticePoint| #[trigger]
        later.contains_key(p) ==> earlier.contains_key(p) || cs.contains(p)
}

/// The slot that a draw of `slot` reads from a palette of `len` entries: the
/// drawn slot itself, or the last one when the draw lies past the end (a
/// float that rounded up to the length).
pub open spec fn held_slot(slot: int, len: int) -> int {
    if slot < len {
        slot
    } else {
        len - 1
    }
}

/// The palette entry for a drawn slot.
pub fn palette_entry<U: Copy>(list: &Vec<U>, slot: usize) -> (r: U)
    requires
        list@.len() > 0,
    ensures
        r == list@[held_slot(slot as int, list@.len() as int)],
{
    let len = list.len();
    let held: usize = if slot < len { slot } else { len - 1 };
    list[held]
}

/// The palette that a dimension's default list gives: the list itself, or
/// none when it is empty, so that a default never leaves an empty palette.
pub open spec fn default_palette<U>(default: Option<Seq<U>>) -> Option<Seq<U>> {
    match default {
        Some(l) => if l.len() > 0 {
            Some(l)
        } else {
            None
        },
        None => None,
    }
}

/// A gradient-noise engine: a palette (or none), the gradients generated so
/// far, and the seeded stream that new gradients are drawn from.
pub struct NoiseGen<T: GradVector> {
    dim: Dimension,
    vec_list: Option<Vec<T::U>>,
    field: NoiseField<T::U>,
    random: StdRng,
    /// How many gradients have been drawn from the stream.
    draws: Ghost<nat>,
}

impl<T: GradVector> NoiseGen<T> {
    pub closed spec fn spec_dimension(&self) -> Dimension {
        self.dim
    }

    /// The palette in use, or `None` when gradients are synthesized.
    pub closed spec fn spec_palette(&self) -> Option<Seq<T::U>> {
        match self.vec_list {
            Some(v) => Some(v@),
            None => None,
        }
    }

    /// The gradients generated so far, by lattice point.
    pub closed spec fn spec_field(&self) -> Map<LatticePoint, T::U> {
        self.field@
    }

    /// The number of gradients drawn from the stream so far.
    pub closed spec fn spec_draws(&self) -> nat {
        self.draws@
    }

    /// A palette in use is never empty.
    pub open spec fn wf(&self) -> bool {
        match self.spec_palette() {
            Some(l) => l.len() > 0,
            None => true,
        }
    }

    /// An engine over the stream of `seed`, with `vec_list` as its palette
    /// (`None` synthesizes every gradient). An empty palette is refused.
    pub fn new_from_seed_list(seed: u64, vec_list: Option<&Vec<T::U>>) -> (r: Result<Self, PaletteError>)
        ensures
            match vec_list {
                Some(l) => l@.len() == 0 <==> r is Err,
                None => r is Ok,
            },
            r is Err ==> r == Err::<Self, PaletteError>(PaletteError::EmptyPalette),
            r is Ok ==> {
                let g = r->Ok_0;
                &&& g.wf()
                &&& g.spec_field() == Map::<LatticePoint, T::U>::empty()
                &&& g.spec_draws() == 0
                &&& g.spec_palette() == match vec_list {
                    Some(l) => Some(l@),
                    None => None::<Seq<T::U>>,
                }
            },
    {
        let copied: Option<Vec<T::U>> = match vec_list {
            Some(l) => {
                if l.len() == 0 {
                    return Err(PaletteError::EmptyPalette);
                }
                let mut v: Vec<T::U> = Vec::new();
                let mut i: usize = 0;
                while i < l.len()
                    invariant
                        i <= l@.len(),
                        v@ == l@.subrange(0, i as int),
                    decreases l@.len() - i,
                {
                    v.push(l[i]);
                    i = i + 1;
                }
                assert(v@ =~= l@);
                Some(v)
            },
            None => None,
        };
        Ok(NoiseGen {
            dim: T::dimension(),
            vec_list: copied,
            field: NoiseField::new(),
            random: seeded_rng(seed),
            draws: Ghost(0),
        })
    }
    /// An engine of dimension `dim` over the stream of `seed`, whose palette
    /// is the one that the default list `default` gives.
    pub fn with_default(seed: u64, dim: Dimension, default: Option<Vec<T::U>>) -> (r: Self)
        ensures
            r.wf(),
            r.spec_dimension() == dim,
            r.spec_palette() == default_palette(
                match default {
                    Some(l) => Some(l@),
                    None => None::<Seq<T::U>>,
                },
            ),
            r.spec_field() == Map::<LatticePoint, T::U>::empty(),
            r.spec_draws() == 0,
    {
        let vec_list = match default {
            Some(l) => {
                if l.len() == 0 {
                    None
                } else {
                    Some(l)
                }
            },
            None => None,
        };
        NoiseGen { dim, vec_list, field: NoiseField::new(), random: seeded_rng(seed), draws: Ghost(0) }
    }

    /// An engine over the stream of `seed`, with the dimension of `T` and
    /// the palette of its default list (see `with_default`). It always
    /// succeeds: an empty default list leaves the engine without a palette.
    pub fn new_from_seed(seed: u64) -> (r: Self)
        ensures
            r.wf(),
            r.spec_field() == Map::<LatticePoint, T::U>::empty(),
            r.spec_draws() == 0,
    {
        Self::with_default(seed, T::dimension(), T::default_gradient_list())
    }

    /// An engine over a freshly drawn seed, with the dimension's default
    /// palette.
    pub fn new() -> (r: Self)
        ensures
            r.wf(),
            r.spec_field() == Map::<LatticePoint, T::U>::empty(),
            r.spec_draws() == 0,
    {
        let seed: u64 = rand::random::<u64>();
        Self::new_from_seed(seed)
    }

    /// Draws the gradient of a newly visited point: a palette entry when a
    /// palette is set, else a synthesized one. A slot past the end (a float
    /// that rounded up to the length) is held to the last entry.
    fn draw_gradient(&mut self) -> (r: T::U)
        requires
            old(self).wf(),
        ensures
            final(self).wf(),
            final(self).spec_dimension() == old(self).spec_dimension(),
            final(self).spec_palette() == old(self).spec_palette(),
            final(self).spec_field() == old(self).spec_field(),
            final(self).spec_draws() == old(self).spec_draws() + 1,
            match old(self).spec_palette() {
                Some(l) => l.contains(r),
                None => true,
            },
    {
        let r = match &self.vec_list {
            Some(list) => {
                let len = list.len();
                let i = T::palette_slot(&mut self.random, len);
                let g = palette_entry(list, i);
                assert(list@[held_slot(i as int, len as int)] == g);
                g
            },
            None => T::new_normalized(&mut self.random),
        };
        self.draws = Ghost(self.draws@ + 1);
        r
    }

    /// The gradient at `p`: the stored one if `p` was visited, else a new one
    /// drawn from the stream and stored. Only a miss draws.
    pub fn get_vector(&mut self, p: LatticePoint) -> (r: T::U)
        requires
            old(self).wf(),
        ensures
            final(self).wf(),
            final(self).spec_dimension() == old(self).spec_dimension(),
            final(self).spec_palette() == old(self).spec_palette(),
            old(self).spec_field().contains_key(p) ==> {
                &&& r == old(self).spec_field()[p]
                &&& final(self).spec_field() == old(self).spec_field()
                &&& final(self).spec_draws() == old(self).spec_draws()
            },
            !old(self).spec_field().contains_key(p) ==> {
                &&& final(self).spec_field() == old(self).spec_field().insert(p, r)
                &&& final(self).spec_draws() == old(self).spec_draws() + 1
                &&& match old(self).spec_palette() {
                    Some(l) => l.contains(r),
                    None => true,
                }
            },
    {
        match self.field.get(p) {
            Some(g) => g,
            None => {
                let g = self.draw_gradient();
                self.field.insert(p, g);
                g
            },
        }
    }

    /// The gradients at `cs`, in order, drawing one for each point not seen
    /// before.
    fn gradients(&mut self, cs: &Vec<LatticePoint>) -> (r: Vec<T::U>)
        requires
            old(self).wf(),
            cs@.no_duplicates(),
        ensures
            final(self).wf(),
            final(self).spec_dimension() == old(self).spec_dimension(),
            final(self).spec_palette() == old(self).spec_palette(),
            visited_exactly(old(self).spec_field(), final(self).spec_field(), cs@),
            final(self).spec_draws() == old(self).spec_draws() + miss_count(old(self).spec_field(), cs@),
            r@.len() == cs@.len(),
            forall|j: int| 0 <= j < cs@.len() ==> r@[j] == #[trigger] final(self).spec_field()[cs@[j]],
    {
        let ghost start = self.spec_field();
        let ghost draws0 = self.spec_draws();
        let mut r: Vec<T::U> = Vec::new();
        let mut i: usize = 0;
        while i < cs.len()
            invariant
                i <= cs@.len(),
                cs@.no_duplicates(),
                self.wf(),
                self.spec_dimension() == old(self).spec_dimension(),
                self.spec_palette() == old(self).spec_palette(),
                start == old(self).spec_field(),
                draws0 == old(self).spec_draws(),
                visited_exactly(start, self.spec_field(), cs@.subrange(0, i as int)),
                self.spec_draws() == draws0 + miss_count(start, cs@.subrange(0, i as int)),
                r@.len() == i,
                forall|j: int| 0 <= j < i ==> r@[j] == #[trigger] self.spec_field()[cs@[j]],
            decreases cs@.len() - i,
        {
            let p = cs[i];
            let ghost before = self.spec_field();
            proof {
                if !start.contains_key(p) && before.contains_key(p) {
                    let pre = cs@.subrange(0, i as int);
                    assert(pre.contains(p));
                    let k = choose|k: int| 0 <= k < pre.len() && pre[k] == p;
                    assert(cs@[k] == cs@[i as int]);
                }
                assert(before.contains_key(p) == start.contains_key(p));
            }
            let g = self.get_vector(p);
            r.push(g);
            proof {
                let pre = cs@.subrange(0, i as int);
                let next = cs@.subrange(0, i as int + 1);
                assert(next.drop_last() =~= pre);
                assert(next.last() == p);
                assert forall|q: LatticePoint| #[trigger]
                    self.spec_field().contains_key(q) implies start.contains_key(q) || next.contains(q) by {
                    if q != p && !start.contains_key(q) {
                        assert(pre.contains(q));
                        let k = choose|k: int| 0 <= k < pre.len() && pre[k] == q;
                        assert(next[k] == q);
                    }
                    if q == p {
                        assert(next[i as int] == q);
                    }
                }
                assert forall|j: int| 0 <= j < next.len() implies #[trigger] self.spec_field().contains_key(next[j]) by {
                    if j < i {
                        assert(pre[j] == next[j]);
                    }
                }
                assert forall|j: int| 0 <= j <= i implies r@[j] == #[trigger] self.spec_field()[cs@[j]] by {
                    if j < i {
                        assert(pre[j] == cs@[j]);
                        assert(before.contains_key(cs@[j]));
                    }
                }
            }
            i = i + 1;
        }
        assert(cs@.subrange(0, cs@.len() as int) =~= cs@);
        r
    }

    /// The noise value at `punkt`. The gradients of the corners of its cell
    /// are fetched in corner order; a corner not seen before gets a gradient
    /// drawn from the stream, which is then kept for the engine's lifetime.
    pub fn next(&mut self, punkt: T::U) -> (r: T::Noise)
        requires
            old(self).wf(),
        ensures
            final(self).wf(),
            final(self).spec_dimension() == old(self).spec_dimension(),
            final(self).spec_palette() == old(self).spec_palette(),
            exists|bx: i32, by: i32|
                {
                    let cs = #[trigger] corner_seq(old(self).spec_dimension(), bx as int, by as int);
                    &&& cs.len() == old(self).spec_dimension().spec_corner_count()
                    &&& visited_exactly(old(self).spec_field(), final(self).spec_field(), cs)
                    &&& final(self).spec_draws() == old(self).spec_draws() + miss_count(
                        old(self).spec_field(),
                        cs,
                    )
                },
    {
        let (bx, by) = T::cell_base(&punkt);
        let (corners, g_list) = self.cell_gradients(bx, by);
        T::noise_value(&punkt, &corners, &g_list)
    }

    /// The corners of the cell whose truncated base is `(bx, by)`, in blend
    /// order, with the gradient of each: the stored one, or one newly drawn
    /// and stored when the corner was not visited before.
    pub fn cell_gradients(&mut self, bx: i32, by: i32) -> (r: (Vec<LatticePoint>, Vec<T::U>))
        requires
            old(self).wf(),
        ensures
            final(self).wf(),
            final(self).spec_dimension() == old(self).spec_dimension(),
            final(self).spec_palette() == old(self).spec_palette(),
            r.0@ == corner_seq(old(self).spec_dimension(), bx as int, by as int),
            visited_exactly(old(self).spec_field(), final(self).spec_field(), r.0@),
            final(self).spec_draws() == old(self).spec_draws() + miss_count(old(self).spec_field(), r.0@),
            r.1@.len() == r.0@.len(),
            forall|j: int| 0 <= j < r.0@.len() ==> r.1@[j] == #[trigger] final(self).spec_field()[r.0@[j]],
    {
        let corners = self.dim.corners(bx, by);
        proof {
            lemma_corners_distinct(self.dim, bx as int, by as int);
        }
        let g_list = self.gradients(&corners);
        (corners, g_list)
    }

    /// The gradient stored at `p`, if a sample has visited it.
    pub fn gradient_at(&self, p: LatticePoint) -> (r: Option<T::U>)
        ensures
            r == (if self.spec_field().contains_key(p) {
                Some(self.spec_field()[p])
            } else {
                None::<T::U>
            }),
    {
        self.field.get(p)
    }

    /// The shape of the lattice.
    pub fn dimension(&self) -> (r: Dimension)
        ensures
            r == self.spec_dimension(),
    {
        self.dim
    }

    /// Whether gradients are drawn from a palette.
    pub fn uses_palette(&self) -> (r: bool)
        ensures
            r == self.spec_palette() is Some,
    {
        self.vec_list.is_some()
    }

}

} // verus!
