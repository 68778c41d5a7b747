use crate::lattice::LatticePoint;
use std::collections::HashMap;
use vstd::prelude::*;

verus! {

broadcast use vstd::std_specs::hash::group_hash_axioms;

/// Width of the range that a lattice `y` coordinate is shifted into.
pub const KEY_STRIDE: i128 = 0x1_0000_0000_0000_0000;

/// Offset that moves an `i64` into `[0, KEY_STRIDE)`.
pub const KEY_SHIFT: i128 = 0x8000_0000_0000_0000;

/// The integer under which a lattice point is stored: `x` scaled by the
/// stride, plus `y` shifted to be non-negative.
pub open spec fn spec_key(p: LatticePoint) -> int {
    p.x * KEY_STRIDE + (p.y + KEY_SHIFT)
}

/// Distinct lattice points are stored under distinct keys.
pub proof fn lemma_key_injective(p: LatticePoint, q: LatticePoint)
    ensures
        i128::MIN <= spec_key(p) <= i128::MAX,
        spec_key(p) == spec_key(q) <==> p == q,
{
    let a = p.x as int;
    let b = p.y + KEY_SHIFT;
    let c = q.x as int;
    let d = q.y + KEY_SHIFT;
    let m = KEY_STRIDE as int;
    assert(0 <= b < m && 0 <= d < m);
    if a * m + b == c * m + d {
        assert(a == c) by (nonlinear_arith)
            requires
                a * m + b == c * m + d,
                0 <= b < m,
                0 <= d < m,
                m > 0,
        ;
    }
}

fn key_of(p: LatticePoint) -> (k: i128)
    ensures
        k == spec_key(p),
{
    (p.x as i128) * KEY_STRIDE + ((p.y as i128) + KEY_SHIFT)
}

/// The gradients generated so far, one per visited lattice point.
/// Entries are only ever added; none is replaced or removed.
pub struct NoiseField<G> {
    entries: HashMap<i128, G>,
}

impl<G> View for NoiseField<G> {
    type V = Map<LatticePoint, G>;

    closed spec fn view(&self) -> Map<LatticePoint, G> {
        Map::new(
            |p: LatticePoint| self.entries@.contains_key(spec_key(p) as i128),
            |p: LatticePoint| self.entries@[spec_key(p) as i128],
        )
    }
}

/// `later` keeps every entry of `earlier` unchanged.
pub open spec fn field_extends<G>(earlier: Map<LatticePoint, G>, later: Map<LatticePoint, G>) -> bool {
    forall|p: LatticePoint| #[trigger]
        earlier.contains_key(p) ==> later.contains_key(p) && later[p] == earlier[p]
}

/// A gradient stored at a point stays the same in every later state of the
/// field: whatever is queried in between, `later` holds `earlier[p]` at `p`.
pub proof fn lemma_gradient_stable<G>(
    earlier: Map<LatticePoint, G>,
    later: Map<LatticePoint, G>,
    p: LatticePoint,
)
    requires
        field_extends(earlier, later),
        earlier.contains_key(p),
    ensures
        later.contains_key(p),
        later[p] == earlier[p],
{
}

/// Growth of the field composes over a run of queries: a state that extends
/// one that extends `a` extends `a`.
pub proof fn lemma_extends_transitive<G>(
    a: Map<LatticePoint, G>,
    b: Map<LatticePoint, G>,
    c: Map<LatticePoint, G>,
)
    requires
        field_extends(a, b),
        field_extends(b, c),
    ensures
        field_extends(a, c),
{
}

impl<G: Copy> NoiseField<G> {
    /// An empty field.
    pub fn new() -> (r: Self)
        ensures
            r@ == Map::<LatticePoint, G>::empty(),
    {
        let r = NoiseField { entries: HashMap::new() };
        assert(r@ =~= Map::<LatticePoint, G>::empty());
        r
    }

    /// The gradient stored at `p`, if `p` was visited.
    pub fn get(&self, p: LatticePoint) -> (r: Option<G>)
        ensures
            r == (if self@.contains_key(p) { Some(self@[p]) } else { None::<G> }),
    {
        let k = key_of(p);
        match self.entries.get(&k) {
            Some(g) => Some(*g),
            None => None,
        }
    }

    /// Whether `p` was visited.
    pub fn contains(&self, p: LatticePoint) -> (r: bool)
        ensures
            r == self@.contains_key(p),
    {
        let k = key_of(p);
        self.entries.contains_key(&k)
    }

    /// Stores `g` at a point that has no gradient yet.
    pub fn insert(&mut self, p: LatticePoint, g: G)
        requires
            !old(self)@.contains_key(p),
        ensures
            final(self)@ == old(self)@.insert(p, g),
    {
        let k = key_of(p);
        self.entries.insert(k, g);
        proof {
            assert forall|q: LatticePoint| #[trigger] spec_key(q) == spec_key(p) implies q == p by {
                lemma_key_injective(q, p);
            }
            assert forall|q: LatticePoint| #[trigger] (spec_key(q) as i128) == (spec_key(p) as i128) implies q == p by {
                lemma_key_injective(p, q);
                lemma_key_injective(q, p);
            }
        }
        assert(final(self)@ =~= old(self)@.insert(p, g));
    }
}

} // verus!
