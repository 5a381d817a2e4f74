//! Opaque real-number carriers.
//!
//! The external solver works on machine real numbers.  This engine never
//! computes on those values: it stores them, copies them, counts them and
//! resets them to zero.  A [`Scalar`] therefore carries a real number as
//! its raw 32-bit encoding, on which equality is exact, and the all-zero
//! encoding stands for the number zero.  Embedders convert between their
//! native real type and [`Scalar`] at the boundary.

use vstd::prelude::*;

verus! {

/// A real number carried as its raw 32-bit encoding.
///
/// The engine treats the encoding as opaque: two scalars are the same
/// number exactly when their encodings are equal, and the all-zero
/// encoding is the number zero.
#[derive(Clone, Copy, Debug, PartialEq, Eq, Structural)]
pub struct Scalar {
    /// The raw 32-bit encoding of the carried number.
    pub bits: u32,
}

impl Scalar {
    /// The number zero.
    pub fn zero() -> (r: Scalar)
        ensures
            r == Scalar::spec_zero(),
    {
        Scalar { bits: 0 }
    }

    /// The number zero, for use in specifications.
    pub open spec fn spec_zero() -> Scalar {
        Scalar { bits: 0 }
    }
}

/// A spatial vector: one [`Scalar`] per axis.
///
/// Two-dimensional embedders leave `z` at zero; the engine itself is
/// dimension-agnostic and never inspects the components.
#[derive(Clone, Copy, Debug, PartialEq, Eq, Structural)]
pub struct Vect {
    /// The first component.
    pub x: Scalar,
    /// The second component.
    pub y: Scalar,
    /// The third component.
    pub z: Scalar,
}

impl Vect {
    /// The zero vector.
    pub fn zero() -> (r: Vect)
        ensures
            r == Vect::spec_zero(),
    {
        Vect { x: Scalar::zero(), y: Scalar::zero(), z: Scalar::zero() }
    }

    /// The zero vector, for use in specifications.
    pub open spec fn spec_zero() -> Vect {
        Vect { x: Scalar::spec_zero(), y: Scalar::spec_zero(), z: Scalar::spec_zero() }
    }
}

/// A sequence of `n` zero vectors: the initial value of every per-particle
/// velocity and acceleration list.
pub open spec fn zero_vects(n: nat) -> Seq<Vect> {
    Seq::new(n, |i: int| Vect::spec_zero())
}

/// Builds a vector of `n` zero vectors.
pub fn make_zero_vects(n: usize) -> (r: Vec<Vect>)
    ensures
        r@ == zero_vects(n as nat),
{
    let mut r: Vec<Vect> = Vec::new();
    let mut i: usize = 0;
    while i < n
        invariant
            i <= n,
            r@ == zero_vects(i as nat),
        decreases n - i,
    {
        r.push(Vect::zero());
        proof {
            assert(r@ =~= zero_vects((i + 1) as nat));
        }
        i = i + 1;
    }
    r
}

/// Copies a vector of spatial vectors.
pub fn copy_vects(v: &Vec<Vect>) -> (r: Vec<Vect>)
    ensures
        r@ == v@,
{
    let mut r: Vec<Vect> = Vec::new();
    let mut i: usize = 0;
    while i < v.len()
        invariant
            i <= v@.len(),
            r@ == v@.subrange(0, i as int),
        decreases v@.len() - i,
    {
        r.push(v[i]);
        proof {
            assert(r@ =~= v@.subrange(0, (i + 1) as int));
        }
        i = i + 1;
    }
    proof {
        assert(r@ =~= v@);
    }
    r
}

} // verus!
