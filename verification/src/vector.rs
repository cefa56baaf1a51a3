//! The vector type, with its equality, its partial order, its conversions
//! and what holds of them.
//!
//! Two vectors are ordered only where all three pairs of components are
//! ordered the same way. This is no lexicographic order and no order by
//! length: most pairs of vectors are unordered.
use crate::binary32;
use crate::binary32::{equal, is_nan, maximum, minimum, negated, order, scaled};
use core::cmp::Ordering;
use vstd::prelude::*;
use vstd::std_specs::cmp::{PartialEqSpec, PartialOrdSpec};
use vstd::std_specs::convert::FromSpec;
use vstd::std_specs::ops::NegSpec;

verus! {

/// A vector of three single-precision components, each held as its
/// binary32 bit pattern. Any three patterns make a vector: NaNs and
/// infinities are components like the others.
///
/// The type has the size and alignment of three `u32`. It asks for no wider
/// alignment, which would change no result.
#[derive(Clone, Copy, Debug)]
pub struct Vec3(u32, u32, u32);

impl View for Vec3 {
    type V = (u32, u32, u32);

    /// The components' bit patterns, in the order x, y, z.
    closed spec fn view(&self) -> (u32, u32, u32) {
        (self.0, self.1, self.2)
    }
}

/// The vector with the given components.
pub fn vec3(x: u32, y: u32, z: u32) -> (v: Vec3)
    ensures
        v@ == (x, y, z),
{
    Vec3(x, y, z)
}

impl Vec3 {
    /// Whether any component is a NaN.
    pub open spec fn has_nan(self) -> bool {
        is_nan(self@.0) || is_nan(self@.1) || is_nan(self@.2)
    }

    /// The least of the components, passing over NaNs.
    pub open spec fn least(self) -> u32 {
        minimum(self@.0, minimum(self@.1, self@.2))
    }

    /// The greatest of the components, passing over NaNs.
    pub open spec fn greatest(self) -> u32 {
        maximum(self@.0, maximum(self@.1, self@.2))
    }

    /// The vector whose components are all positive zero.
    pub fn zero() -> (v: Vec3)
        ensures
            v@ == (0u32, 0u32, 0u32),
    {
        Vec3(0, 0, 0)
    }

    /// The vector with the given components.
    pub fn new(x: u32, y: u32, z: u32) -> (v: Vec3)
        ensures
            v@ == (x, y, z),
    {
        Vec3(x, y, z)
    }

    /// The vector whose components all equal `v`.
    pub fn splat(v: u32) -> (r: Vec3)
        ensures
            r@ == (v, v, v),
    {
        Vec3(v, v, v)
    }

    /// The first component.
    pub fn get_x(self) -> (x: u32)
        ensures
            x == self@.0,
    {
        self.0
    }

    /// The second component.
    pub fn get_y(self) -> (y: u32)
        ensures
            y == self@.1,
    {
        self.1
    }

    /// The third component.
    pub fn get_z(self) -> (z: u32)
        ensures
            z == self@.2,
    {
        self.2
    }

    /// The component-wise minimum of two vectors.
    pub fn min(self, rhs: Vec3) -> (v: Vec3)
        ensures
            v@ == (minimum(self@.0, rhs@.0), minimum(self@.1, rhs@.1), minimum(self@.2, rhs@.2)),
    {
        Vec3(
            binary32::min(self.0, rhs.0),
            binary32::min(self.1, rhs.1),
            binary32::min(self.2, rhs.2),
        )
    }

    /// The component-wise maximum of two vectors.
    pub fn max(self, rhs: Vec3) -> (v: Vec3)
        ensures
            v@ == (maximum(self@.0, rhs@.0), maximum(self@.1, rhs@.1), maximum(self@.2, rhs@.2)),
    {
        Vec3(
            binary32::max(self.0, rhs.0),
            binary32::max(self.1, rhs.1),
            binary32::max(self.2, rhs.2),
        )
    }

    /// The least of the three components.
    pub fn hmin(self) -> (m: u32)
        ensures
            m == self.least(),
    {
        binary32::min(self.0, binary32::min(self.1, self.2))
    }

    /// The greatest of the three components.
    pub fn hmax(self) -> (m: u32)
        ensures
            m == self.greatest(),
    {
        binary32::max(self.0, binary32::max(self.1, self.2))
    }
}

/// What three component comparisons say of the vectors compared: their
/// common verdict where all three agree, and nothing where they differ or
/// a component is unordered.
pub open spec fn consensus(
    x: Option<Ordering>,
    y: Option<Ordering>,
    z: Option<Ordering>,
) -> Option<Ordering> {
    if x == y && y == z {
        x
    } else {
        None
    }
}

/// Combines the comparisons of the three components into the comparison
/// of the vectors.
pub fn unanimous(
    x: Option<Ordering>,
    y: Option<Ordering>,
    z: Option<Ordering>,
) -> (r: Option<Ordering>)
    ensures
        r == consensus(x, y, z),
{
    match (x, y, z) {
        (Some(Ordering::Greater), Some(Ordering::Greater), Some(Ordering::Greater)) => Some(
            Ordering::Greater,
        ),
        (Some(Ordering::Less), Some(Ordering::Less), Some(Ordering::Less)) => Some(Ordering::Less),
        (Some(Ordering::Equal), Some(Ordering::Equal), Some(Ordering::Equal)) => Some(
            Ordering::Equal,
        ),
        _ => None,
    }
}

impl PartialEq for Vec3 {
    /// Two vectors are equal when each component equals its counterpart
    /// under IEEE 754.
    fn eq(&self, rhs: &Vec3) -> (r: bool) {
        binary32::equals(self.0, rhs.0) && binary32::equals(self.1, rhs.1) && binary32::equals(
            self.2,
            rhs.2,
        )
    }

    /// Two vectors are unequal when some component differs from its
    /// counterpart, or is a NaN.
    fn ne(&self, rhs: &Vec3) -> (r: bool) {
        !binary32::equals(self.0, rhs.0) || !binary32::equals(self.1, rhs.1) || !binary32::equals(
            self.2,
            rhs.2,
        )
    }
}

impl vstd::std_specs::cmp::PartialEqSpecImpl for Vec3 {
    open spec fn obeys_eq_spec() -> bool {
        true
    }

    open spec fn eq_spec(&self, rhs: &Vec3) -> bool {
        equal(self@.0, rhs@.0) && equal(self@.1, rhs@.1) && equal(self@.2, rhs@.2)
    }
}

impl PartialOrd for Vec3 {
    /// One vector is less than another when every component is less than
    /// its counterpart, greater when every component is greater, equal when
    /// every component is equal, and unordered otherwise.
    fn partial_cmp(&self, rhs: &Vec3) -> (r: Option<Ordering>) {
        unanimous(
            binary32::compare(self.0, rhs.0),
            binary32::compare(self.1, rhs.1),
            binary32::compare(self.2, rhs.2),
        )
    }
}

impl vstd::std_specs::cmp::PartialOrdSpecImpl for Vec3 {
    open spec fn obeys_partial_cmp_spec() -> bool {
        true
    }

    open spec fn partial_cmp_spec(&self, rhs: &Vec3) -> Option<Ordering> {
        consensus(order(self@.0, rhs@.0), order(self@.1, rhs@.1), order(self@.2, rhs@.2))
    }
}

impl core::ops::Neg for Vec3 {
    type Output = Vec3;

    /// Flips the sign of every component.
    fn neg(self) -> (v: Vec3)
        ensures
            v@ == (negated(self@.0), negated(self@.1), negated(self@.2)),
    {
        Vec3(binary32::negate(self.0), binary32::negate(self.1), binary32::negate(self.2))
    }
}

impl vstd::std_specs::ops::NegSpecImpl for Vec3 {
    open spec fn obeys_neg_spec() -> bool {
        true
    }

    open spec fn neg_req(self) -> bool {
        true
    }

    closed spec fn neg_spec(self) -> Vec3 {
        Vec3(negated(self.0), negated(self.1), negated(self.2))
    }
}

impl From<(u32, u32, u32)> for Vec3 {
    /// The vector whose components are the tuple's, in order.
    fn from(t: (u32, u32, u32)) -> (v: Vec3)
        ensures
            v@ == t,
    {
        Vec3::new(t.0, t.1, t.2)
    }
}

impl vstd::std_specs::convert::FromSpecImpl<(u32, u32, u32)> for Vec3 {
    open spec fn obeys_from_spec() -> bool {
        true
    }

    closed spec fn from_spec(t: (u32, u32, u32)) -> Vec3 {
        Vec3(t.0, t.1, t.2)
    }
}

impl From<Vec3> for (u32, u32, u32) {
    /// The vector's components, in order.
    fn from(v: Vec3) -> (t: (u32, u32, u32))
        ensures
            t == v@,
    {
        (v.get_x(), v.get_y(), v.get_z())
    }
}

impl vstd::std_specs::convert::FromSpecImpl<Vec3> for (u32, u32, u32) {
    open spec fn obeys_from_spec() -> bool {
        true
    }

    open spec fn from_spec(v: Vec3) -> (u32, u32, u32) {
        v@
    }
}

impl From<[u32; 3]> for Vec3 {
    /// The vector whose components are the array's, in order.
    fn from(a: [u32; 3]) -> (v: Vec3)
        ensures
            v@ == (a[0], a[1], a[2]),
    {
        Vec3::new(a[0], a[1], a[2])
    }
}

impl vstd::std_specs::convert::FromSpecImpl<[u32; 3]> for Vec3 {
    open spec fn obeys_from_spec() -> bool {
        true
    }

    closed spec fn from_spec(a: [u32; 3]) -> Vec3 {
        Vec3(a[0], a[1], a[2])
    }
}

impl From<Vec3> for [u32; 3] {
    /// The vector's components, in order.
    fn from(v: Vec3) -> (a: [u32; 3])
        ensures
            a@ == seq![v@.0, v@.1, v@.2],
    {
        [v.get_x(), v.get_y(), v.get_z()]
    }
}

impl vstd::std_specs::convert::FromSpecImpl<Vec3> for [u32; 3] {
    open spec fn obeys_from_spec() -> bool {
        true
    }

    open spec fn from_spec(v: Vec3) -> [u32; 3] {
        [v@.0, v@.1, v@.2]
    }
}

/// A vector is determined by its components.
pub proof fn lemma_view_determines(a: Vec3, b: Vec3)
    requires
        a@ == b@,
    ensures
        a == b,
{
}

/// A tuple made into a vector and back comes out bit for bit as it went in,
/// and so does a vector made into a tuple and back.
pub proof fn lemma_tuple_round_trip(t: (u32, u32, u32), v: Vec3)
    ensures
        Vec3::from_spec(t)@ == t,
        <(u32, u32, u32)>::from_spec(Vec3::from_spec(t)) == t,
        Vec3::from_spec(<(u32, u32, u32)>::from_spec(v)) == v,
{
}

/// An array made into a vector and back comes out bit for bit as it went in,
/// and so does a vector made into an array and back.
pub proof fn lemma_array_round_trip(a: [u32; 3], v: Vec3)
    ensures
        Vec3::from_spec(a)@ == (a[0], a[1], a[2]),
        <[u32; 3]>::from_spec(Vec3::from_spec(a)) == a,
        Vec3::from_spec(<[u32; 3]>::from_spec(v)) == v,
{
    assert(<[u32; 3]>::from_spec(Vec3::from_spec(a))@ =~= a@);
}

/// A vector equals itself unless one of its components is a NaN, and
/// equality does not depend on the side a vector stands on.
pub proof fn lemma_eq(a: Vec3, b: Vec3)
    ensures
        a.eq_spec(&a) <==> !a.has_nan(),
        a.eq_spec(&b) <==> b.eq_spec(&a),
{
}

/// The comparison of two vectors, case by case: less where all three
/// components are less, greater where all three are greater, equal where
/// the vectors are equal, and unordered in every other case, which
/// includes every one with a NaN component.
pub proof fn lemma_partial_cmp(a: Vec3, b: Vec3)
    ensures
        a.partial_cmp_spec(&b) == Some(Ordering::Less) <==> !a.has_nan() && !b.has_nan() && scaled(
            a@.0,
        ) < scaled(b@.0) && scaled(a@.1) < scaled(b@.1) && scaled(a@.2) < scaled(b@.2),
        a.partial_cmp_spec(&b) == Some(Ordering::Greater) <==> !a.has_nan() && !b.has_nan()
            && scaled(a@.0) > scaled(b@.0) && scaled(a@.1) > scaled(b@.1) && scaled(a@.2) > scaled(
            b@.2,
        ),
        a.partial_cmp_spec(&b) == Some(Ordering::Equal) <==> a.eq_spec(&b),
        a.has_nan() || b.has_nan() ==> a.partial_cmp_spec(&b) is None,
        a.partial_cmp_spec(&b) == Some(Ordering::Less) <==> b.partial_cmp_spec(&a) == Some(
            Ordering::Greater,
        ),
{
}

/// Less-than between vectors is transitive.
pub proof fn lemma_partial_cmp_transitive(a: Vec3, b: Vec3, c: Vec3)
    requires
        a.partial_cmp_spec(&b) == Some(Ordering::Less),
        b.partial_cmp_spec(&c) == Some(Ordering::Less),
    ensures
        a.partial_cmp_spec(&c) == Some(Ordering::Less),
{
}

/// Negating twice gives the vector back, and negation turns the order of
/// two vectors round.
pub proof fn lemma_neg(a: Vec3, b: Vec3)
    ensures
        a.neg_spec()@ == (negated(a@.0), negated(a@.1), negated(a@.2)),
        a.neg_spec().neg_spec() == a,
        a.neg_spec().partial_cmp_spec(&b.neg_spec()) == b.partial_cmp_spec(&a),
{
    binary32::lemma_negated(a@.0);
    binary32::lemma_negated(a@.1);
    binary32::lemma_negated(a@.2);
    binary32::lemma_negated(b@.0);
    binary32::lemma_negated(b@.1);
    binary32::lemma_negated(b@.2);
}

/// The least component is one of the three and a NaN only where all three
/// are; no component that is a number lies below it.
pub proof fn lemma_least(v: Vec3)
    ensures
        v.least() == v@.0 || v.least() == v@.1 || v.least() == v@.2,
        is_nan(v.least()) <==> is_nan(v@.0) && is_nan(v@.1) && is_nan(v@.2),
        !is_nan(v@.0) ==> scaled(v.least()) <= scaled(v@.0),
        !is_nan(v@.1) ==> scaled(v.least()) <= scaled(v@.1),
        !is_nan(v@.2) ==> scaled(v.least()) <= scaled(v@.2),
{
}

/// The greatest component is one of the three and a NaN only where all
/// three are; no component that is a number lies above it.
pub proof fn lemma_greatest(v: Vec3)
    ensures
        v.greatest() == v@.0 || v.greatest() == v@.1 || v.greatest() == v@.2,
        is_nan(v.greatest()) <==> is_nan(v@.0) && is_nan(v@.1) && is_nan(v@.2),
        !is_nan(v@.0) ==> scaled(v.greatest()) >= scaled(v@.0),
        !is_nan(v@.1) ==> scaled(v.greatest()) >= scaled(v@.1),
        !is_nan(v@.2) ==> scaled(v.greatest()) >= scaled(v@.2),
{
}

} // verus!
