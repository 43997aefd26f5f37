//! The index of one of the sixteen channels of the multiplexer.

use core::cmp::Ordering;
use core::convert::TryFrom;
use vstd::prelude::*;
use vstd::std_specs::cmp::PartialOrdSpec;
use vstd::std_specs::convert::{FromSpec, TryFromSpec};

verus! {

/// An unsigned four-bit integer: a value in `0..=15`.
///
/// The range is an invariant of the type, so an index out of range cannot be held.
#[derive(Clone, Copy, Debug, PartialEq, Eq, Structural, Ord)]
pub struct U4(u16);

impl View for U4 {
    type V = nat;

    closed spec fn view(&self) -> nat {
        self.0 as nat
    }
}

impl U4 {
    #[verifier::type_invariant]
    spec fn in_range(self) -> bool {
        self.0 <= 15
    }

    /// The largest index, fifteen.
    pub fn max() -> (r: U4)
        ensures
            r@ == 15,
    {
        U4(15)
    }

    /// The index 0.
    pub fn zero() -> (r: U4)
        ensures
            r@ == 0,
    {
        U4(0)
    }

    /// The index 1.
    pub fn one() -> (r: U4)
        ensures
            r@ == 1,
    {
        U4(1)
    }

    /// The index 2.
    pub fn two() -> (r: U4)
        ensures
            r@ == 2,
    {
        U4(2)
    }

    /// The index 3.
    pub fn three() -> (r: U4)
        ensures
            r@ == 3,
    {
        U4(3)
    }

    /// The index 4.
    pub fn four() -> (r: U4)
        ensures
            r@ == 4,
    {
        U4(4)
    }

    /// The index 5.
    pub fn five() -> (r: U4)
        ensures
            r@ == 5,
    {
        U4(5)
    }

    /// The index 6.
    pub fn six() -> (r: U4)
        ensures
            r@ == 6,
    {
        U4(6)
    }

    /// The index 7.
    pub fn seven() -> (r: U4)
        ensures
            r@ == 7,
    {
        U4(7)
    }

    /// The index 8.
    pub fn eight() -> (r: U4)
        ensures
            r@ == 8,
    {
        U4(8)
    }

    /// The index 9.
    pub fn nine() -> (r: U4)
        ensures
            r@ == 9,
    {
        U4(9)
    }

    /// The index 10.
    pub fn ten() -> (r: U4)
        ensures
            r@ == 10,
    {
        U4(10)
    }

    /// The index 11.
    pub fn eleven() -> (r: U4)
        ensures
            r@ == 11,
    {
        U4(11)
    }

    /// The index 12.
    pub fn twelve() -> (r: U4)
        ensures
            r@ == 12,
    {
        U4(12)
    }

    /// The index 13.
    pub fn thirteen() -> (r: U4)
        ensures
            r@ == 13,
    {
        U4(13)
    }

    /// The index 14.
    pub fn fourteen() -> (r: U4)
        ensures
            r@ == 14,
    {
        U4(14)
    }

    /// The index 15.
    pub fn fifteen() -> (r: U4)
        ensures
            r@ == 15,
    {
        U4(15)
    }

    /// Reduces any integer into range by wrapping around modulo sixteen,
    /// that is, keeps its low four bits: `16` gives `0` and `20` gives `4`.
    pub fn truncated(val: u16) -> (r: U4)
        ensures
            r@ == val as nat % 16,
            r@ <= 15,
    {
        U4(val % 16)
    }
}

impl From<U4> for u16 {
    fn from(u4: U4) -> (r: u16)
        ensures
            r as nat == u4@,
            r <= 15,
    {
        proof {
            use_type_invariant(&u4);
        }
        u4.0
    }
}

impl vstd::std_specs::convert::FromSpecImpl<U4> for u16 {
    open spec fn obeys_from_spec() -> bool {
        true
    }

    open spec fn from_spec(v: U4) -> u16 {
        v@ as u16
    }
}

impl TryFrom<u16> for U4 {
    type Error = ();

    /// Accepts exactly the values in `0..=15`.
    fn try_from(val: u16) -> (r: Result<U4, ()>)
        ensures
            r is Ok <==> val <= 15,
            r matches Ok(c) ==> c@ == val as nat,
    {
        if val <= 15 {
            Ok(U4(val))
        } else {
            Err(())
        }
    }
}

impl vstd::std_specs::convert::TryFromSpecImpl<u16> for U4 {
    open spec fn obeys_try_from_spec() -> bool {
        true
    }

    closed spec fn try_from_spec(v: u16) -> Result<U4, ()> {
        if v <= 15 {
            Ok(U4(v))
        } else {
            Err(())
        }
    }
}

/// The ordering of two indices as values, `Less`, `Equal` or `Greater`.
pub open spec fn order_of(a: nat, b: nat) -> Ordering {
    if a < b {
        Ordering::Less
    } else if a == b {
        Ordering::Equal
    } else {
        Ordering::Greater
    }
}

impl PartialOrd for U4 {
    fn partial_cmp(&self, other: &U4) -> (r: Option<Ordering>)
        ensures
            r == Some(order_of(self@, other@)),
    {
        if self.0 < other.0 {
            Some(Ordering::Less)
        } else if self.0 == other.0 {
            Some(Ordering::Equal)
        } else {
            Some(Ordering::Greater)
        }
    }
}

impl vstd::std_specs::cmp::PartialOrdSpecImpl for U4 {
    open spec fn obeys_partial_cmp_spec() -> bool {
        true
    }

    open spec fn partial_cmp_spec(&self, other: &U4) -> Option<Ordering> {
        Some(order_of(self@, other@))
    }
}

/// An integer in `0..=15` is accepted as an index, and that index converts back
/// to the same integer.
pub proof fn lemma_validated_round_trip(v: u16)
    requires
        v <= 15,
    ensures
        <U4 as TryFromSpec<u16>>::try_from_spec(v) matches Ok(c) && <u16 as FromSpec<
            U4,
        >>::from_spec(c) == v,
{
}

/// An integer above fifteen is rejected as an index.
pub proof fn lemma_validated_rejects(v: u16)
    requires
        v > 15,
    ensures
        <U4 as TryFromSpec<u16>>::try_from_spec(v) == Err::<U4, ()>(()),
{
}

/// Two indices are equal exactly when their integer values are, and they are
/// ordered as their integer values are.
pub proof fn lemma_order_follows_value(a: U4, b: U4)
    ensures
        (a == b) <==> (<u16 as FromSpec<U4>>::from_spec(a) == <u16 as FromSpec<U4>>::from_spec(b)),
        a.partial_cmp_spec(&b) == Some(Ordering::Less) <==> <u16 as FromSpec<U4>>::from_spec(a)
            < <u16 as FromSpec<U4>>::from_spec(b),
        a.partial_cmp_spec(&b) == Some(Ordering::Equal) <==> <u16 as FromSpec<U4>>::from_spec(a)
            == <u16 as FromSpec<U4>>::from_spec(b),
        a.partial_cmp_spec(&b) == Some(Ordering::Greater) <==> <u16 as FromSpec<U4>>::from_spec(a)
            > <u16 as FromSpec<U4>>::from_spec(b),
{
}

} // verus!
