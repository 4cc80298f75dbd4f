//! The representation vocabulary: the four shapes every derived
//! representation is built from, the two capabilities that tie a type to its
//! representation and a marker to its compile-time payload, and the primitive
//! leaves, which are their own representation.

use std::marker::PhantomData;
use vstd::prelude::*;

verus! {

/// A bidirectional conversion between a type and its representation.
///
/// Implementations are meant to be derived, not written by hand: the engine
/// in this crate computes them from a description of the type.
pub trait Generic: Sized {
    /// This type's representation, composed of `Unit`, `Prod`, `Sum`, `Meta`
    /// and primitive leaves.
    type Repr;

    /// Converts `self` into its representation.
    fn into_repr(self) -> Self::Repr;

    /// Constructs a value from its representation.
    fn from_repr(repr: Self::Repr) -> Self;
}

/// A zero-sized marker associated with some compile-time data.
///
/// Lets `Meta` carry a name or another constant in its type, so that nothing
/// is carried at run time.
pub trait Singleton {
    /// Type of the associated data.
    type T;

    /// The associated data.
    fn get() -> Self::T;
}

/// The representation of a constructor without arguments, such as a record
/// without fields.
pub struct Unit;

/// The representation of a constructor with two arguments. Records with more
/// fields nest it to the left.
pub struct Prod<A, B>(pub A, pub B);

/// The representation of a choice between two constructors.
pub enum Sum<L, R> {
    Left(L),
    Right(R),
}

/// A representation annotated with a marker that exists at compile time only.
pub struct Meta<I, M>(pub I, pub PhantomData<M>) where M: Singleton;

/// Wrapping a representation in `Meta` and unwrapping it again gives the
/// representation back: the marker holds no data that could change it.
pub proof fn lemma_meta_transparent<I, M: Singleton>(inner: I)
    ensures
        Meta::<I, M>(inner, PhantomData).0 == inner,
        forall|wrapped: Meta<I, M>| wrapped == Meta::<I, M>(wrapped.0, PhantomData),
{
}

/// `u8` is a primitive leaf: it is its own representation, and both
/// conversions are the identity.
impl Generic for u8 {
    type Repr = u8;

    fn into_repr(self) -> (repr: u8)
        ensures
            repr == self,
    {
        self
    }

    fn from_repr(repr: u8) -> (x: u8)
        ensures
            x == repr,
    {
        repr
    }
}

/// `u16` is a primitive leaf: it is its own representation, and both
/// conversions are the identity.
impl Generic for u16 {
    type Repr = u16;

    fn into_repr(self) -> (repr: u16)
        ensures
            repr == self,
    {
        self
    }

    fn from_repr(repr: u16) -> (x: u16)
        ensures
            x == repr,
    {
        repr
    }
}

/// `u32` is a primitive leaf: it is its own representation, and both
/// conversions are the identity.
impl Generic for u32 {
    type Repr = u32;

    fn into_repr(self) -> (repr: u32)
        ensures
            repr == self,
    {
        self
    }

    fn from_repr(repr: u32) -> (x: u32)
        ensures
            x == repr,
    {
        repr
    }
}

/// `u64` is a primitive leaf: it is its own representation, and both
/// conversions are the identity.
impl Generic for u64 {
    type Repr = u64;

    fn into_repr(self) -> (repr: u64)
        ensures
            repr == self,
    {
        self
    }

    fn from_repr(repr: u64) -> (x: u64)
        ensures
            x == repr,
    {
        repr
    }
}

/// `u128` is a primitive leaf: it is its own representation, and both
/// conversions are the identity.
impl Generic for u128 {
    type Repr = u128;

    fn into_repr(self) -> (repr: u128)
        ensures
            repr == self,
    {
        self
    }

    fn from_repr(repr: u128) -> (x: u128)
        ensures
            x == repr,
    {
        repr
    }
}

/// `usize` is a primitive leaf: it is its own representation, and both
/// conversions are the identity.
impl Generic for usize {
    type Repr = usize;

    fn into_repr(self) -> (repr: usize)
        ensures
            repr == self,
    {
        self
    }

    fn from_repr(repr: usize) -> (x: usize)
        ensures
            x == repr,
    {
        repr
    }
}

/// `i8` is a primitive leaf: it is its own representation, and both
/// conversions are the identity.
impl Generic for i8 {
    type Repr = i8;

    fn into_repr(self) -> (repr: i8)
        ensures
            repr == self,
    {
        self
    }

    fn from_repr(repr: i8) -> (x: i8)
        ensures
            x == repr,
    {
        repr
    }
}

/// `i16` is a primitive leaf: it is its own representation, and both
/// conversions are the identity.
impl Generic for i16 {
    type Repr = i16;

    fn into_repr(self) -> (repr: i16)
        ensures
            repr == self,
    {
        self
    }

    fn from_repr(repr: i16) -> (x: i16)
        ensures
            x == repr,
    {
        repr
    }
}

/// `i32` is a primitive leaf: it is its own representation, and both
/// conversions are the identity.
impl Generic for i32 {
    type Repr = i32;

    fn into_repr(self) -> (repr: i32)
        ensures
            repr == self,
    {
        self
    }

    fn from_repr(repr: i32) -> (x: i32)
        ensures
            x == repr,
    {
        repr
    }
}

/// `i64` is a primitive leaf: it is its own representation, and both
/// conversions are the identity.
impl Generic for i64 {
    type Repr = i64;

    fn into_repr(self) -> (repr: i64)
        ensures
            repr == self,
    {
        self
    }

    fn from_repr(repr: i64) -> (x: i64)
        ensures
            x == repr,
    {
        repr
    }
}

/// `i128` is a primitive leaf: it is its own representation, and both
/// conversions are the identity.
impl Generic for i128 {
    type Repr = i128;

    fn into_repr(self) -> (repr: i128)
        ensures
            repr == self,
    {
        self
    }

    fn from_repr(repr: i128) -> (x: i128)
        ensures
            x == repr,
    {
        repr
    }
}

/// `isize` is a primitive leaf: it is its own representation, and both
/// conversions are the identity.
impl Generic for isize {
    type Repr = isize;

    fn into_repr(self) -> (repr: isize)
        ensures
            repr == self,
    {
        self
    }

    fn from_repr(repr: isize) -> (x: isize)
        ensures
            x == repr,
    {
        repr
    }
}

} // verus!
