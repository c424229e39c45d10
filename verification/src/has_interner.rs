//! Telling, from the type of a value built out of terms, which host the
//! terms belong to.

use std::marker::PhantomData;
use std::sync::Arc;
use vstd::prelude::*;
use crate::interner::Interner;

verus! {

/// A type whose values are built from the terms of one host. Code that is
/// generic over such a type can name the host without being told.
pub trait HasInterner {
    type Interner: Interner;
}

impl<T: HasInterner> HasInterner for [T] {
    type Interner = T::Interner;
}

impl<T: HasInterner> HasInterner for Vec<T> {
    type Interner = T::Interner;
}

impl<T: HasInterner> HasInterner for Box<T> {
    type Interner = T::Interner;
}

impl<T: HasInterner> HasInterner for Arc<T> {
    type Interner = T::Interner;
}

impl<T: HasInterner + ?Sized> HasInterner for &T {
    type Interner = T::Interner;
}

/// A marker says which host it is for and holds nothing.
impl<I: Interner> HasInterner for PhantomData<I> {
    type Interner = I;
}

/// A pair has a host only where both halves have the same one.
impl<A, B, I> HasInterner for (A, B) where
    A: HasInterner<Interner = I>,
    B: HasInterner<Interner = I>,
    I: Interner,
 {
    type Interner = I;
}

impl<'a, T: HasInterner> HasInterner for std::slice::Iter<'a, T> {
    type Interner = T::Interner;
}

} // verus!
