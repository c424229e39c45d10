//! Variables and the small tags that term nodes carry.
//!
//! A bound variable is named by position, never by text: a pair of how many
//! binders lie between the reference and the binder that introduces it, and
//! which of that binder's parameters is meant.

use vstd::prelude::*;

verus! {

/// How many binders to skip, counted from the reference outward. Depth 0 is
/// the innermost binder that encloses the reference.
#[derive(Clone, Copy, Debug, PartialEq, Eq, PartialOrd, Ord, Hash, Structural)]
pub struct DebruijnIndex {
    pub depth: u32,
}

impl DebruijnIndex {
    /// The innermost binder.
    pub fn innermost() -> (d: Self)
        ensures
            d.depth == 0,
    {
        DebruijnIndex { depth: 0 }
    }

    pub fn new(depth: u32) -> (d: Self)
        ensures
            d.depth == depth,
    {
        DebruijnIndex { depth }
    }

    /// Whether a reference at this depth, seen from under `binders` binders,
    /// points at one of them (and not at something outside).
    pub fn within(&self, binders: u32) -> (inside: bool)
        ensures
            inside == (self.depth < binders),
    {
        self.depth < binders
    }
}

/// A reference to a bound variable.
#[derive(Clone, Copy, Debug, PartialEq, Eq, PartialOrd, Ord, Hash, Structural)]
pub struct BoundVar {
    pub debruijn: DebruijnIndex,
    pub index: usize,
}

impl BoundVar {
    pub fn new(debruijn: DebruijnIndex, index: usize) -> (v: Self)
        ensures
            v.debruijn == debruijn,
            v.index == index,
    {
        BoundVar { debruijn, index }
    }

    /// The parameter index, if this variable belongs to the binder that is
    /// `binder` levels out from the reference.
    pub fn index_if_bound_at(&self, binder: DebruijnIndex) -> (found: Option<usize>)
        ensures
            found == (if self.debruijn == binder {
                Some(self.index)
            } else {
                None
            }),
    {
        if self.debruijn.depth == binder.depth {
            Some(self.index)
        } else {
            None
        }
    }
}

/// An ordering tag on placeholders and canonical variables. A variable of
/// universe `u` may only be given a value that names placeholders of
/// universes up to `u`.
#[derive(Clone, Copy, Debug, PartialEq, Eq, PartialOrd, Ord, Hash, Structural)]
pub struct UniverseIndex {
    pub counter: usize,
}

impl UniverseIndex {
    /// The root universe, which everything can see.
    pub fn root() -> (u: Self)
        ensures
            u.counter == 0,
    {
        UniverseIndex { counter: 0 }
    }

    /// Whether a variable of this universe may name what lives in `other`.
    pub fn can_see(&self, other: UniverseIndex) -> (sees: bool)
        ensures
            sees == (self.counter >= other.counter),
    {
        self.counter >= other.counter
    }
}

/// A rigid stand-in for "some type" (or lifetime, or constant), tied to the
/// universe that introduced it.
#[derive(Clone, Copy, Debug, PartialEq, Eq, PartialOrd, Ord, Hash, Structural)]
pub struct PlaceholderIndex {
    pub ui: UniverseIndex,
    pub idx: usize,
}

/// A variable of the inference engine, not yet resolved.
#[derive(Clone, Copy, Debug, PartialEq, Eq, PartialOrd, Ord, Hash, Structural)]
pub struct InferenceVar {
    pub index: u32,
}

#[derive(Clone, Copy, Debug, PartialEq, Eq, PartialOrd, Ord, Hash, Structural)]
pub enum QuantifierKind {
    ForAll,
    Exists,
}

#[derive(Clone, Copy, Debug, PartialEq, Eq, PartialOrd, Ord, Hash, Structural)]
pub enum Mutability {
    Mut,
    Not,
}

#[derive(Clone, Copy, Debug, PartialEq, Eq, PartialOrd, Ord, Hash, Structural)]
pub enum IntTy {
    Isize,
    I8,
    I16,
    I32,
    I64,
    I128,
}

#[derive(Clone, Copy, Debug, PartialEq, Eq, PartialOrd, Ord, Hash, Structural)]
pub enum UintTy {
    Usize,
    U8,
    U16,
    U32,
    U64,
    U128,
}

#[derive(Clone, Copy, Debug, PartialEq, Eq, PartialOrd, Ord, Hash, Structural)]
pub enum FloatTy {
    F32,
    F64,
}

/// The built-in scalar types.
#[derive(Clone, Copy, Debug, PartialEq, Eq, PartialOrd, Ord, Hash, Structural)]
pub enum Scalar {
    Bool,
    Char,
    Int(IntTy),
    Uint(UintTy),
    Float(FloatTy),
}

} // verus!
