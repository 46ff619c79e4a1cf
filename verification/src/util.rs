//! Small helpers: borrowed-or-owned values and a read-only wrapper.

use vstd::prelude::*;

pub use crate::layout::MinMax;

verus! {

/// A value that is either borrowed for a while or owned.
pub enum Scoped<'r, Type: ?Sized> {
    Ref(&'r Type),
    Box(Box<Type>),
}

impl<'r, Type> Scoped<'r, Type> {
    /// The value that is borrowed or owned.
    pub open spec fn value(&self) -> Type {
        match self {
            Scoped::Ref(r) => **r,
            Scoped::Box(b) => **b,
        }
    }

    /// Read access to the value.
    pub fn get(&self) -> (r: &Type)
        ensures
            *r == self.value(),
    {
        match self {
            Scoped::Ref(r) => *r,
            Scoped::Box(b) => &**b,
        }
    }
}

impl<'r, Type> core::ops::Deref for Scoped<'r, Type> {
    type Target = Type;

    fn deref(&self) -> (r: &Type)
        ensures
            *r == self.value(),
    {
        self.get()
    }
}

impl<Inner> core::ops::Deref for Immut<Inner> {
    type Target = Inner;

    fn deref(&self) -> (r: &Inner)
        ensures
            *r == self.inner(),
    {
        &self.inner
    }
}

/// A value that is either borrowed for a while, to be changed, or owned.
pub enum ScopedMut<'r, Type: ?Sized> {
    Ref(&'r mut Type),
    Box(Box<Type>),
}

impl<'r, Type> ScopedMut<'r, Type> {
    /// The value that is borrowed or owned.
    pub open spec fn value(&self) -> Type {
        match self {
            ScopedMut::Ref(r) => **r,
            ScopedMut::Box(b) => **b,
        }
    }

    /// Read access to the value.
    pub fn get(&self) -> (r: &Type)
        ensures
            *r == self.value(),
    {
        match self {
            ScopedMut::Ref(r) => &**r,
            ScopedMut::Box(b) => &**b,
        }
    }
}

impl<'r, Type> core::ops::Deref for ScopedMut<'r, Type> {
    type Target = Type;

    fn deref(&self) -> (r: &Type)
        ensures
            *r == self.value(),
    {
        self.get()
    }
}

/// A value that can only be read.
pub struct Immut<Inner> {
    inner: Inner,
}

impl<Inner> Immut<Inner> {
    /// The value wrapped.
    pub closed spec fn inner(&self) -> Inner {
        self.inner
    }

    pub fn new(inner: Inner) -> (r: Self)
        ensures
            r.inner() == inner,
    {
        Immut { inner }
    }

    /// Read access to the value.
    pub fn get(&self) -> (r: &Inner)
        ensures
            *r == self.inner(),
    {
        &self.inner
    }
}

/// Types that can be made read-only.
pub trait Immutable: Sized {
    /// The value, wrapped so that it can only be read.
    fn immut(self) -> (r: Immut<Self>)
        ensures
            r.inner() == self,
    {
        Immut::new(self)
    }
}

} // verus!
