use vstd::prelude::*;

verus! {

/// Either exclusive ownership of a value or a borrow of one that someone else
/// owns, read through one surface. An owned value, or one borrowed mutably,
/// can be written to; one borrowed for reading cannot.
pub enum OwnOrRef<'a, T> {
    Owned(Box<T>),
    Ref(&'a T),
    RefMut(&'a mut T),
}

impl<'a, T> OwnOrRef<'a, T> {
    /// The value reached through the cell, whichever variant holds it.
    pub open spec fn view(&self) -> T {
        match self {
            OwnOrRef::Owned(b) => **b,
            OwnOrRef::Ref(r) => **r,
            OwnOrRef::RefMut(r) => **r,
        }
    }

    /// Whether the value can be written to through the cell.
    pub open spec fn writable(&self) -> bool {
        self is Owned || self is RefMut
    }

    /// Takes ownership of `value`; it is dropped with the cell.
    pub fn own(value: T) -> (r: OwnOrRef<'a, T>)
        ensures
            r is Owned,
            r@ == value,
    {
        OwnOrRef::Owned(Box::new(value))
    }

    /// Borrows `value` for `'a`, with no duty to release it.
    pub fn borrow(value: &'a T) -> (r: OwnOrRef<'a, T>)
        ensures
            r is Ref,
            r@ == *value,
    {
        OwnOrRef::Ref(value)
    }

    /// Borrows `value` mutably for `'a`, with no duty to release it.
    pub fn borrow_mut(value: &'a mut T) -> (r: OwnOrRef<'a, T>)
        ensures
            r is RefMut,
            r@ == *old(value),
    {
        OwnOrRef::RefMut(value)
    }

    /// Whether the cell owns its value.
    pub fn is_owned(&self) -> (r: bool)
        ensures
            r == self is Owned,
    {
        match self {
            OwnOrRef::Owned(_) => true,
            OwnOrRef::Ref(_) => false,
            OwnOrRef::RefMut(_) => false,
        }
    }

    /// Whether the value can be written to through the cell.
    pub fn is_writable(&self) -> (r: bool)
        ensures
            r == self.writable(),
    {
        match self {
            OwnOrRef::Owned(_) => true,
            OwnOrRef::Ref(_) => false,
            OwnOrRef::RefMut(_) => true,
        }
    }

    /// A shared view of the value, in either variant.
    pub fn as_ref(&self) -> (r: &T)
        ensures
            *r == self@,
    {
        match self {
            OwnOrRef::Owned(b) => &**b,
            OwnOrRef::Ref(r) => *r,
            OwnOrRef::RefMut(r) => &**r,
        }
    }

    /// A mutable view of the value. Only an owned value or a mutable borrow
    /// can be written to, so a caller must hold one of those.
    pub fn as_mut(&mut self) -> (r: &mut T)
        requires
            old(self).writable(),
        ensures
            *r == old(self)@,
            final(self).writable(),
            (*final(self) is Owned) <==> (*old(self) is Owned),
            final(self)@ == *final(r),
    {
        match self {
            OwnOrRef::Owned(b) => &mut **b,
            OwnOrRef::RefMut(r) => &mut **r,
            OwnOrRef::Ref(_) => unreached(),
        }
    }
}

} // verus!
