//! Where a widget with several children keeps them.

use vstd::prelude::*;
use crate::util::Scoped;
use crate::widgets::Widget;

verus! {

/// A collection of children of one kind, in a fixed order.
pub trait ChildrenStorage {
    type Child: Widget;

    /// The children, in order.
    spec fn children_spec(&self) -> Seq<Self::Child>;

    fn len(&self) -> (r: usize)
        ensures
            r == self.children_spec().len(),
    ;

    /// The child at `index`, or `None` where there are not that many.
    fn child(&self, index: usize) -> (r: Option<Scoped<'_, Self::Child>>)
        ensures
            r is Some <==> index < self.children_spec().len(),
            r matches Some(child) ==> child.value() == self.children_spec()[index as int],
    ;
}

impl<W: Widget> ChildrenStorage for Vec<W> {
    type Child = W;

    open spec fn children_spec(&self) -> Seq<W> {
        self@
    }

    fn len(&self) -> (r: usize) {
        Vec::len(self)
    }

    fn child(&self, index: usize) -> (r: Option<Scoped<'_, W>>) {
        if index < Vec::len(self) {
            Some(Scoped::Ref(&self[index]))
        } else {
            None
        }
    }
}

} // verus!
