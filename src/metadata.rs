use vstd::prelude::*;

verus! {

/// Metadata attached to each node of a description tree, with the hooks that
/// merge values between neighbouring nodes during propagation.
///
/// Each hook states, through a spec function of the same trait, the value it
/// leaves behind; by default that value is `self` unchanged.
pub trait MetadataKind: Default + Sized {
    /// What `forward_propagate_entry_defaults` leaves in `self`.
    open spec fn entry_forward(self, context: Self, kind: Self) -> Self {
        self
    }

    /// What `backward_propagate_entry_defaults` leaves in `self`.
    open spec fn entry_backward(self, context: Self, kind: Self) -> Self {
        self
    }

    /// What `forward_propagate_child_defaults` leaves in `self`.
    open spec fn child_forward(self, kind: Self) -> Self {
        self
    }

    /// What `backward_propagate_child_defaults` leaves in `self`.
    open spec fn child_backward(self, kind: Self) -> Self {
        self
    }

    /// Update metadata values on an entry based on the outer context and inner
    /// type data, before the inner type is visited.
    fn forward_propagate_entry_defaults(&mut self, context: &Self, kind: &Self)
        ensures
            *final(self) == old(self).entry_forward(*context, *kind),
    ;

    /// Update metadata values on an entry based on the outer context and inner
    /// type data, after the inner type has been visited.
    fn backward_propagate_entry_defaults(&mut self, context: &Self, kind: &Self)
        ensures
            *final(self) == old(self).entry_backward(*context, *kind),
    ;

    /// Update metadata values on a container type based on its child type,
    /// before the child is visited.
    fn forward_propagate_child_defaults(&mut self, kind: &Self)
        ensures
            *final(self) == old(self).child_forward(*kind),
    ;

    /// Update metadata values on a container type based on its child type,
    /// after the child has been visited.
    fn backward_propagate_child_defaults(&mut self, kind: &Self)
        ensures
            *final(self) == old(self).child_backward(*kind),
    ;
}

impl<K, V> MetadataKind for std::collections::HashMap<K, V> {
    open spec fn entry_forward(self, context: Self, kind: Self) -> Self {
        self
    }

    open spec fn entry_backward(self, context: Self, kind: Self) -> Self {
        self
    }

    open spec fn child_forward(self, kind: Self) -> Self {
        self
    }

    open spec fn child_backward(self, kind: Self) -> Self {
        self
    }

    fn forward_propagate_entry_defaults(&mut self, context: &Self, kind: &Self) {
    }

    fn backward_propagate_entry_defaults(&mut self, context: &Self, kind: &Self) {
    }

    fn forward_propagate_child_defaults(&mut self, kind: &Self) {
    }

    fn backward_propagate_child_defaults(&mut self, kind: &Self) {
    }
}

impl<V> MetadataKind for Vec<V> {
    open spec fn entry_forward(self, context: Self, kind: Self) -> Self {
        self
    }

    open spec fn entry_backward(self, context: Self, kind: Self) -> Self {
        self
    }

    open spec fn child_forward(self, kind: Self) -> Self {
        self
    }

    open spec fn child_backward(self, kind: Self) -> Self {
        self
    }

    fn forward_propagate_entry_defaults(&mut self, context: &Self, kind: &Self) {
    }

    fn backward_propagate_entry_defaults(&mut self, context: &Self, kind: &Self) {
    }

    fn forward_propagate_child_defaults(&mut self, kind: &Self) {
    }

    fn backward_propagate_child_defaults(&mut self, kind: &Self) {
    }
}

/// A single optional flag that a field inherits from the type that holds it
/// unless the field sets it itself: the typical "index this field" marker.
///
/// Every forward hook fills an unset flag, preferring the value closest to
/// the field; the backward hooks fill a flag still unset from the type below.
#[derive(Debug, Clone, Copy, PartialEq, Eq)]
pub struct IndexFlag {
    /// `None` when neither the node nor anything it inherits from sets it.
    pub index: Option<bool>,
}

/// The first set value of the two.
pub open spec fn or_else(a: Option<bool>, b: Option<bool>) -> Option<bool> {
    match a {
        Some(x) => Some(x),
        None => b,
    }
}

fn first_set(a: Option<bool>, b: Option<bool>) -> (r: Option<bool>)
    ensures
        r == or_else(a, b),
{
    match a {
        Some(x) => Some(x),
        None => b,
    }
}

impl Default for IndexFlag {
    fn default() -> (r: Self)
        ensures
            r.index is None,
    {
        IndexFlag { index: None }
    }
}

impl MetadataKind for IndexFlag {
    open spec fn entry_forward(self, context: Self, kind: Self) -> Self {
        IndexFlag { index: or_else(or_else(self.index, kind.index), context.index) }
    }

    open spec fn entry_backward(self, context: Self, kind: Self) -> Self {
        IndexFlag { index: or_else(self.index, kind.index) }
    }

    open spec fn child_forward(self, kind: Self) -> Self {
        IndexFlag { index: or_else(self.index, kind.index) }
    }

    open spec fn child_backward(self, kind: Self) -> Self {
        IndexFlag { index: or_else(self.index, kind.index) }
    }

    fn forward_propagate_entry_defaults(&mut self, context: &Self, kind: &Self) {
        self.index = first_set(first_set(self.index, kind.index), context.index);
    }

    fn backward_propagate_entry_defaults(&mut self, context: &Self, kind: &Self) {
        self.index = first_set(self.index, kind.index);
    }

    fn forward_propagate_child_defaults(&mut self, kind: &Self) {
        self.index = first_set(self.index, kind.index);
    }

    fn backward_propagate_child_defaults(&mut self, kind: &Self) {
        self.index = first_set(self.index, kind.index);
    }
}

} // verus!
