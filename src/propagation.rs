use vstd::prelude::*;

use crate::descriptor::{
    entries_view, lemma_entries_view_len, lemma_entries_view_push, Descriptor, DescriptorView, Entry, EntryView,
    Kind, KindView,
};
use crate::metadata::MetadataKind;

verus! {

broadcast use vstd::std_specs::vec::group_vec_axioms, vstd::seq::group_seq_axioms;

/// The value behind an optional reference.
pub open spec fn deref_option<M>(o: Option<&M>) -> Option<M> {
    match o {
        Some(m) => Some(*m),
        None => None,
    }
}

/// The context a node hands down: the one it was reached with, or `own` at the
/// root of the pass.
pub open spec fn handed<M>(context: Option<M>, own: M) -> M {
    match context {
        Some(c) => c,
        None => own,
    }
}

/// The metadata a container ends with, and its propagated child, when it has
/// metadata `m`, is reached with `context` and wraps `child`.
pub open spec fn propagated_wrapper<M: MetadataKind>(m: M, context: Option<M>, child: DescriptorView<M>) -> (
    M,
    DescriptorView<M>,
)
    decreases child, 1nat,
{
    let forward = m.child_forward(child.metadata);
    let inner = propagated(child, Some(handed(context, forward)));
    (forward.child_backward(inner.metadata), inner)
}

/// The descriptor tree after one propagation pass entered with `context`
/// (`None` at the root of the pass).
///
/// A struct keeps its own metadata and hands each field the context it was
/// reached with (its own metadata at the root); each field merges that
/// context with its type's metadata before its type is visited (forward),
/// hands the result to its type as context, and merges again after (backward).
/// A container merges its own metadata with its wrapped descriptor's before
/// and after visiting it, and hands it the context it was reached with (its
/// own merged metadata at the root), so that a context passes through it
/// unchanged. A mapping visits key then value going down and merges key then
/// value coming back, so the value has the last word. Enums and leaves are
/// left as they are.
pub open spec fn propagated<M: MetadataKind>(d: DescriptorView<M>, context: Option<M>) -> DescriptorView<M>
    decreases d, 0nat,
{
    match d.kind {
        KindView::Struct { name, children } => DescriptorView {
            kind: KindView::Struct {
                name,
                children: propagated_entries(children, handed(context, d.metadata)),
            },
            ..d
        },
        KindView::Aliased { name, kind } => {
            let (m2, inner) = propagated_wrapper(d.metadata, context, *kind);
            DescriptorView {
                docs: d.docs,
                metadata: m2,
                kind: KindView::Aliased { name, kind: Box::new(inner) },
            }
        },
        KindView::Sequence(kind) => {
            let (m2, inner) = propagated_wrapper(d.metadata, context, *kind);
            DescriptorView { docs: d.docs, metadata: m2, kind: KindView::Sequence(Box::new(inner)) }
        },
        KindView::Option(kind) => {
            let (m2, inner) = propagated_wrapper(d.metadata, context, *kind);
            DescriptorView { docs: d.docs, metadata: m2, kind: KindView::Option(Box::new(inner)) }
        },
        KindView::Mapping(key, value) => {
            let forward = d.metadata.child_forward(key.metadata).child_forward(value.metadata);
            let k = propagated(*key, Some(handed(context, forward)));
            let v = propagated(*value, Some(handed(context, forward)));
            DescriptorView {
                docs: d.docs,
                metadata: forward.child_backward(k.metadata).child_backward(v.metadata),
                kind: KindView::Mapping(Box::new(k), Box::new(v)),
            }
        },
        _ => d,
    }
}

/// The fields of a struct after propagation with `context`.
pub open spec fn propagated_entries<M: MetadataKind>(s: Seq<EntryView<M>>, context: M) -> Seq<
    EntryView<M>,
>
    decreases s,
{
    if s.len() == 0 {
        Seq::empty()
    } else {
        propagated_entries(s.drop_last(), context).push(propagated_entry(s.last(), context))
    }
}

/// One field after propagation: forward merge, the field's type, backward merge.
pub open spec fn propagated_entry<M: MetadataKind>(e: EntryView<M>, context: M) -> EntryView<M>
    decreases e,
{
    let forward = e.metadata.entry_forward(context, e.type_info.metadata);
    let inner = propagated(e.type_info, Some(forward));
    EntryView {
        metadata: forward.entry_backward(context, inner.metadata),
        type_info: inner,
        ..e
    }
}

fn propagate_child<M: MetadataKind>(
    metadata: &mut M,
    context: Option<&M>,
    child: Descriptor<M>,
) -> (r: Descriptor<M>)
    ensures
        (*final(metadata), r@) == propagated_wrapper(*old(metadata), deref_option(context), child@),
    decreases child, 1nat,
{
    metadata.forward_propagate_child_defaults(&child.metadata);
    let inner = match context {
        Some(c) => propagate_owned(child, Some(c)),
        None => propagate_owned(child, Some(&*metadata)),
    };
    metadata.backward_propagate_child_defaults(&inner.metadata);
    inner
}

fn propagate_entry<M: MetadataKind>(entry: Entry<M>, context: &M) -> (r: Entry<M>)
    ensures
        r@ == propagated_entry(entry@, *context),
    decreases entry,
{
    let Entry { label, docs, metadata, type_info, has_default, aliases } = entry;
    let mut metadata = metadata;
    metadata.forward_propagate_entry_defaults(context, &type_info.metadata);
    let type_info = propagate_owned(type_info, Some(&metadata));
    metadata.backward_propagate_entry_defaults(context, &type_info.metadata);
    Entry { label, docs, metadata, type_info, has_default, aliases }
}

fn propagate_entries<M: MetadataKind>(children: Vec<Entry<M>>, context: &M) -> (r: Vec<Entry<M>>)
    ensures
        entries_view(r@) == propagated_entries(entries_view(children@), *context),
    decreases children,
{
    let ghost all = children@;
    assert(all.len() == children.len());
    let mut rest = children;
    let mut out: Vec<Entry<M>> = Vec::new();
    let mut i: usize = 0;
    while rest.len() > 0
        invariant
            i <= all.len() <= usize::MAX,
            rest@ == all.skip(i as int),
            entries_view(out@) == propagated_entries(entries_view(all.take(i as int)), *context),
            decreases_to!(children => all),
        decreases rest.len(),
    {
        let child = rest.remove(0);
        assert(child == all[i as int]);
        proof {
            assert(decreases_to!(children => child));
        }
        let done = propagate_entry(child, context);
        proof {
            lemma_entries_view_push(all.take(i as int), child);
            assert(all.take(i as int).push(child) == all.take(i + 1));
            lemma_entries_view_push(out@, done);
            lemma_entries_view_len(all.take(i + 1));
            let s = entries_view(all.take(i + 1));
            assert(s.drop_last() == entries_view(all.take(i as int)));
        }
        out.push(done);
        i = i + 1;
    }
    assert(all.take(all.len() as int) == all);
    out
}

fn propagate_owned<M: MetadataKind>(d: Descriptor<M>, context: Option<&M>) -> (r: Descriptor<M>)
    ensures
        r@ == propagated(d@, deref_option(context)),
    decreases d, 0nat,
{
    let Descriptor { docs, metadata, kind } = d;
    let mut metadata = metadata;
    let kind = match kind {
        Kind::Struct { name, children } => {
            let children = match context {
                Some(c) => propagate_entries(children, c),
                None => propagate_entries(children, &metadata),
            };
            Kind::Struct { name, children }
        },
        Kind::Aliased { name, kind } => {
            let inner = propagate_child(&mut metadata, context, *kind);
            Kind::Aliased { name, kind: Box::new(inner) }
        },
        Kind::Sequence(kind) => {
            let inner = propagate_child(&mut metadata, context, *kind);
            Kind::Sequence(Box::new(inner))
        },
        Kind::Option(kind) => {
            let inner = propagate_child(&mut metadata, context, *kind);
            Kind::Option(Box::new(inner))
        },
        Kind::Mapping(key, value) => {
            metadata.forward_propagate_child_defaults(&key.metadata);
            metadata.forward_propagate_child_defaults(&value.metadata);
            let (key, value) = match context {
                Some(c) => (propagate_owned(*key, Some(c)), propagate_owned(*value, Some(c))),
                None => (
                    propagate_owned(*key, Some(&metadata)),
                    propagate_owned(*value, Some(&metadata)),
                ),
            };
            metadata.backward_propagate_child_defaults(&key.metadata);
            metadata.backward_propagate_child_defaults(&value.metadata);
            Kind::Mapping(Box::new(key), Box::new(value))
        },
        other => other,
    };
    Descriptor { docs, metadata, kind }
}

impl<M: MetadataKind> Descriptor<M> {
    /// Run one propagation pass over this tree, entered with `context`
    /// (`None` at the root of a type's own description).
    pub fn propagate(&mut self, context: Option<&M>)
        ensures
            final(self)@ == propagated(old(self)@, deref_option(context)),
    {
        let mut taken = Descriptor { docs: None, metadata: M::default(), kind: Kind::Any };
        core::mem::swap(self, &mut taken);
        *self = propagate_owned(taken, context);
    }
}

} // verus!
