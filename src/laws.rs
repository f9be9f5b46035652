use vstd::prelude::*;

use crate::builder::{
    aliased_description, enum_description, field_entry, fields_view, label_of, outer_name,
    struct_description, FieldDecl, TypeDecl, VariantDecl,
};
use crate::case::{case_converted, CasePolicy};
use crate::descriptor::{docs_view, strs_view, DescriptorView, EntryView, KindView};
use crate::metadata::{or_else, IndexFlag, MetadataKind};
use crate::propagation::{
    handed, propagated, propagated_entries, propagated_entry, propagated_wrapper,
};

verus! {

broadcast use vstd::seq::group_seq_axioms;

/// Propagation maps a struct's fields one by one.
proof fn lemma_propagated_entries_index<M: MetadataKind>(s: Seq<EntryView<M>>, c: M)
    ensures
        propagated_entries(s, c).len() == s.len(),
        forall|i: int|
            0 <= i < s.len() ==> #[trigger] propagated_entries(s, c)[i] == propagated_entry(
                s[i],
                c,
            ),
    decreases s.len(),
{
    if s.len() > 0 {
        lemma_propagated_entries_index(s.drop_last(), c);
    }
}

/// Without flattened fields, each field stands for exactly one child.
proof fn lemma_fields_view_index<M: MetadataKind>(
    fs: Seq<FieldDecl<M>>,
    case: Option<CasePolicy>,
    default_all: bool,
)
    requires
        forall|i: int| 0 <= i < fs.len() ==> !(#[trigger] fs[i]).flatten,
    ensures
        fields_view(fs, case, default_all).len() == fs.len(),
        forall|i: int|
            0 <= i < fs.len() ==> #[trigger] fields_view(fs, case, default_all)[i] == field_entry(
                fs[i],
                case,
                default_all,
            ),
    decreases fs.len(),
{
    if fs.len() > 0 {
        let init = fs.drop_last();
        assert forall|i: int| 0 <= i < init.len() implies !(#[trigger] init[i]).flatten by {
            assert(init[i] == fs[i]);
        }
        lemma_fields_view_index(init, case, default_all);
        assert(!fs[fs.len() - 1].flatten);
    }
}

/// The children of a struct whose fields are not flattened: field `i` becomes
/// child `i`, propagated with the container's metadata.
proof fn lemma_plain_children<M: MetadataKind>(decl: TypeDecl<M>, fs: Seq<FieldDecl<M>>)
    requires
        forall|i: int| 0 <= i < fs.len() ==> !(#[trigger] fs[i]).flatten,
    ensures
        struct_description(decl, fs).kind is Struct,
        struct_description(decl, fs).kind->Struct_name == outer_name(decl),
        struct_description(decl, fs).kind->Struct_children.len() == fs.len(),
        forall|i: int|
            0 <= i < fs.len() ==> #[trigger] struct_description(decl, fs).kind->Struct_children[i]
                == propagated_entry(field_entry(fs[i], decl.rename_all, decl.default), decl.metadata),
{
    lemma_fields_view_index(fs, decl.rename_all, decl.default);
    lemma_propagated_entries_index(fields_view(fs, decl.rename_all, decl.default), decl.metadata);
}

/// A struct whose fields are neither renamed nor flattened, in a container
/// without a case policy, describes as a struct under its declared (or
/// renamed) name with one child per field, in order, each labelled with its
/// field's identifier.
pub proof fn lemma_plain_struct<M: MetadataKind>(decl: TypeDecl<M>, fs: Seq<FieldDecl<M>>)
    requires
        decl.rename_all is None,
        forall|i: int| 0 <= i < fs.len() ==> !(#[trigger] fs[i]).flatten && fs[i].rename is None,
    ensures
        struct_description(decl, fs).kind is Struct,
        struct_description(decl, fs).kind->Struct_name == outer_name(decl),
        struct_description(decl, fs).kind->Struct_children.len() == fs.len(),
        forall|i: int|
            0 <= i < fs.len() ==> (#[trigger] struct_description(decl, fs).kind->Struct_children[i]).label
                == fs[i].ident@,
{
    lemma_plain_children(decl, fs);
}

/// Every field's alias list starts with its label and goes on with its alias
/// directives in declaration order; with no directive it is the label alone.
pub proof fn lemma_field_aliases<M: MetadataKind>(decl: TypeDecl<M>, fs: Seq<FieldDecl<M>>)
    requires
        forall|i: int| 0 <= i < fs.len() ==> !(#[trigger] fs[i]).flatten,
    ensures
        forall|i: int|
            0 <= i < fs.len() ==> {
                let e = #[trigger] struct_description(decl, fs).kind->Struct_children[i];
                &&& e.aliases == seq![e.label] + strs_view(fs[i].aliases@)
                &&& e.aliases.len() == 1 + fs[i].aliases@.len()
                &&& e.aliases[0] == e.label
            },
{
    lemma_plain_children(decl, fs);
}

/// Every variant's alias list starts with its label and goes on with its
/// alias directives in declaration order.
pub proof fn lemma_variant_aliases<M>(
    decl: TypeDecl<M>,
    vs: Seq<VariantDecl<M>>,
    fallbacks: Seq<Seq<char>>,
)
    ensures
        forall|i: int|
            0 <= i < vs.len() ==> {
                let v = #[trigger] enum_description(decl, vs, fallbacks).kind->Enum_variants[i];
                &&& v.aliases == seq![v.label] + strs_view(vs[i].aliases@)
                &&& v.aliases[0] == v.label
            },
{
}

/// Under a container case policy, every field without a rename is labelled
/// with its identifier converted to that policy, and a renamed field keeps its
/// rename.
pub proof fn lemma_field_case_policy<M: MetadataKind>(
    decl: TypeDecl<M>,
    fs: Seq<FieldDecl<M>>,
    policy: CasePolicy,
)
    requires
        decl.rename_all == Some(policy),
        forall|i: int| 0 <= i < fs.len() ==> !(#[trigger] fs[i]).flatten,
    ensures
        forall|i: int|
            0 <= i < fs.len() ==> (#[trigger] struct_description(decl, fs).kind->Struct_children[i]).label
                == match fs[i].rename {
                Some(r) => r@,
                None => case_converted(fs[i].ident@, policy),
            },
{
    lemma_plain_children(decl, fs);
}

/// Under a container case policy, every variant without a rename is labelled
/// with its identifier converted to that policy, whatever its fallback label.
pub proof fn lemma_variant_case_policy<M>(
    decl: TypeDecl<M>,
    vs: Seq<VariantDecl<M>>,
    fallbacks: Seq<Seq<char>>,
    policy: CasePolicy,
)
    requires
        decl.rename_all == Some(policy),
    ensures
        forall|i: int|
            0 <= i < vs.len() ==> (#[trigger] enum_description(decl, vs, fallbacks).kind->Enum_variants[i]).label
                == match vs[i].rename {
                Some(r) => r@,
                None => case_converted(vs[i].ident@, policy),
            },
{
}

/// Metadata whose hooks all leave it unchanged.
pub open spec fn merges_nothing<M: MetadataKind>() -> bool {
    &&& forall|a: M, b: M, c: M| #[trigger] a.entry_forward(b, c) == a
    &&& forall|a: M, b: M, c: M| #[trigger] a.entry_backward(b, c) == a
    &&& forall|a: M, b: M| #[trigger] a.child_forward(b) == a
    &&& forall|a: M, b: M| #[trigger] a.child_backward(b) == a
}

/// Key/value metadata merges nothing.
pub proof fn lemma_map_metadata_merges_nothing<K, V>()
    ensures
        merges_nothing::<std::collections::HashMap<K, V>>(),
        merges_nothing::<Vec<V>>(),
{
}

/// With metadata that merges nothing, propagation leaves every tree as it is.
pub proof fn lemma_propagation_keeps<M: MetadataKind>(d: DescriptorView<M>, context: Option<M>)
    requires
        merges_nothing::<M>(),
    ensures
        propagated(d, context) == d,
    decreases d, 0nat,
{
    match d.kind {
        KindView::Struct { name, children } => {
            lemma_propagation_keeps_entries(children, handed(context, d.metadata));
            assert(propagated(d, context) == DescriptorView {
                kind: KindView::Struct {
                    name,
                    children: propagated_entries(children, handed(context, d.metadata)),
                },
                ..d
            });
        },
        KindView::Aliased { name, kind } => {
            lemma_wrapper_keeps(d.metadata, context, *kind);
        },
        KindView::Sequence(kind) => {
            lemma_wrapper_keeps(d.metadata, context, *kind);
        },
        KindView::Option(kind) => {
            lemma_wrapper_keeps(d.metadata, context, *kind);
        },
        KindView::Mapping(key, value) => {
            let forward = d.metadata.child_forward(key.metadata).child_forward(value.metadata);
            lemma_propagation_keeps(*key, Some(handed(context, forward)));
            lemma_propagation_keeps(*value, Some(handed(context, forward)));
        },
        _ => {},
    }
}

proof fn lemma_wrapper_keeps<M: MetadataKind>(m: M, context: Option<M>, child: DescriptorView<M>)
    requires
        merges_nothing::<M>(),
    ensures
        propagated_wrapper(m, context, child) == (m, child),
    decreases child, 1nat,
{
    let forward = m.child_forward(child.metadata);
    lemma_propagation_keeps(child, Some(handed(context, forward)));
    assert(propagated_wrapper(m, context, child) == (
        forward.child_backward(propagated(child, Some(handed(context, forward))).metadata),
        propagated(child, Some(handed(context, forward))),
    ));
}

proof fn lemma_propagation_keeps_entries<M: MetadataKind>(s: Seq<EntryView<M>>, c: M)
    requires
        merges_nothing::<M>(),
    ensures
        propagated_entries(s, c) == s,
    decreases s,
{
    if s.len() > 0 {
        lemma_propagation_keeps_entries(s.drop_last(), c);
        let e = s.last();
        let forward = e.metadata.entry_forward(c, e.type_info.metadata);
        lemma_propagation_keeps(e.type_info, Some(forward));
        assert(forward == e.metadata);
        assert(propagated(e.type_info, Some(forward)) == e.type_info);
        assert(propagated_entry(e, c) == e);
        assert(propagated_entries(s, c) == propagated_entries(s.drop_last(), c).push(
            propagated_entry(e, c),
        ));
        assert(propagated_entries(s, c) =~= s);
    }
}

/// With metadata that merges nothing, a type with a single unnamed member
/// describes as an alias of exactly that member's description: wrapping adds
/// only the wrapper's own name, docs and metadata.
pub proof fn lemma_alias_round_trip<M: MetadataKind>(decl: TypeDecl<M>, inner: DescriptorView<M>)
    requires
        merges_nothing::<M>(),
    ensures
        aliased_description(decl, inner).kind == (KindView::Aliased {
            name: outer_name(decl),
            kind: Box::new(inner),
        }),
        aliased_description(decl, inner).metadata == decl.metadata,
{
    let d = DescriptorView {
        docs: docs_view(decl.docs),
        metadata: decl.metadata,
        kind: KindView::Aliased { name: outer_name(decl), kind: Box::new(inner) },
    };
    lemma_wrapper_keeps(decl.metadata, None, inner);
    assert(aliased_description(decl, inner) == propagated(d, None));
}

/// Propagation leaves a description of an enum or of a leaf kind exactly as
/// it is, whatever the context.
pub proof fn lemma_leaves_untouched<M: MetadataKind>(d: DescriptorView<M>, context: Option<M>)
    requires
        d.kind is Enum || d.kind is Leaf,
    ensures
        propagated(d, context) == d,
{
}

/// A struct reached with a context keeps its own metadata and hands its
/// fields that context; at the root it hands them its own metadata.
pub proof fn lemma_struct_context<M: MetadataKind>(d: DescriptorView<M>, context: Option<M>)
    requires
        d.kind is Struct,
    ensures
        propagated(d, context).metadata == d.metadata,
        propagated(d, context).kind == (KindView::Struct {
            name: d.kind->Struct_name,
            children: propagated_entries(
                d.kind->Struct_children,
                match context {
                    Some(c) => c,
                    None => d.metadata,
                },
            ),
        }),
{
}

/// A description is a function of the declaration: two descriptions of the
/// same declaration are equal.
pub proof fn lemma_description_deterministic<M: MetadataKind>(
    decl: TypeDecl<M>,
    fs: Seq<FieldDecl<M>>,
    first: DescriptorView<M>,
    second: DescriptorView<M>,
)
    requires
        first == struct_description(decl, fs),
        second == struct_description(decl, fs),
    ensures
        first == second,
{
}

/// A flattened field `inner` whose type is a struct with the one field `a`,
/// followed by two plain fields: the description has exactly three children,
/// `a` in the flattened field's place and then the two others. `a` went
/// through a full forward-then-backward pass with the flattened field's
/// metadata as context, and then through a second pass with the outer
/// container's metadata.
pub proof fn lemma_flatten<M: MetadataKind>(
    decl: TypeDecl<M>,
    inner: FieldDecl<M>,
    other: FieldDecl<M>,
    other2: FieldDecl<M>,
    name: Seq<char>,
    a: EntryView<M>,
)
    requires
        inner.flatten,
        !other.flatten,
        !other2.flatten,
        inner.type_info@.kind == (KindView::Struct { name, children: seq![a] }),
    ensures
        ({
            let children = struct_description(decl, seq![inner, other, other2]).kind->Struct_children;
            &&& struct_description(decl, seq![inner, other, other2]).kind is Struct
            &&& children.len() == 3
            &&& children[0] == propagated_entry(
                propagated_entry(a, inner.metadata),
                decl.metadata,
            )
            &&& children[1] == propagated_entry(
                field_entry(other, decl.rename_all, decl.default),
                decl.metadata,
            )
            &&& children[2] == propagated_entry(
                field_entry(other2, decl.rename_all, decl.default),
                decl.metadata,
            )
            &&& children[0].label == a.label
            &&& children[1].label == label_of(other.ident@, other.ident@, other.rename, decl.rename_all)
            &&& children[2].label == label_of(other2.ident@, other2.ident@, other2.rename, decl.rename_all)
        }),
{
    let fs = seq![inner, other, other2];
    let case = decl.rename_all;
    let dflt = decl.default;
    let m = inner.metadata;
    assert(propagated_entries(seq![a], m) =~= seq![propagated_entry(a, m)]) by {
        assert(seq![a].drop_last() =~= Seq::<EntryView<M>>::empty());
        assert(propagated_entries(Seq::<EntryView<M>>::empty(), m) =~= Seq::empty());
    }
    assert(propagated(inner.type_info@, Some(inner.metadata)).kind->Struct_children =~= seq![
        propagated_entry(a, m),
    ]);
    assert(fs.drop_last() =~= seq![inner, other]);
    assert(seq![inner, other].drop_last() =~= seq![inner]);
    assert(seq![inner].drop_last() =~= Seq::<FieldDecl<M>>::empty());
    assert(fields_view(Seq::<FieldDecl<M>>::empty(), case, dflt) =~= Seq::empty());
    assert(fields_view(seq![inner], case, dflt) =~= seq![propagated_entry(a, m)]);
    assert(fields_view(seq![inner, other], case, dflt) =~= seq![
        propagated_entry(a, m),
        field_entry(other, case, dflt),
    ]);
    let children = fields_view(fs, case, dflt);
    assert(children =~= seq![
        propagated_entry(a, m),
        field_entry(other, case, dflt),
        field_entry(other2, case, dflt),
    ]);
    lemma_propagated_entries_index(children, decl.metadata);
}

/// A container flag `F` and three plain fields of leaf types without
/// metadata, the first setting no flag, the second `true`, the third `false`:
/// after propagation the first holds `F` and the two others keep their own.
pub proof fn lemma_flag_defaults(decl: TypeDecl<IndexFlag>, fs: Seq<FieldDecl<IndexFlag>>)
    requires
        fs.len() == 3,
        forall|i: int|
            0 <= i < 3 ==> {
                &&& !(#[trigger] fs[i]).flatten
                &&& fs[i].type_info@.kind is Leaf
                &&& fs[i].type_info@.metadata.index is None
            },
        fs[0].metadata.index is None,
        fs[1].metadata.index == Some(true),
        fs[2].metadata.index == Some(false),
    ensures
        struct_description(decl, fs).kind->Struct_children[0].metadata.index == decl.metadata.index,
        struct_description(decl, fs).kind->Struct_children[1].metadata.index == Some(true),
        struct_description(decl, fs).kind->Struct_children[2].metadata.index == Some(false),
{
    lemma_plain_children(decl, fs);
    assert(!fs[0].flatten && !fs[1].flatten && !fs[2].flatten);
}

/// A flag set on a field reaches the fields of the struct its type
/// describes: when that struct sets no flag of its own, every one of its
/// fields is propagated with the field's own flag, else the flag the field
/// inherited, as context.
pub proof fn lemma_nested_inheritance(e: EntryView<IndexFlag>, context: IndexFlag)
    requires
        e.type_info.kind is Struct,
    ensures
        propagated_entry(e, context).type_info.kind->Struct_children == propagated_entries(
            e.type_info.kind->Struct_children,
            IndexFlag {
                index: or_else(or_else(e.metadata.index, e.type_info.metadata.index), context.index),
            },
        ),
{
}

/// Wrapping a description in an optional-value container without metadata of
/// its own changes nothing inside: the wrapped tree is propagated with the
/// same context as it would be unwrapped.
pub proof fn lemma_option_tunnels(
    d: DescriptorView<IndexFlag>,
    context: IndexFlag,
    wrapper: IndexFlag,
    docs: Option<Seq<Seq<char>>>,
)
    ensures
        propagated(
            DescriptorView { docs, metadata: wrapper, kind: KindView::Option(Box::new(d)) },
            Some(context),
        ).kind == KindView::Option(Box::new(propagated(d, Some(context)))),
{
    assert(propagated_wrapper(wrapper, Some(context), d).1 == propagated(d, Some(context)));
}

/// As [`lemma_option_tunnels`], for a sequence container.
pub proof fn lemma_sequence_tunnels(
    d: DescriptorView<IndexFlag>,
    context: IndexFlag,
    wrapper: IndexFlag,
    docs: Option<Seq<Seq<char>>>,
)
    ensures
        propagated(
            DescriptorView { docs, metadata: wrapper, kind: KindView::Sequence(Box::new(d)) },
            Some(context),
        ).kind == KindView::Sequence(Box::new(propagated(d, Some(context)))),
{
    assert(propagated_wrapper(wrapper, Some(context), d).1 == propagated(d, Some(context)));
}

/// As [`lemma_option_tunnels`], for the values of a mapping.
pub proof fn lemma_mapping_tunnels(
    key: DescriptorView<IndexFlag>,
    d: DescriptorView<IndexFlag>,
    context: IndexFlag,
    wrapper: IndexFlag,
    docs: Option<Seq<Seq<char>>>,
)
    ensures
        propagated(
            DescriptorView {
                docs,
                metadata: wrapper,
                kind: KindView::Mapping(Box::new(key), Box::new(d)),
            },
            Some(context),
        ).kind->Mapping_1 == Box::new(propagated(d, Some(context))),
{
}

/// A container put around a description: an optional value, a sequence, or
/// the values of a mapping with the given key description.
pub enum Wrapping {
    Option,
    Sequence,
    MappingValue { key: DescriptorView<IndexFlag> },
}

/// `d` wrapped in `w`, the wrapper having `docs` and `metadata`.
pub open spec fn wrap(
    w: Wrapping,
    d: DescriptorView<IndexFlag>,
    docs: Option<Seq<Seq<char>>>,
    metadata: IndexFlag,
) -> DescriptorView<IndexFlag> {
    DescriptorView {
        docs,
        metadata,
        kind: match w {
            Wrapping::Option => KindView::Option(Box::new(d)),
            Wrapping::Sequence => KindView::Sequence(Box::new(d)),
            Wrapping::MappingValue { key } => KindView::Mapping(Box::new(key), Box::new(d)),
        },
    }
}

/// The description that `w` wraps inside `d`.
pub open spec fn unwrap(w: Wrapping, d: DescriptorView<IndexFlag>) -> DescriptorView<IndexFlag> {
    match w {
        Wrapping::Option => *d.kind->Option_0,
        Wrapping::Sequence => *d.kind->Sequence_0,
        Wrapping::MappingValue { .. } => *d.kind->Mapping_1,
    }
}

proof fn lemma_wrap_tunnels(
    w: Wrapping,
    d: DescriptorView<IndexFlag>,
    context: IndexFlag,
    docs: Option<Seq<Seq<char>>>,
    wrapper: IndexFlag,
)
    ensures
        unwrap(w, propagated(wrap(w, d, docs, wrapper), Some(context))) == propagated(
            d,
            Some(context),
        ),
{
    match w {
        Wrapping::Option => lemma_option_tunnels(d, context, wrapper, docs),
        Wrapping::Sequence => lemma_sequence_tunnels(d, context, wrapper, docs),
        Wrapping::MappingValue { key } => lemma_mapping_tunnels(key, d, context, wrapper, docs),
    }
}

/// A field whose type is wrapped in a container without metadata of its own
/// ends up, after propagation, wrapping exactly the description the field's
/// type ends up with unwrapped, provided that type sets no flag of its own:
/// every entry inside it has the same metadata.
pub proof fn lemma_entry_tunnels(
    e: EntryView<IndexFlag>,
    context: IndexFlag,
    w: Wrapping,
    docs: Option<Seq<Seq<char>>>,
    wrapper: IndexFlag,
)
    requires
        wrapper.index is None,
        e.type_info.metadata.index is None,
    ensures
        unwrap(
            w,
            propagated_entry(
                EntryView { type_info: wrap(w, e.type_info, docs, wrapper), ..e },
                context,
            ).type_info,
        ) == propagated_entry(e, context).type_info,
{
    let d = e.type_info;
    let forward_plain = e.metadata.entry_forward(context, d.metadata);
    let forward_wrapped = e.metadata.entry_forward(context, wrapper);
    assert(forward_plain == forward_wrapped);
    lemma_wrap_tunnels(w, d, forward_wrapped, docs, wrapper);
}

/// Two struct trees that differ only in that field `j` of the second has its
/// type wrapped in a container without metadata of its own, the field's type
/// setting no flag of its own: after propagation from the same context, every
/// other field is identical, and field `j` of the second wraps exactly the
/// type description that field `j` of the first holds.
pub proof fn lemma_struct_tunnels(
    d: DescriptorView<IndexFlag>,
    context: Option<IndexFlag>,
    j: int,
    w: Wrapping,
    docs: Option<Seq<Seq<char>>>,
    wrapper: IndexFlag,
)
    requires
        d.kind is Struct,
        0 <= j < d.kind->Struct_children.len(),
        wrapper.index is None,
        d.kind->Struct_children[j].type_info.metadata.index is None,
    ensures
        ({
            let children = d.kind->Struct_children;
            let e = children[j];
            let other = DescriptorView {
                kind: KindView::Struct {
                    name: d.kind->Struct_name,
                    children: children.update(
                        j,
                        EntryView { type_info: wrap(w, e.type_info, docs, wrapper), ..e },
                    ),
                },
                ..d
            };
            let plain = propagated(d, context).kind->Struct_children;
            let wrapped = propagated(other, context).kind->Struct_children;
            &&& propagated(other, context).kind is Struct
            &&& wrapped.len() == plain.len()
            &&& forall|k: int| 0 <= k < plain.len() && k != j ==> #[trigger] wrapped[k] == plain[k]
            &&& unwrap(w, wrapped[j].type_info) == plain[j].type_info
        }),
{
    let children = d.kind->Struct_children;
    let e = children[j];
    let updated = children.update(j, EntryView { type_info: wrap(w, e.type_info, docs, wrapper), ..e });
    let m = handed(context, d.metadata);
    lemma_propagated_entries_index(children, m);
    lemma_propagated_entries_index(updated, m);
    lemma_entry_tunnels(e, m, w, docs, wrapper);
}

/// Where field `i` of a struct stands among its children: after everything
/// the fields before it contribute.
pub open spec fn child_position<M: MetadataKind>(decl: TypeDecl<M>, fs: Seq<FieldDecl<M>>, i: int) -> int {
    fields_view(fs.take(i), decl.rename_all, decl.default).len() as int
}

proof fn lemma_fields_view_prefix<M: MetadataKind>(
    fs: Seq<FieldDecl<M>>,
    n: int,
    case: Option<CasePolicy>,
    default_all: bool,
)
    requires
        0 <= n <= fs.len(),
    ensures
        fields_view(fs.take(n), case, default_all).len() <= fields_view(fs, case, default_all).len(),
        fields_view(fs, case, default_all).subrange(
            0,
            fields_view(fs.take(n), case, default_all).len() as int,
        ) == fields_view(fs.take(n), case, default_all),
    decreases fs.len(),
{
    if n == fs.len() {
        assert(fs.take(n) == fs);
        assert(fields_view(fs, case, default_all).subrange(
            0,
            fields_view(fs, case, default_all).len() as int,
        ) == fields_view(fs, case, default_all));
    } else {
        lemma_fields_view_prefix(fs.drop_last(), n, case, default_all);
        assert(fs.drop_last().take(n) == fs.take(n));
        let whole = fields_view(fs, case, default_all);
        let init = fields_view(fs.drop_last(), case, default_all);
        let pre = fields_view(fs.take(n), case, default_all);
        assert(whole.subrange(0, pre.len() as int) == init.subrange(0, pre.len() as int));
    }
}

/// A field that is not flattened stands for exactly one child, at its
/// position, propagated with the container's metadata.
pub proof fn lemma_field_child<M: MetadataKind>(decl: TypeDecl<M>, fs: Seq<FieldDecl<M>>, i: int)
    requires
        0 <= i < fs.len(),
        !fs[i].flatten,
    ensures
        0 <= child_position(decl, fs, i) < struct_description(decl, fs).kind->Struct_children.len(),
        struct_description(decl, fs).kind->Struct_children[child_position(decl, fs, i)]
            == propagated_entry(field_entry(fs[i], decl.rename_all, decl.default), decl.metadata),
{
    let case = decl.rename_all;
    let dflt = decl.default;
    let k = child_position(decl, fs, i);
    lemma_fields_view_prefix(fs, i + 1, case, dflt);
    let upto = fs.take(i + 1);
    assert(upto.drop_last() == fs.take(i));
    assert(upto.last() == fs[i]);
    let pre = fields_view(fs.take(i + 1), case, dflt);
    assert(pre == fields_view(fs.take(i), case, dflt) + seq![field_entry(fs[i], case, dflt)]);
    assert(pre[k] == field_entry(fs[i], case, dflt));
    let all = fields_view(fs, case, dflt);
    assert(all.subrange(0, pre.len() as int)[k] == all[k]);
    lemma_propagated_entries_index(all, decl.metadata);
}

/// In any struct, flattened fields or not, every field that is not flattened
/// has an alias list that starts with its label and goes on with its alias
/// directives in declaration order.
pub proof fn lemma_field_aliases_anywhere<M: MetadataKind>(decl: TypeDecl<M>, fs: Seq<FieldDecl<M>>)
    ensures
        forall|i: int|
            0 <= i < fs.len() && !(#[trigger] fs[i]).flatten ==> {
                let e = struct_description(decl, fs).kind->Struct_children[child_position(decl, fs, i)];
                &&& e.aliases == seq![e.label] + strs_view(fs[i].aliases@)
                &&& e.aliases[0] == e.label
            },
{
    assert forall|i: int| 0 <= i < fs.len() && !(#[trigger] fs[i]).flatten implies {
        let e = struct_description(decl, fs).kind->Struct_children[child_position(decl, fs, i)];
        &&& e.aliases == seq![e.label] + strs_view(fs[i].aliases@)
        &&& e.aliases[0] == e.label
    } by {
        lemma_field_child(decl, fs, i);
    }
}

/// In any struct, flattened fields or not, every field that is not flattened
/// is labelled with its rename, else its identifier converted to the
/// container's case policy, else its identifier.
pub proof fn lemma_field_labels_anywhere<M: MetadataKind>(decl: TypeDecl<M>, fs: Seq<FieldDecl<M>>)
    ensures
        forall|i: int|
            0 <= i < fs.len() && !(#[trigger] fs[i]).flatten ==> struct_description(
                decl,
                fs,
            ).kind->Struct_children[child_position(decl, fs, i)].label == match fs[i].rename {
                Some(r) => r@,
                None => match decl.rename_all {
                    Some(p) => case_converted(fs[i].ident@, p),
                    None => fs[i].ident@,
                },
            },
{
    assert forall|i: int| 0 <= i < fs.len() && !(#[trigger] fs[i]).flatten implies struct_description(
        decl,
        fs,
    ).kind->Struct_children[child_position(decl, fs, i)].label == match fs[i].rename {
        Some(r) => r@,
        None => match decl.rename_all {
            Some(p) => case_converted(fs[i].ident@, p),
            None => fs[i].ident@,
        },
    } by {
        lemma_field_child(decl, fs, i);
    }
}

} // verus!
