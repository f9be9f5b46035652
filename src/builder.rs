use vstd::prelude::*;

use crate::case::{case_converted, to_case, CasePolicy};
use crate::descriptor::{
    docs_view, entries_view, lemma_entries_view_concat, lemma_entries_view_push, strings_view,
    strs_view, struct_fields_of, Descriptor, DescriptorView, Entry, EntryView, Kind, KindView,
    Variant, VariantView,
};
use crate::metadata::MetadataKind;
use crate::propagation::propagated;

verus! {

broadcast use vstd::std_specs::vec::group_vec_axioms, vstd::seq::group_seq_axioms;

/// The container-level part of a type declaration.
pub struct TypeDecl<M> {
    /// Identifier of the type in its declaration
    pub ident: &'static str,
    /// Doc comment lines on the type, if any
    pub docs: Option<Vec<&'static str>>,
    /// Metadata given on the type
    pub metadata: M,
    /// Name given by a rename directive, if any
    pub rename: Option<&'static str>,
    /// Case conversion applied to the labels of all fields or variants, if any
    pub rename_all: Option<CasePolicy>,
    /// Whether the whole type declares a default for every field
    pub default: bool,
}

/// One named field of a struct declaration.
pub struct FieldDecl<M> {
    /// Identifier of the field in its declaration
    pub ident: &'static str,
    /// Doc comment lines on the field, if any
    pub docs: Option<Vec<&'static str>>,
    /// Metadata given on the field
    pub metadata: M,
    /// Description of the field's type
    pub type_info: Descriptor<M>,
    /// Label given by a rename directive, if any
    pub rename: Option<&'static str>,
    /// Alias directives, in declaration order
    pub aliases: Vec<&'static str>,
    /// Whether the field's own fields are spliced into the struct
    pub flatten: bool,
    /// Whether the field declares a default value
    pub default: bool,
}

/// One variant of an enum declaration.
pub struct VariantDecl<M> {
    /// Identifier of the variant in its declaration
    pub ident: &'static str,
    /// Doc comment lines on the variant, if any
    pub docs: Option<Vec<&'static str>>,
    /// Metadata given on the variant
    pub metadata: M,
    /// Label given by a rename directive, if any
    pub rename: Option<&'static str>,
    /// Alias directives, in declaration order
    pub aliases: Vec<&'static str>,
    /// Whether the variant carries field data
    pub has_fields: bool,
}

/// A declaration that cannot be described.
#[derive(Debug, Clone, Copy, PartialEq, Eq)]
pub enum DescribeError {
    /// A tuple struct with more than one member
    TupleArity,
    /// An enum variant that carries field data
    VariantFields,
    /// A flattened field whose type is not a struct
    FlattenNotStruct,
    /// Both a metadata record type and a metadata sequence type are declared
    ConflictingMetadata,
}

/// The name recorded for a declared type: its rename if any, else its identifier.
pub open spec fn outer_name<M>(decl: TypeDecl<M>) -> Seq<char> {
    match decl.rename {
        Some(r) => r@,
        None => decl.ident@,
    }
}

/// The label of a field or variant: the rename if any, else the identifier
/// converted to the container's case policy if any, else `fallback`.
pub open spec fn label_of(
    ident: Seq<char>,
    fallback: Seq<char>,
    rename: Option<&'static str>,
    case: Option<CasePolicy>,
) -> Seq<char> {
    match rename {
        Some(r) => r@,
        None => match case {
            Some(c) => case_converted(ident, c),
            None => fallback,
        },
    }
}

/// The entry that a (not flattened) field declaration stands for.
pub open spec fn field_entry<M>(f: FieldDecl<M>, case: Option<CasePolicy>, default_all: bool) -> EntryView<M> {
    let label = label_of(f.ident@, f.ident@, f.rename, case);
    EntryView {
        label,
        docs: docs_view(f.docs),
        metadata: f.metadata,
        type_info: f.type_info@,
        has_default: f.default || default_all,
        aliases: seq![label] + strs_view(f.aliases@),
    }
}

/// The entries a field contributes to its struct: its own entry, or, when
/// flattened, the fields of its type once propagated from the field's metadata.
pub open spec fn field_contribution<M: MetadataKind>(
    f: FieldDecl<M>,
    case: Option<CasePolicy>,
    default_all: bool,
) -> Seq<EntryView<M>> {
    if f.flatten {
        struct_fields_of(propagated(f.type_info@, Some(f.metadata)))
    } else {
        seq![field_entry(f, case, default_all)]
    }
}

/// The children of a struct, field by field in declaration order.
pub open spec fn fields_view<M: MetadataKind>(
    fs: Seq<FieldDecl<M>>,
    case: Option<CasePolicy>,
    default_all: bool,
) -> Seq<EntryView<M>>
    decreases fs.len(),
{
    if fs.len() == 0 {
        Seq::empty()
    } else {
        fields_view(fs.drop_last(), case, default_all) + field_contribution(
            fs.last(),
            case,
            default_all,
        )
    }
}

/// Every flattened field has a struct as its type.
pub open spec fn flatten_ok<M>(fs: Seq<FieldDecl<M>>) -> bool {
    forall|i: int| 0 <= i < fs.len() && #[trigger] fs[i].flatten ==> fs[i].type_info@.kind is Struct
}

/// The description of a struct with named fields `fs`, after propagation.
pub open spec fn struct_description<M: MetadataKind>(decl: TypeDecl<M>, fs: Seq<FieldDecl<M>>) -> DescriptorView<M> {
    propagated(
        DescriptorView {
            docs: docs_view(decl.docs),
            metadata: decl.metadata,
            kind: KindView::Struct {
                name: outer_name(decl),
                children: fields_view(fs, decl.rename_all, decl.default),
            },
        },
        None,
    )
}

/// The description of a type wrapping the one member described by `inner`,
/// after propagation.
pub open spec fn aliased_description<M: MetadataKind>(decl: TypeDecl<M>, inner: DescriptorView<M>) -> DescriptorView<M> {
    propagated(
        DescriptorView {
            docs: docs_view(decl.docs),
            metadata: decl.metadata,
            kind: KindView::Aliased { name: outer_name(decl), kind: Box::new(inner) },
        },
        None,
    )
}

/// The variant that a declaration stands for, with `fallback` as its label
/// when neither a rename nor a case policy applies.
pub open spec fn variant_entry<M>(v: VariantDecl<M>, fallback: Seq<char>, case: Option<CasePolicy>) -> VariantView<M> {
    let label = label_of(v.ident@, fallback, v.rename, case);
    VariantView {
        label,
        docs: docs_view(v.docs),
        metadata: v.metadata,
        aliases: seq![label] + strs_view(v.aliases@),
    }
}

/// The description of an enum whose variant `i` falls back to `fallbacks[i]`.
pub open spec fn enum_description<M>(
    decl: TypeDecl<M>,
    vs: Seq<VariantDecl<M>>,
    fallbacks: Seq<Seq<char>>,
) -> DescriptorView<M> {
    DescriptorView {
        docs: docs_view(decl.docs),
        metadata: decl.metadata,
        kind: KindView::Enum {
            name: outer_name(decl),
            variants: Seq::new(
                vs.len(),
                |i: int| variant_entry(vs[i], fallbacks[i], decl.rename_all),
            ),
        },
    }
}

/// No variant carries field data.
pub open spec fn fieldless<M>(vs: Seq<VariantDecl<M>>) -> bool {
    forall|i: int| 0 <= i < vs.len() ==> !(#[trigger] vs[i]).has_fields
}

/// The identifiers of the variants.
pub open spec fn variant_idents<M>(vs: Seq<VariantDecl<M>>) -> Seq<Seq<char>> {
    vs.map_values(|v: VariantDecl<M>| v.ident@)
}

fn outer_name_of<M>(decl: &TypeDecl<M>) -> (r: &'static str)
    ensures
        r@ == outer_name(*decl),
{
    match decl.rename {
        Some(r) => r,
        None => decl.ident,
    }
}

fn resolve_label(
    ident: &'static str,
    fallback: String,
    rename: Option<&'static str>,
    case: Option<CasePolicy>,
) -> (r: String)
    ensures
        r@ == label_of(ident@, fallback@, rename, case),
{
    match rename {
        Some(r) => r.to_owned(),
        None => match case {
            Some(c) => to_case(ident, c),
            None => fallback,
        },
    }
}

fn alias_list(label: &String, aliases: &Vec<&'static str>) -> (r: Vec<String>)
    ensures
        strings_view(r@) == seq![label@] + strs_view(aliases@),
{
    let mut out: Vec<String> = Vec::new();
    out.push(label.clone());
    assert(strings_view(out@) =~= seq![label@]);
    assert(aliases@.take(0) =~= Seq::<&'static str>::empty());
    assert(seq![label@] + strs_view(aliases@.take(0)) =~= seq![label@]);
    let mut i: usize = 0;
    while i < aliases.len()
        invariant
            i <= aliases.len(),
            strings_view(out@) == seq![label@] + strs_view(aliases@.take(i as int)),
        decreases aliases.len() - i,
    {
        proof {
            assert(aliases@.take(i + 1) == aliases@.take(i as int).push(aliases@[i as int]));
        }
        let ghost before = out@;
        let alias = aliases[i].to_owned();
        out.push(alias);
        proof {
            assert(strings_view(out@) =~= strings_view(before).push(alias@));
            assert(strs_view(aliases@.take(i + 1)) =~= strs_view(aliases@.take(i as int)).push(
                aliases@[i as int]@,
            ));
            assert(seq![label@] + strs_view(aliases@.take(i + 1)) =~= (seq![label@] + strs_view(
                aliases@.take(i as int),
            )).push(aliases@[i as int]@));
        }
        i = i + 1;
    }
    assert(aliases@.take(aliases.len() as int) =~= aliases@);
    out
}

fn field_to_entry<M>(f: FieldDecl<M>, case: Option<CasePolicy>, default_all: bool) -> (r: Entry<M>)
    ensures
        r@ == field_entry(f, case, default_all),
{
    let FieldDecl { ident, docs, metadata, type_info, rename, aliases, flatten, default } = f;
    let label = resolve_label(ident, ident.to_owned(), rename, case);
    let aliases = alias_list(&label, &aliases);
    Entry { label, docs, metadata, type_info, has_default: default || default_all, aliases }
}

/// Build the description of a struct with named fields.
///
/// Each field gets its label (rename, else the container's case policy applied
/// to its identifier, else the identifier), an alias list that starts with that
/// label, and a default flag that the container's default also sets. A
/// flattened field contributes, in its place, the fields of its type once that
/// type has been propagated with the field's metadata as context. The finished
/// tree is propagated once from its root.
///
/// Fails with `FlattenNotStruct` exactly when a flattened field's type is not
/// a struct.
pub fn describe_struct<M: MetadataKind>(decl: TypeDecl<M>, fields: Vec<FieldDecl<M>>) -> (r: Result<
    Descriptor<M>,
    DescribeError,
>)
    ensures
        match r {
            Ok(d) => flatten_ok(fields@) && d@ == struct_description(decl, fields@),
            Err(e) => !flatten_ok(fields@) && e == DescribeError::FlattenNotStruct,
        },
{
    let ghost all = fields@;
    let ghost d0 = decl;
    let name = outer_name_of(&decl);
    let TypeDecl { ident, docs, metadata, rename, rename_all, default } = decl;
    let mut rest = fields;
    let mut children: Vec<Entry<M>> = Vec::new();
    let mut i: usize = 0;
    assert(all.len() == rest.len());
    while rest.len() > 0
        invariant
            i <= all.len() <= usize::MAX,
            rest@ == all.skip(i as int),
            flatten_ok(all.take(i as int)),
            all == fields@,
            entries_view(children@) == fields_view(all.take(i as int), rename_all, default),
        decreases rest.len(),
    {
        let f = rest.remove(0);
        assert(f == all[i as int]);
        proof {
            assert(all.take(i + 1).drop_last() == all.take(i as int));
            assert(all.take(i + 1).last() == f);
        }
        if f.flatten {
            let FieldDecl { metadata: field_metadata, type_info, .. } = f;
            let mut type_info = type_info;
            let is_struct = matches!(type_info.kind, Kind::Struct { .. });
            if !is_struct {
                proof {
                    assert(all[i as int].flatten);
                    assert(!(all[i as int].type_info@.kind is Struct));
                    assert(!flatten_ok(all));
                }
                return Err(DescribeError::FlattenNotStruct);
            }
            type_info.propagate(Some(&field_metadata));
            let Descriptor { kind, .. } = type_info;
            if let Kind::Struct { children: spliced, .. } = kind {
                let mut spliced = spliced;
                proof {
                    lemma_entries_view_concat(children@, spliced@);
                }
                children.append(&mut spliced);
            }
        } else {
            let e = field_to_entry(f, rename_all, default);
            proof {
                lemma_entries_view_push(children@, e);
            }
            children.push(e);
        }
        i = i + 1;
    }
    assert(all.take(all.len() as int) == all);
    let mut d = Descriptor { docs, metadata, kind: Kind::Struct { name, children } };
    d.propagate(None);
    Ok(d)
}

/// Build the description of a struct without fields (a unit struct, `{}` or
/// `()`): a struct kind with no children.
pub fn describe_unit<M: MetadataKind>(decl: TypeDecl<M>) -> (r: Descriptor<M>)
    ensures
        r@ == struct_description(decl, Seq::empty()),
{
    let name = outer_name_of(&decl);
    let TypeDecl { docs, metadata, .. } = decl;
    let children: Vec<Entry<M>> = Vec::new();
    assert(entries_view(children@) =~= fields_view(Seq::<FieldDecl<M>>::empty(), decl.rename_all, decl.default));
    let mut d = Descriptor { docs, metadata, kind: Kind::Struct { name, children } };
    d.propagate(None);
    d
}

/// Build the description of a tuple struct from the descriptions of its
/// members: no member describes as a unit struct, one member as an alias of
/// that member's description; more than one member is refused.
pub fn describe_tuple<M: MetadataKind>(decl: TypeDecl<M>, members: Vec<Descriptor<M>>) -> (r: Result<
    Descriptor<M>,
    DescribeError,
>)
    ensures
        members@.len() == 0 ==> r == Ok::<Descriptor<M>, DescribeError>(r->Ok_0) && r->Ok_0@
            == struct_description(decl, Seq::empty()),
        members@.len() == 1 ==> r == Ok::<Descriptor<M>, DescribeError>(r->Ok_0) && r->Ok_0@
            == aliased_description(decl, members@[0]@),
        members@.len() > 1 ==> r == Err::<Descriptor<M>, DescribeError>(
            DescribeError::TupleArity,
        ),
{
    if members.len() == 0 {
        Ok(describe_unit(decl))
    } else if members.len() == 1 {
        let name = outer_name_of(&decl);
        let TypeDecl { docs, metadata, .. } = decl;
        let mut members = members;
        let inner = members.remove(0);
        let mut d = Descriptor {
            docs,
            metadata,
            kind: Kind::Aliased { name, kind: Box::new(inner) },
        };
        d.propagate(None);
        Ok(d)
    } else {
        Err(DescribeError::TupleArity)
    }
}

fn build_variants<M>(
    variants: Vec<VariantDecl<M>>,
    fallbacks: Vec<String>,
    case: Option<CasePolicy>,
) -> (r: Vec<Variant<M>>)
    requires
        variants@.len() == fallbacks@.len(),
    ensures
        r@.len() == variants@.len(),
        forall|i: int|
            0 <= i < r@.len() ==> (#[trigger] r@[i])@ == variant_entry(
                variants@[i],
                fallbacks@[i]@,
                case,
            ),
{
    let ghost vs = variants@;
    let ghost fs = fallbacks@;
    let mut rest = variants;
    let mut labels = fallbacks;
    let mut out: Vec<Variant<M>> = Vec::new();
    let mut i: usize = 0;
    assert(vs.len() == rest.len());
    while rest.len() > 0
        invariant
            i <= vs.len() <= usize::MAX,
            vs.len() == fs.len(),
            rest@ == vs.skip(i as int),
            labels@ == fs.skip(i as int),
            out@.len() == i,
            forall|k: int|
                0 <= k < i ==> (#[trigger] out@[k])@ == variant_entry(vs[k], fs[k]@, case),
        decreases rest.len(),
    {
        let v = rest.remove(0);
        let fallback = labels.remove(0);
        assert(v == vs[i as int]);
        assert(fallback == fs[i as int]);
        let VariantDecl { ident, docs, metadata, rename, aliases, .. } = v;
        let label = resolve_label(ident, fallback, rename, case);
        let aliases = alias_list(&label, &aliases);
        out.push(Variant { label, docs, metadata, aliases });
        i = i + 1;
    }
    out
}

fn ident_labels<M>(variants: &Vec<VariantDecl<M>>) -> (r: Vec<String>)
    ensures
        r@.len() == variants@.len(),
        forall|i: int| 0 <= i < r@.len() ==> (#[trigger] r@[i])@ == variants@[i].ident@,
{
    let mut out: Vec<String> = Vec::new();
    let mut i: usize = 0;
    while i < variants.len()
        invariant
            i <= variants@.len(),
            out@.len() == i,
            forall|k: int| 0 <= k < i ==> (#[trigger] out@[k])@ == variants@[k].ident@,
        decreases variants.len() - i,
    {
        out.push(variants[i].ident.to_owned());
        i = i + 1;
    }
    out
}

fn check_fieldless<M>(variants: &Vec<VariantDecl<M>>) -> (r: bool)
    ensures
        r == fieldless(variants@),
{
    let mut i: usize = 0;
    while i < variants.len()
        invariant
            i <= variants@.len(),
            forall|k: int| 0 <= k < i ==> !(#[trigger] variants@[k]).has_fields,
        decreases variants.len() - i,
    {
        if variants[i].has_fields {
            return false;
        }
        i = i + 1;
    }
    true
}

fn finish_enum<M>(decl: TypeDecl<M>, variants: Vec<VariantDecl<M>>, fallbacks: Vec<String>) -> (r:
    Descriptor<M>)
    requires
        variants@.len() == fallbacks@.len(),
    ensures
        r@ == enum_description(decl, variants@, fallbacks@.map_values(|s: String| s@)),
{
    let name = outer_name_of(&decl);
    let TypeDecl { docs, metadata, rename_all, .. } = decl;
    let ghost vs = variants@;
    let ghost fs = fallbacks@;
    let built = build_variants(variants, fallbacks, rename_all);
    let r = Descriptor { docs, metadata, kind: Kind::Enum { name, variants: built } };
    assert(r@.kind->Enum_variants =~= enum_description(decl, vs, fs.map_values(|s: String| s@)).kind->Enum_variants);
    r
}

/// Build the description of an enum whose variants carry no data, in
/// declaration order. A variant's label is its rename, else its identifier
/// converted to the container's case policy, else its identifier; its alias
/// list starts with that label. Enum descriptions are not propagated.
///
/// Fails with `VariantFields` exactly when some variant carries field data.
pub fn describe_enum<M>(decl: TypeDecl<M>, variants: Vec<VariantDecl<M>>) -> (r: Result<
    Descriptor<M>,
    DescribeError,
>)
    ensures
        match r {
            Ok(d) => fieldless(variants@) && d@ == enum_description(
                decl,
                variants@,
                variant_idents(variants@),
            ),
            Err(e) => !fieldless(variants@) && e == DescribeError::VariantFields,
        },
{
    if !check_fieldless(&variants) {
        return Err(DescribeError::VariantFields);
    }
    let labels = ident_labels(&variants);
    let ghost ls = labels@;
    let ghost vs = variants@;
    let r = finish_enum(decl, variants, labels);
    assert(ls.map_values(|s: String| s@) =~= variant_idents(vs));
    Ok(r)
}

/// Build the description of an enum whose variants carry no data, where each
/// variant is paired with what the type's own `to_string` gives for it: that
/// string is the label of a variant that neither a rename nor the container's
/// case policy labels. Otherwise as [`describe_enum`].
pub fn describe_enum_display<M>(decl: TypeDecl<M>, variants: Vec<(VariantDecl<M>, String)>) -> (r:
    Result<Descriptor<M>, DescribeError>)
    ensures
        match r {
            Ok(d) => fieldless(variants@.map_values(|p: (VariantDecl<M>, String)| p.0)) && d@
                == enum_description(
                decl,
                variants@.map_values(|p: (VariantDecl<M>, String)| p.0),
                variants@.map_values(|p: (VariantDecl<M>, String)| p.1@),
            ),
            Err(e) => !fieldless(variants@.map_values(|p: (VariantDecl<M>, String)| p.0)) && e
                == DescribeError::VariantFields,
        },
{
    let ghost pairs = variants@;
    let mut rest = variants;
    let mut decls: Vec<VariantDecl<M>> = Vec::new();
    let mut shown: Vec<String> = Vec::new();
    let mut i: usize = 0;
    assert(pairs.len() == rest.len());
    while rest.len() > 0
        invariant
            i <= pairs.len() <= usize::MAX,
            rest@ == pairs.skip(i as int),
            decls@ == pairs.take(i as int).map_values(|p: (VariantDecl<M>, String)| p.0),
            shown@ == pairs.take(i as int).map_values(|p: (VariantDecl<M>, String)| p.1),
        decreases rest.len(),
    {
        let (v, s) = rest.remove(0);
        proof {
            assert(pairs.take(i + 1) == pairs.take(i as int).push(pairs[i as int]));
        }
        decls.push(v);
        shown.push(s);
        proof {
            assert(decls@ =~= pairs.take(i + 1).map_values(|p: (VariantDecl<M>, String)| p.0));
            assert(shown@ =~= pairs.take(i + 1).map_values(|p: (VariantDecl<M>, String)| p.1));
        }
        i = i + 1;
    }
    assert(pairs.take(pairs.len() as int) == pairs);
    if !check_fieldless(&decls) {
        return Err(DescribeError::VariantFields);
    }
    let ghost sh = shown@;
    let r = finish_enum(decl, decls, shown);
    assert(sh.map_values(|s: String| s@) =~= pairs.map_values(
        |p: (VariantDecl<M>, String)| p.1@,
    ));
    Ok(r)
}

/// The form in which a type's metadata is declared.
#[derive(Debug, Clone, Copy, PartialEq, Eq)]
pub enum MetadataForm {
    /// A record type; with `defaults`, fields not given take the record's default.
    Record {
        /// Whether unnamed record fields fall back to the record's default
        defaults: bool,
    },
    /// A sequence of key/value pairs of the declared sequence type
    Sequence,
    /// A sequence of key/value pairs of the default map type
    DefaultMap,
}

/// Choose the form of a type's metadata from what its declaration states: a
/// record type (with its `defaults` setting), a sequence type, or neither.
/// Declaring both is refused.
pub fn metadata_form(record: Option<bool>, sequence: bool) -> (r: Result<MetadataForm, DescribeError>)
    ensures
        r == (match (record, sequence) {
            (Some(_), true) => Err(DescribeError::ConflictingMetadata),
            (Some(defaults), false) => Ok(MetadataForm::Record { defaults }),
            (None, true) => Ok(MetadataForm::Sequence),
            (None, false) => Ok(MetadataForm::DefaultMap),
        }),
{
    match record {
        Some(defaults) => if sequence {
            Err(DescribeError::ConflictingMetadata)
        } else {
            Ok(MetadataForm::Record { defaults })
        },
        None => if sequence {
            Ok(MetadataForm::Sequence)
        } else {
            Ok(MetadataForm::DefaultMap)
        },
    }
}

} // verus!
