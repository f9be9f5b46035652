use vstd::prelude::*;

use crate::builder::DescribeError;

verus! {

broadcast use vstd::std_specs::vec::group_vec_axioms, vstd::seq::group_seq_axioms;

/// Information about a type along with its metadata and doc-strings.
#[derive(Debug, PartialEq, Eq)]
pub struct Descriptor<M> {
    /// Docstring for the type
    pub docs: Option<Vec<&'static str>>,
    /// Metadata for the type
    pub metadata: M,
    /// Details about the type
    pub kind: Kind<M>,
}

/// Enum reflecting all supported types
#[derive(Debug, PartialEq, Eq)]
#[non_exhaustive]
pub enum Kind<M> {
    /// The type is a struct
    Struct {
        /// Name given to the struct in its declaration
        name: &'static str,
        /// List of fields within this struct
        children: Vec<Entry<M>>,
    },
    /// A struct wrapping a single anonymous field
    Aliased {
        /// Name given to the struct in its declaration
        name: &'static str,
        /// The type this alias struct wraps
        kind: Box<Descriptor<M>>,
    },
    /// A simple no-field enum type
    Enum {
        /// Name given to the enum in its declaration
        name: &'static str,
        /// Information about each variant value within this enum
        variants: Vec<Variant<M>>,
    },
    /// A list of items of a consistent type
    Sequence(Box<Descriptor<M>>),
    /// An item which is optionally present
    Option(Box<Descriptor<M>>),
    /// A pairwise mapping between consistent types with unique keys
    Mapping(Box<Descriptor<M>>, Box<Descriptor<M>>),
    /// A field describing a point in time
    DateTime,
    /// A string
    String,
    /// Unsigned 128 bit integer
    U128,
    /// Signed 128 bit integer
    I128,
    /// Unsigned 64 bit integer
    U64,
    /// Signed 64 bit integer
    I64,
    /// Unsigned 32 bit integer
    U32,
    /// Signed 32 bit integer
    I32,
    /// Unsigned 16 bit integer
    U16,
    /// Signed 16 bit integer
    I16,
    /// Unsigned 8 bit integer
    U8,
    /// Signed 8 bit integer
    I8,
    /// Unsigned platform-dependent integer
    USize,
    /// 64 bit floating point number
    F64,
    /// 32 bit floating point number
    F32,
    /// A boolean value
    Bool,
    /// A value of unspecified type, that must be limited to json
    JSON,
    /// A value of unspecified type
    Any,
}

/// Struct describing an enum variant
#[derive(Debug, PartialEq, Eq)]
pub struct Variant<M> {
    /// String value used to describe the variant.
    pub label: String,
    /// doc strings describing this variant
    pub docs: Option<Vec<&'static str>>,
    /// metadata describing this variant
    pub metadata: M,
    /// List of names this variant may be known as, its label first
    pub aliases: Vec<String>,
}

/// Struct describing a struct field
#[derive(Debug, PartialEq, Eq)]
pub struct Entry<M> {
    /// Label of the field in question, after any rename
    pub label: String,
    /// doc string describing this field
    pub docs: Option<Vec<&'static str>>,
    /// metadata describing this field
    pub metadata: M,
    /// Type of this field
    pub type_info: Descriptor<M>,
    /// Whether this field has a default defined
    pub has_default: bool,
    /// List of names this field may be known as, its label first
    pub aliases: Vec<String>,
}

/// Mathematical model of a [`Descriptor`].
pub struct DescriptorView<M> {
    pub docs: Option<Seq<Seq<char>>>,
    pub metadata: M,
    pub kind: KindView<M>,
}

/// Mathematical model of a [`Kind`].
pub enum KindView<M> {
    Struct { name: Seq<char>, children: Seq<EntryView<M>> },
    Aliased { name: Seq<char>, kind: Box<DescriptorView<M>> },
    Enum { name: Seq<char>, variants: Seq<VariantView<M>> },
    Sequence(Box<DescriptorView<M>>),
    Option(Box<DescriptorView<M>>),
    Mapping(Box<DescriptorView<M>>, Box<DescriptorView<M>>),
    Leaf(LeafKind),
}

/// The kinds that hold no other description.
pub enum LeafKind {
    DateTime,
    String,
    U128,
    I128,
    U64,
    I64,
    U32,
    I32,
    U16,
    I16,
    U8,
    I8,
    USize,
    F64,
    F32,
    Bool,
    JSON,
    Any,
}

/// Mathematical model of an [`Entry`].
pub struct EntryView<M> {
    pub label: Seq<char>,
    pub docs: Option<Seq<Seq<char>>>,
    pub metadata: M,
    pub type_info: DescriptorView<M>,
    pub has_default: bool,
    pub aliases: Seq<Seq<char>>,
}

/// Mathematical model of a [`Variant`].
pub struct VariantView<M> {
    pub label: Seq<char>,
    pub docs: Option<Seq<Seq<char>>>,
    pub metadata: M,
    pub aliases: Seq<Seq<char>>,
}

/// The characters of each string in a list.
pub open spec fn strs_view(v: Seq<&'static str>) -> Seq<Seq<char>> {
    v.map_values(|s: &'static str| s@)
}

/// The characters of each string in a list.
pub open spec fn strings_view(v: Seq<String>) -> Seq<Seq<char>> {
    v.map_values(|s: String| s@)
}

/// Model of an optional block of documentation lines.
pub open spec fn docs_view(docs: Option<Vec<&'static str>>) -> Option<Seq<Seq<char>>> {
    match docs {
        Some(lines) => Some(strs_view(lines@)),
        None => None,
    }
}

/// Model of a descriptor tree.
pub open spec fn descriptor_view<M>(d: Descriptor<M>) -> DescriptorView<M>
    decreases d,
{
    DescriptorView { docs: docs_view(d.docs), metadata: d.metadata, kind: kind_view(d.kind) }
}

/// Model of the kind of a descriptor.
pub open spec fn kind_view<M>(k: Kind<M>) -> KindView<M>
    decreases k,
{
    match k {
        Kind::Struct { name, children } => KindView::Struct {
            name: name@,
            children: entries_view(children@),
        },
        Kind::Aliased { name, kind } => KindView::Aliased {
            name: name@,
            kind: Box::new(descriptor_view(*kind)),
        },
        Kind::Enum { name, variants } => KindView::Enum {
            name: name@,
            variants: variants@.map_values(|v: Variant<M>| variant_view(v)),
        },
        Kind::Sequence(inner) => KindView::Sequence(Box::new(descriptor_view(*inner))),
        Kind::Option(inner) => KindView::Option(Box::new(descriptor_view(*inner))),
        Kind::Mapping(key, value) => KindView::Mapping(
            Box::new(descriptor_view(*key)),
            Box::new(descriptor_view(*value)),
        ),
        Kind::DateTime => KindView::Leaf(LeafKind::DateTime),
        Kind::String => KindView::Leaf(LeafKind::String),
        Kind::U128 => KindView::Leaf(LeafKind::U128),
        Kind::I128 => KindView::Leaf(LeafKind::I128),
        Kind::U64 => KindView::Leaf(LeafKind::U64),
        Kind::I64 => KindView::Leaf(LeafKind::I64),
        Kind::U32 => KindView::Leaf(LeafKind::U32),
        Kind::I32 => KindView::Leaf(LeafKind::I32),
        Kind::U16 => KindView::Leaf(LeafKind::U16),
        Kind::I16 => KindView::Leaf(LeafKind::I16),
        Kind::U8 => KindView::Leaf(LeafKind::U8),
        Kind::I8 => KindView::Leaf(LeafKind::I8),
        Kind::USize => KindView::Leaf(LeafKind::USize),
        Kind::F64 => KindView::Leaf(LeafKind::F64),
        Kind::F32 => KindView::Leaf(LeafKind::F32),
        Kind::Bool => KindView::Leaf(LeafKind::Bool),
        Kind::JSON => KindView::Leaf(LeafKind::JSON),
        Kind::Any => KindView::Leaf(LeafKind::Any),
    }
}

/// Model of a list of struct fields.
pub open spec fn entries_view<M>(s: Seq<Entry<M>>) -> Seq<EntryView<M>>
    decreases s,
{
    if s.len() == 0 {
        Seq::empty()
    } else {
        entries_view(s.drop_last()).push(entry_view(s.last()))
    }
}

/// Model of a struct field.
pub open spec fn entry_view<M>(e: Entry<M>) -> EntryView<M>
    decreases e,
{
    EntryView {
        label: e.label@,
        docs: docs_view(e.docs),
        metadata: e.metadata,
        type_info: descriptor_view(e.type_info),
        has_default: e.has_default,
        aliases: strings_view(e.aliases@),
    }
}

/// Model of an enum variant.
pub open spec fn variant_view<M>(v: Variant<M>) -> VariantView<M> {
    VariantView {
        label: v.label@,
        docs: docs_view(v.docs),
        metadata: v.metadata,
        aliases: strings_view(v.aliases@),
    }
}

/// The name reported for a leaf kind.
pub open spec fn leaf_name(l: LeafKind) -> Seq<char> {
    match l {
        LeafKind::DateTime => "datetime"@,
        LeafKind::String => "string"@,
        LeafKind::U128 => "u128"@,
        LeafKind::I128 => "i128"@,
        LeafKind::U64 => "u64"@,
        LeafKind::I64 => "i64"@,
        LeafKind::U32 => "u32"@,
        LeafKind::I32 => "i32"@,
        LeafKind::U16 => "u16"@,
        LeafKind::I16 => "i16"@,
        LeafKind::U8 => "u8"@,
        LeafKind::I8 => "i8"@,
        LeafKind::USize => "usize"@,
        LeafKind::F64 => "f64"@,
        LeafKind::F32 => "f32"@,
        LeafKind::Bool => "bool"@,
        LeafKind::JSON => "json"@,
        LeafKind::Any => "any"@,
    }
}

/// The name of a kind: the declared (or renamed) name of a struct, alias or
/// enum, a fixed word for every other kind.
pub open spec fn kind_name<M>(k: KindView<M>) -> Seq<char> {
    match k {
        KindView::Struct { name, .. } => name,
        KindView::Aliased { name, .. } => name,
        KindView::Enum { name, .. } => name,
        KindView::Sequence(_) => "sequence"@,
        KindView::Option(_) => "option"@,
        KindView::Mapping(_, _) => "mapping"@,
        KindView::Leaf(l) => leaf_name(l),
    }
}

/// The fields that a list of flattened descriptors contributes: the fields of
/// each one that describes a struct, in order.
pub open spec fn spliced_fields<M>(ds: Seq<DescriptorView<M>>) -> Seq<EntryView<M>>
    decreases ds.len(),
{
    if ds.len() == 0 {
        Seq::empty()
    } else {
        spliced_fields(ds.drop_last()) + struct_fields_of(ds.last())
    }
}

/// The fields of a descriptor that describes a struct; none otherwise.
pub open spec fn struct_fields_of<M>(d: DescriptorView<M>) -> Seq<EntryView<M>> {
    match d.kind {
        KindView::Struct { children, .. } => children,
        _ => Seq::empty(),
    }
}

/// Every descriptor of the list describes a struct.
pub open spec fn all_structs<M>(ds: Seq<DescriptorView<M>>) -> bool {
    forall|j: int| 0 <= j < ds.len() ==> (#[trigger] ds[j]).kind is Struct
}

/// Models of each descriptor in a list.
pub open spec fn descriptors_view<M>(s: Seq<Descriptor<M>>) -> Seq<DescriptorView<M>> {
    s.map_values(|d: Descriptor<M>| d@)
}

/// The model of a list of fields has one entry per field.
pub proof fn lemma_entries_view_len<M>(s: Seq<Entry<M>>)
    ensures
        entries_view(s).len() == s.len(),
    decreases s.len(),
{
    if s.len() > 0 {
        lemma_entries_view_len(s.drop_last());
    }
}

/// Adding a field adds its model at the end.
pub proof fn lemma_entries_view_push<M>(s: Seq<Entry<M>>, e: Entry<M>)
    ensures
        entries_view(s.push(e)) == entries_view(s).push(entry_view(e)),
{
    assert(s.push(e).drop_last() == s);
}

/// The model of two lists of fields, one after the other.
pub proof fn lemma_entries_view_concat<M>(a: Seq<Entry<M>>, b: Seq<Entry<M>>)
    ensures
        entries_view(a + b) == entries_view(a) + entries_view(b),
    decreases b.len(),
{
    if b.len() == 0 {
        assert(a + b == a);
        assert(entries_view(b) == Seq::<EntryView<M>>::empty());
        assert(entries_view(a) + entries_view(b) == entries_view(a));
    } else {
        lemma_entries_view_concat(a, b.drop_last());
        assert((a + b).drop_last() == a + b.drop_last());
        assert((a + b).last() == b.last());
        assert(entries_view(a) + entries_view(b) == (entries_view(a) + entries_view(
            b.drop_last(),
        )).push(entry_view(b.last())));
    }
}

impl<M> Kind<M> {
    /// Fetch the name of the type
    pub fn name(&self) -> (r: &'static str)
        ensures
            r@ == kind_name(self@),
    {
        match self {
            Kind::Struct { name, .. } => name,
            Kind::Aliased { name, .. } => name,
            Kind::Enum { name, .. } => name,
            Kind::Sequence(_) => "sequence",
            Kind::Option(_) => "option",
            Kind::Mapping(_, _) => "mapping",
            Kind::DateTime => "datetime",
            Kind::String => "string",
            Kind::U128 => "u128",
            Kind::I128 => "i128",
            Kind::U64 => "u64",
            Kind::I64 => "i64",
            Kind::U32 => "u32",
            Kind::I32 => "i32",
            Kind::U16 => "u16",
            Kind::I16 => "i16",
            Kind::U8 => "u8",
            Kind::I8 => "i8",
            Kind::USize => "usize",
            Kind::F64 => "f64",
            Kind::F32 => "f32",
            Kind::Bool => "bool",
            Kind::JSON => "json",
            Kind::Any => "any",
        }
    }

    /// Construct a type descriptor for a struct with the given name and fields.
    ///
    /// The fields of each struct in `flattened_children` are added after the
    /// given fields, as if they were members of the new struct (serde's
    /// `flatten`). Fails with `FlattenNotStruct` exactly when some flattened
    /// descriptor does not describe a struct.
    pub fn new_struct(
        name: &'static str,
        children: Vec<Entry<M>>,
        flattened_children: Vec<Descriptor<M>>,
    ) -> (r: Result<Self, DescribeError>)
        ensures
            match r {
                Ok(k) => all_structs(descriptors_view(flattened_children@)) && k@ == (
                KindView::Struct {
                    name: name@,
                    children: entries_view(children@) + spliced_fields(
                        descriptors_view(flattened_children@),
                    ),
                }),
                Err(e) => !all_structs(descriptors_view(flattened_children@)) && e
                    == DescribeError::FlattenNotStruct,
            },
    {
        let ghost all = flattened_children@;
        let ghost given = children@;
        let mut children = children;
        let mut rest = flattened_children;
        let mut i: usize = 0;
        assert(all.len() == rest.len());
        while rest.len() > 0
            invariant
                i <= all.len() <= usize::MAX,
                rest@ == all.skip(i as int),
                all == flattened_children@,
                all_structs(descriptors_view(all.take(i as int))),
                entries_view(children@) == entries_view(given) + spliced_fields(
                    descriptors_view(all.take(i as int)),
                ),
            decreases rest.len(),
        {
            let child = rest.remove(0);
            assert(child == all[i as int]);
            proof {
                let taken = descriptors_view(all.take(i + 1));
                assert(taken.drop_last() == descriptors_view(all.take(i as int)));
                assert(taken.last() == child@);
            }
            let Descriptor { kind, .. } = child;
            if let Kind::Struct { children: fields, .. } = kind {
                let mut fields = fields;
                proof {
                    lemma_entries_view_concat(children@, fields@);
                    let taken = descriptors_view(all.take(i + 1));
                    assert forall|j: int| 0 <= j < taken.len() implies (#[trigger] taken[j]).kind is Struct by {
                        if j < i {
                            assert(taken[j] == descriptors_view(all.take(i as int))[j]);
                        }
                    }
                }
                children.append(&mut fields);
            } else {
                proof {
                    assert(descriptors_view(all)[i as int] == all[i as int]@);
                    assert(!all_structs(descriptors_view(all)));
                }
                return Err(DescribeError::FlattenNotStruct);
            }
            i = i + 1;
        }
        assert(all.take(all.len() as int) == all);
        Ok(Kind::Struct { name, children })
    }
}

fn clone_docs(docs: &Option<Vec<&'static str>>) -> (r: Option<Vec<&'static str>>)
    ensures
        docs_view(r) == docs_view(*docs),
{
    match docs {
        Some(lines) => {
            let mut out: Vec<&'static str> = Vec::new();
            let mut i: usize = 0;
            while i < lines.len()
                invariant
                    i <= lines@.len(),
                    out@ == lines@.take(i as int),
                decreases lines.len() - i,
            {
                out.push(lines[i]);
                proof {
                    assert(lines@.take(i + 1) == lines@.take(i as int).push(lines@[i as int]));
                }
                i = i + 1;
            }
            assert(lines@.take(lines.len() as int) == lines@);
            Some(out)
        },
        None => None,
    }
}

fn clone_strings(v: &Vec<String>) -> (r: Vec<String>)
    ensures
        strings_view(r@) == strings_view(v@),
{
    let mut out: Vec<String> = Vec::new();
    let mut i: usize = 0;
    while i < v.len()
        invariant
            i <= v@.len(),
            strings_view(out@) == strings_view(v@.take(i as int)),
        decreases v.len() - i,
    {
        let ghost before = out@;
        let s = v[i].clone();
        out.push(s);
        proof {
            assert(strings_view(out@) =~= strings_view(before).push(s@));
            assert(strings_view(v@.take(i + 1)) =~= strings_view(v@.take(i as int)).push(v@[i as int]@));
        }
        i = i + 1;
    }
    assert(v@.take(v.len() as int) =~= v@);
    out
}

fn clone_descriptor<M: Clone>(d: &Descriptor<M>) -> (r: Descriptor<M>)
    decreases d,
{
    Descriptor { docs: clone_docs(&d.docs), metadata: d.metadata.clone(), kind: clone_kind(&d.kind) }
}

fn clone_kind<M: Clone>(k: &Kind<M>) -> (r: Kind<M>)
    decreases k,
{
    match k {
        Kind::Struct { name, children } => {
            let mut out: Vec<Entry<M>> = Vec::new();
            let mut i: usize = 0;
            while i < children.len()
                invariant
                    i <= children@.len(),
                    *k is Struct,
                    k->Struct_children == *children,
                decreases children.len() - i,
            {
                proof {
                    assert(decreases_to!(children@ => children@[i as int]));
                    assert(decreases_to!(*children => children@));
                    assert(*children == k->Struct_children);
                    assert(decreases_to!(*k => k->Struct_children));
                    assert(decreases_to!(k => children@[i as int]));
                }
                out.push(clone_entry(&children[i]));
                i = i + 1;
            }
            Kind::Struct { name: *name, children: out }
        },
        Kind::Aliased { name, kind } => Kind::Aliased {
            name: *name,
            kind: Box::new(clone_descriptor(&**kind)),
        },
        Kind::Enum { name, variants } => {
            let mut out: Vec<Variant<M>> = Vec::new();
            let mut i: usize = 0;
            while i < variants.len()
                invariant
                    i <= variants@.len(),
                decreases variants.len() - i,
            {
                let v = &variants[i];
                out.push(
                    Variant {
                        label: v.label.clone(),
                        docs: clone_docs(&v.docs),
                        metadata: v.metadata.clone(),
                        aliases: clone_strings(&v.aliases),
                    },
                );
                i = i + 1;
            }
            Kind::Enum { name: *name, variants: out }
        },
        Kind::Sequence(inner) => Kind::Sequence(Box::new(clone_descriptor(&**inner))),
        Kind::Option(inner) => Kind::Option(Box::new(clone_descriptor(&**inner))),
        Kind::Mapping(key, value) => Kind::Mapping(
            Box::new(clone_descriptor(&**key)),
            Box::new(clone_descriptor(&**value)),
        ),
        Kind::DateTime => Kind::DateTime,
        Kind::String => Kind::String,
        Kind::U128 => Kind::U128,
        Kind::I128 => Kind::I128,
        Kind::U64 => Kind::U64,
        Kind::I64 => Kind::I64,
        Kind::U32 => Kind::U32,
        Kind::I32 => Kind::I32,
        Kind::U16 => Kind::U16,
        Kind::I16 => Kind::I16,
        Kind::U8 => Kind::U8,
        Kind::I8 => Kind::I8,
        Kind::USize => Kind::USize,
        Kind::F64 => Kind::F64,
        Kind::F32 => Kind::F32,
        Kind::Bool => Kind::Bool,
        Kind::JSON => Kind::JSON,
        Kind::Any => Kind::Any,
    }
}

fn clone_entry<M: Clone>(e: &Entry<M>) -> (r: Entry<M>)
    decreases e,
{
    Entry {
        label: e.label.clone(),
        docs: clone_docs(&e.docs),
        metadata: e.metadata.clone(),
        type_info: clone_descriptor(&e.type_info),
        has_default: e.has_default,
        aliases: clone_strings(&e.aliases),
    }
}

impl<M: Clone> Clone for Descriptor<M> {
    fn clone(&self) -> Self {
        clone_descriptor(self)
    }
}

impl<M: Clone> Clone for Entry<M> {
    fn clone(&self) -> Self {
        clone_entry(self)
    }
}

impl<M: Clone> Clone for Variant<M> {
    fn clone(&self) -> Self {
        Variant {
            label: self.label.clone(),
            docs: clone_docs(&self.docs),
            metadata: self.metadata.clone(),
            aliases: clone_strings(&self.aliases),
        }
    }
}

impl<M: Clone> Clone for Kind<M> {
    fn clone(&self) -> Self {
        clone_kind(self)
    }
}

impl<M> View for Descriptor<M> {
    type V = DescriptorView<M>;

    open spec fn view(&self) -> DescriptorView<M> {
        descriptor_view(*self)
    }
}

impl<M> View for Kind<M> {
    type V = KindView<M>;

    open spec fn view(&self) -> KindView<M> {
        kind_view(*self)
    }
}

impl<M> View for Entry<M> {
    type V = EntryView<M>;

    open spec fn view(&self) -> EntryView<M> {
        entry_view(*self)
    }
}

impl<M> View for Variant<M> {
    type V = VariantView<M>;

    open spec fn view(&self) -> VariantView<M> {
        variant_view(*self)
    }
}

} // verus!
