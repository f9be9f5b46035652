use struct_metadata::{
    describe_struct, describe_unit, Described, Descriptor, Entry, FieldDecl, Kind, MetadataKind,
    TypeDecl,
};

#[derive(Default, PartialEq, Eq, Debug)]
struct Properties {
    pub important: bool,
    pub cats: &'static str,
}

impl MetadataKind for Properties {
    fn forward_propagate_entry_defaults(&mut self, _context: &Self, _kind: &Self) {}
    fn backward_propagate_entry_defaults(&mut self, _context: &Self, _kind: &Self) {}
    fn forward_propagate_child_defaults(&mut self, _kind: &Self) {}
    fn backward_propagate_child_defaults(&mut self, _kind: &Self) {}
}

type Sequence = Vec<(&'static str, &'static str)>;

fn ty<M: Default>(ident: &'static str) -> TypeDecl<M> {
    TypeDecl { ident, docs: None, metadata: M::default(), rename: None, rename_all: None, default: false }
}

fn field<M: Default>(ident: &'static str, type_info: Descriptor<M>) -> FieldDecl<M> {
    FieldDecl {
        ident,
        docs: None,
        metadata: M::default(),
        type_info,
        rename: None,
        aliases: vec![],
        flatten: false,
        default: false,
    }
}

struct SingleFeatured;

impl Described<Properties> for SingleFeatured {
    fn metadata() -> Descriptor<Properties> {
        let metadata = Properties { important: true, ..Default::default() };
        describe_unit(TypeDecl { metadata, ..ty("SingleFeatured") })
    }
}

struct DoubleFeatured;

impl Described<Properties> for DoubleFeatured {
    fn metadata() -> Descriptor<Properties> {
        let metadata = Properties { important: true, cats: "Less than 10" };
        describe_unit(TypeDecl { metadata, ..ty("DoubleFeatured") })
    }
}

struct NoneFeatured;

impl Described<Properties> for NoneFeatured {
    fn metadata() -> Descriptor<Properties> {
        describe_unit(ty("NoneFeatured"))
    }
}

#[test]
fn custom_single_featured() {
    let data = SingleFeatured::metadata();
    assert_eq!(data.kind, Kind::Struct { name: "SingleFeatured", children: vec![] });
    assert_eq!(data.docs, None);
    assert_eq!(data.metadata, Properties { important: true, cats: "" });
}

#[test]
fn custom_dual_featured() {
    let data = DoubleFeatured::metadata();
    assert_eq!(data.kind, Kind::Struct { name: "DoubleFeatured", children: vec![] });
    assert_eq!(data.docs, None);
    assert_eq!(data.metadata, Properties { important: true, cats: "Less than 10" });
}

#[test]
fn none_featured() {
    let data = NoneFeatured::metadata();
    assert_eq!(data.kind, Kind::Struct { name: "NoneFeatured", children: vec![] });
    assert_eq!(data.docs, None);
    assert_eq!(data.metadata, Properties { ..Default::default() });
}

struct SingleVecFeatured;

impl Described<Sequence> for SingleVecFeatured {
    fn metadata() -> Descriptor<Sequence> {
        describe_unit(TypeDecl { metadata: vec![("important", "true")], ..ty("SingleVecFeatured") })
    }
}

struct DoubleVecFeatured;

impl Described<Sequence> for DoubleVecFeatured {
    fn metadata() -> Descriptor<Sequence> {
        let metadata = vec![("important", "true"), ("cats", "\"Less than 10\"")];
        describe_unit(TypeDecl { metadata, ..ty("DoubleVecFeatured") })
    }
}

#[test]
fn custom_single_vec_featured() {
    let data = SingleVecFeatured::metadata();
    assert_eq!(data.kind, Kind::Struct { name: "SingleVecFeatured", children: vec![] });
    assert_eq!(data.docs, None);
    assert_eq!(data.metadata, vec![("important", "true")]);
}

#[test]
fn custom_dual_vec_featured() {
    let data = DoubleVecFeatured::metadata();
    assert_eq!(data.kind, Kind::Struct { name: "DoubleVecFeatured", children: vec![] });
    assert_eq!(data.docs, None);
    assert_eq!(data.metadata, vec![("important", "true"), ("cats", "\"Less than 10\"")]);
}

/// non trivial metadata structs
#[allow(unused)]
struct Fields {
    /// Name used
    label: u64,

    description: String,

    /// Are cats allowed here?
    cats: bool,
}

impl Described<Properties> for Fields {
    fn metadata() -> Descriptor<Properties> {
        let decl = TypeDecl {
            docs: Some(vec!["non trivial metadata structs"]),
            metadata: Properties { important: true, ..Default::default() },
            ..ty("Fields")
        };
        let fields = vec![
            FieldDecl { docs: Some(vec!["Name used"]), ..field("label", u64::metadata()) },
            FieldDecl {
                metadata: Properties { cats: "fluffy", ..Default::default() },
                ..field("description", String::metadata())
            },
            FieldDecl {
                docs: Some(vec!["Are cats allowed here?"]),
                metadata: Properties { important: true, ..Default::default() },
                ..field("cats", bool::metadata())
            },
        ];
        describe_struct(decl, fields).unwrap()
    }
}

fn expected_fields_metadata() -> Descriptor<Properties> {
    Descriptor {
        docs: Some(vec!["non trivial metadata structs"]),
        metadata: Properties { important: true, cats: "" },
        kind: Kind::Struct {
            name: "Fields",
            children: vec![
                Entry { label: "label".to_string(), docs: Some(vec!["Name used"]), has_default: false, metadata: Default::default(), type_info: u64::metadata(), aliases: vec!["label".to_string()] },
                Entry { label: "description".to_string(), docs: None, has_default: false, metadata: Properties { cats: "fluffy", ..Default::default() }, type_info: String::metadata(), aliases: vec!["description".to_string()] },
                Entry { label: "cats".to_string(), docs: Some(vec!["Are cats allowed here?"]), has_default: false, metadata: Properties { important: true, cats: "" }, type_info: bool::metadata(), aliases: vec!["cats".to_string()] },
            ],
        },
    }
}

#[test]
fn fields() {
    assert_eq!(Fields::metadata(), expected_fields_metadata());
}

/// nested structs
#[allow(unused)]
struct Nested {
    /// Name used
    label: u64,

    data: Fields,
}

impl Described<Properties> for Nested {
    fn metadata() -> Descriptor<Properties> {
        let decl = TypeDecl {
            docs: Some(vec!["nested structs"]),
            metadata: Properties { important: true, ..Default::default() },
            ..ty("Nested")
        };
        let fields = vec![
            FieldDecl { docs: Some(vec!["Name used"]), ..field("label", u64::metadata()) },
            FieldDecl {
                metadata: Properties { cats: "with stripes", ..Default::default() },
                ..field("data", Fields::metadata())
            },
        ];
        describe_struct(decl, fields).unwrap()
    }
}

#[test]
fn nested() {
    assert_eq!(Nested::metadata(), Descriptor {
        docs: Some(vec!["nested structs"]),
        metadata: Properties { important: true, cats: "" },
        kind: Kind::Struct {
            name: "Nested",
            children: vec![
                Entry { label: "label".to_string(), docs: Some(vec!["Name used"]), has_default: false, metadata: Default::default(), type_info: u64::metadata(), aliases: vec!["label".to_string()] },
                Entry { label: "data".to_string(), docs: None, has_default: false, metadata: Properties { cats: "with stripes", ..Default::default() }, type_info: expected_fields_metadata(), aliases: vec!["data".to_string()] },
            ],
        },
    });
}
