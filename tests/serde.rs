use std::collections::HashMap;

use struct_metadata::{
    describe_enum, describe_struct, fetch_case, Described, Descriptor, Entry, FieldDecl, Kind,
    TypeDecl, Variant, VariantDecl,
};

type Pairs = HashMap<&'static str, &'static str>;

fn ty(ident: &'static str) -> TypeDecl<Pairs> {
    TypeDecl { ident, docs: None, metadata: Pairs::new(), rename: None, rename_all: None, default: false }
}

fn field(ident: &'static str, type_info: Descriptor<Pairs>) -> FieldDecl<Pairs> {
    FieldDecl {
        ident,
        docs: None,
        metadata: Pairs::new(),
        type_info,
        rename: None,
        aliases: vec![],
        flatten: false,
        default: false,
    }
}

fn variant(ident: &'static str) -> VariantDecl<Pairs> {
    VariantDecl { ident, docs: None, metadata: Pairs::new(), rename: None, aliases: vec![], has_fields: false }
}

#[allow(dead_code)]
struct RenameField {
    field_type: String,
}

impl Described<Pairs> for RenameField {
    fn metadata() -> Descriptor<Pairs> {
        let decl = TypeDecl { rename: Some("RenameFieldTestType"), ..ty("RenameField") };
        let fields = vec![FieldDecl { rename: Some("type"), ..field("field_type", String::metadata()) }];
        describe_struct(decl, fields).unwrap()
    }
}

#[test]
fn rename_field() {
    assert_eq!(RenameField::metadata(), Descriptor {
        docs: None,
        metadata: Default::default(),
        kind: Kind::Struct {
            name: "RenameFieldTestType",
            children: vec![
                Entry { label: "type".to_string(), docs: None, has_default: false, metadata: Default::default(), type_info: String::metadata(), aliases: vec!["type".to_string()] }
            ]
        }
    });
}

#[allow(dead_code)]
enum RenameVarient {
    Type,
}

impl Described<Pairs> for RenameVarient {
    fn metadata() -> Descriptor<Pairs> {
        let variants = vec![VariantDecl { rename: Some("type"), aliases: vec!["kind"], ..variant("Type") }];
        describe_enum(ty("RenameVarient"), variants).unwrap()
    }
}

#[test]
fn rename_variant() {
    assert_eq!(RenameVarient::metadata(), Descriptor {
        docs: None,
        metadata: Default::default(),
        kind: struct_metadata::Kind::Enum {
            name: "RenameVarient",
            variants: vec![
                Variant { label: "type".to_string(), docs: None, metadata: Default::default(), aliases: vec!["type".to_string(), "kind".to_string()] },
            ]
        }
    })
}

#[allow(dead_code)]
enum RenameAllVarient {
    Type,
}

impl Described<Pairs> for RenameAllVarient {
    fn metadata() -> Descriptor<Pairs> {
        let decl = TypeDecl {
            rename: Some("OuterName"),
            rename_all: fetch_case("UPPERCASE"),
            ..ty("RenameAllVarient")
        };
        describe_enum(decl, vec![variant("Type")]).unwrap()
    }
}

#[test]
fn rename_all_varients() {
    assert_eq!(RenameAllVarient::metadata(), Descriptor {
        docs: None,
        metadata: Default::default(),
        kind: struct_metadata::Kind::Enum {
            name: "OuterName",
            variants: vec![
                Variant { label: "TYPE".to_string(), docs: None, metadata: Default::default(), aliases: vec!["TYPE".to_string()] },
            ]
        }
    })
}

#[allow(dead_code)]
struct RenameAllField {
    inner: u8,
}

impl Described<Pairs> for RenameAllField {
    fn metadata() -> Descriptor<Pairs> {
        describe_struct(ty("RenameAllField"), vec![field("inner", u8::metadata())]).unwrap()
    }
}

#[test]
fn rename_all_fields() {
    assert_eq!(RenameAllField::metadata(), Descriptor {
        docs: None,
        metadata: Default::default(),
        kind: Kind::Struct {
            name: "RenameAllField",
            children: vec![
                Entry { label: "inner".to_string(), docs: None, has_default: false, metadata: Default::default(), type_info: u8::metadata(), aliases: vec!["inner".to_string()] }
            ]
        }
    });
}

struct InlineInner {
    #[allow(dead_code)]
    a: u32,
}

impl Described<Pairs> for InlineInner {
    fn metadata() -> Descriptor<Pairs> {
        describe_struct(ty("InlineInner"), vec![field("a", u32::metadata())]).unwrap()
    }
}

#[allow(dead_code)]
struct InlineOuter {
    inner: InlineInner,
}

impl Described<Pairs> for InlineOuter {
    fn metadata() -> Descriptor<Pairs> {
        let fields = vec![FieldDecl { flatten: true, ..field("inner", InlineInner::metadata()) }];
        describe_struct(ty("InlineOuter"), fields).unwrap()
    }
}

#[test]
fn inline() {
    let Kind::Struct { name, children } = InlineInner::metadata().kind else { panic!() };
    assert_eq!(name, "InlineInner");
    let inner_children = children;
    let Kind::Struct { name, children } = InlineOuter::metadata().kind else { panic!() };
    assert_eq!(name, "InlineOuter");
    assert_eq!(inner_children, children);
}
