use std::collections::HashMap;

use struct_metadata::{describe_struct, Described, Descriptor, FieldDecl, Kind, TypeDecl};

type Pairs = HashMap<&'static str, &'static str>;

fn ty(ident: &'static str, default: bool) -> TypeDecl<Pairs> {
    TypeDecl { ident, docs: None, metadata: Pairs::new(), rename: None, rename_all: None, default }
}

fn field(ident: &'static str, default: bool) -> FieldDecl<Pairs> {
    FieldDecl {
        ident,
        docs: None,
        metadata: Pairs::new(),
        type_info: u64::metadata(),
        rename: None,
        aliases: vec![],
        flatten: false,
        default,
    }
}

#[allow(dead_code)]
struct FieldDefaults {
    has_default: u64,
    also_has_default: u64,
    no_default: u64,
}

impl Described<Pairs> for FieldDefaults {
    fn metadata() -> Descriptor<Pairs> {
        let fields = vec![
            field("has_default", true),
            field("also_has_default", true),
            field("no_default", false),
        ];
        describe_struct(ty("FieldDefaults", false), fields).unwrap()
    }
}

#[allow(dead_code)]
#[derive(Default)]
struct StructDefault {
    double_default: u64,
    has_default: u64,
}

impl Described<Pairs> for StructDefault {
    fn metadata() -> Descriptor<Pairs> {
        let fields = vec![field("double_default", true), field("has_default", false)];
        describe_struct(ty("StructDefault", true), fields).unwrap()
    }
}

#[test]
fn default_default_defined() {
    let data = FieldDefaults::metadata();
    let Kind::Struct { name, children } = data.kind else { panic!() };
    assert_eq!(name, "FieldDefaults");

    assert_eq!(children[0].label, "has_default");
    assert!(children[0].has_default);

    assert_eq!(children[1].label, "also_has_default");
    assert!(children[1].has_default);

    assert_eq!(children[2].label, "no_default");
    assert!(!children[2].has_default);

    let data = StructDefault::metadata();
    let Kind::Struct { name, children } = data.kind else { panic!() };
    assert_eq!(name, "StructDefault");

    assert_eq!(children[0].label, "double_default");
    assert!(children[0].has_default);

    assert_eq!(children[1].label, "has_default");
    assert!(children[1].has_default);
}
