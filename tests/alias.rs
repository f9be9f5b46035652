use std::collections::HashMap;

use struct_metadata::{describe_struct, Described, Descriptor, FieldDecl, Kind, TypeDecl};

type Pairs = HashMap<&'static str, &'static str>;

fn field(ident: &'static str, aliases: Vec<&'static str>) -> FieldDecl<Pairs> {
    FieldDecl {
        ident,
        docs: None,
        metadata: Pairs::new(),
        type_info: u64::metadata(),
        rename: None,
        aliases,
        flatten: false,
        default: false,
    }
}

#[allow(dead_code)]
struct HasAlias {
    single_name: u64,
    two_names: u64,
    three_names: u64,
}

impl Described<Pairs> for HasAlias {
    fn metadata() -> Descriptor<Pairs> {
        let decl = TypeDecl {
            ident: "HasAlias",
            docs: None,
            metadata: Pairs::new(),
            rename: None,
            rename_all: None,
            default: false,
        };
        let fields = vec![
            field("single_name", vec![]),
            field("two_names", vec!["other_name"]),
            field("three_names", vec!["other_name1", "other_name2"]),
        ];
        describe_struct(decl, fields).unwrap()
    }
}

#[test]
fn alias_default_defined() {
    let data = HasAlias::metadata();
    let Kind::Struct { name, children } = data.kind else { panic!() };
    assert_eq!(name, "HasAlias");

    assert_eq!(children[0].label, "single_name");
    assert_eq!(children[0].aliases, &["single_name"]);

    assert_eq!(children[1].label, "two_names");
    assert_eq!(children[1].aliases, &["two_names", "other_name"]);

    assert_eq!(children[2].label, "three_names");
    assert_eq!(children[2].aliases, &["three_names", "other_name1", "other_name2"]);
}
