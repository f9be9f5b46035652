use std::collections::HashMap;
use std::collections::VecDeque;

use struct_metadata::{describe_struct, Described, Descriptor, Entry, FieldDecl, Kind, TypeDecl};

type Pairs = HashMap<&'static str, &'static str>;

fn field(ident: &'static str, type_info: Descriptor<Pairs>) -> FieldDecl<Pairs> {
    FieldDecl {
        ident,
        docs: None,
        metadata: Pairs::new(),
        type_info,
        rename: None,
        aliases: vec![],
        flatten: false,
        default: false,
    }
}

fn pairs(items: &[(&'static str, &'static str)]) -> Pairs {
    items.iter().cloned().collect()
}

/// non trivial metadata structs
#[allow(unused)]
struct OptionVec {
    /// Name used
    label: Option<String>,

    score: Option<u64>,

    attached: Vec<u64>,

    /// A queue of strings
    queue: VecDeque<String>,
}

impl Described<Pairs> for OptionVec {
    fn metadata() -> Descriptor<Pairs> {
        let decl = TypeDecl {
            ident: "OptionVec",
            docs: Some(vec!["non trivial metadata structs"]),
            metadata: Pairs::new(),
            rename: None,
            rename_all: None,
            default: false,
        };
        let fields = vec![
            FieldDecl { docs: Some(vec!["Name used"]), ..field("label", <Option<String>>::metadata()) },
            FieldDecl { metadata: pairs(&[("active", "true")]), ..field("score", <Option<u64>>::metadata()) },
            FieldDecl { metadata: pairs(&[("active", "false")]), ..field("attached", <Vec<u64>>::metadata()) },
            FieldDecl {
                docs: Some(vec!["A queue of strings"]),
                metadata: pairs(&[("active", "true")]),
                ..field("queue", <VecDeque<String>>::metadata())
            },
        ];
        describe_struct(decl, fields).unwrap()
    }
}

#[test]
fn containers_option_vec() {
    assert_eq!(OptionVec::metadata(), Descriptor {
        docs: Some(vec!["non trivial metadata structs"]),
        metadata: Default::default(),
        kind: Kind::Struct {
            name: "OptionVec",
            children: vec![
                Entry { label: "label".to_string(), docs: Some(vec!["Name used"]), metadata: Default::default(), has_default: false, type_info: Descriptor { docs: None, metadata: Default::default(), kind: Kind::Option(Box::new(String::metadata())) }, aliases: vec!["label".to_string()] },
                Entry { label: "score".to_string(), docs: None, metadata: [("active", "true")].into_iter().collect(), has_default: false, type_info: Descriptor { docs: None, metadata: Default::default(), kind: Kind::Option(Box::new(u64::metadata())) }, aliases: vec!["score".to_string()] },
                Entry { label: "attached".to_string(), docs: None, metadata: [("active", "false")].into_iter().collect(), has_default: false, type_info: Descriptor { docs: None, metadata: Default::default(), kind: Kind::Sequence(Box::new(u64::metadata())) }, aliases: vec!["attached".to_string()] },
                Entry { label: "queue".to_string(), docs: Some(vec!["A queue of strings"]), metadata: [("active", "true")].into_iter().collect(), has_default: false, type_info: Descriptor { docs: None, metadata: Default::default(), kind: Kind::Sequence(Box::new(String::metadata())) }, aliases: vec!["queue".to_string()] },
            ]
        }
    });
}
