use std::collections::HashMap;
use std::fmt;

use struct_metadata::{describe_enum_display, Described, Descriptor, TypeDecl, Variant, VariantDecl};

type Pairs = HashMap<&'static str, &'static str>;

pub enum ExtendedScanValues {
    Submitted,
    Skipped,
    Incomplete,
    Complete,
}

impl fmt::Display for ExtendedScanValues {
    fn fmt(&self, f: &mut fmt::Formatter<'_>) -> fmt::Result {
        let text = match self {
            ExtendedScanValues::Submitted => "submitted",
            ExtendedScanValues::Skipped => "skipped",
            ExtendedScanValues::Incomplete => "incomplete",
            ExtendedScanValues::Complete => "complete",
        };
        f.write_str(text)
    }
}

fn variant(ident: &'static str) -> VariantDecl<Pairs> {
    VariantDecl { ident, docs: None, metadata: Pairs::new(), rename: None, aliases: vec![], has_fields: false }
}

impl Described<Pairs> for ExtendedScanValues {
    fn metadata() -> Descriptor<Pairs> {
        let decl = TypeDecl {
            ident: "ExtendedScanValues",
            docs: None,
            metadata: Pairs::new(),
            rename: None,
            rename_all: None,
            default: false,
        };
        let variants = vec![
            (variant("Submitted"), ExtendedScanValues::Submitted.to_string()),
            (variant("Skipped"), ExtendedScanValues::Skipped.to_string()),
            (variant("Incomplete"), ExtendedScanValues::Incomplete.to_string()),
            (
                VariantDecl { metadata: [("ideal", "true")].into_iter().collect(), ..variant("Complete") },
                ExtendedScanValues::Complete.to_string(),
            ),
        ];
        describe_enum_display(decl, variants).unwrap()
    }
}

#[test]
fn enum_display() {
    assert_eq!(ExtendedScanValues::metadata(), Descriptor {
        docs: None,
        metadata: Default::default(),
        kind: struct_metadata::Kind::Enum {
            name: "ExtendedScanValues",
            variants: vec![
                Variant { label: "submitted".to_string(), docs: None, metadata: Default::default(), aliases: vec!["submitted".to_string()] },
                Variant { label: "skipped".to_string(), docs: None, metadata: Default::default(), aliases: vec!["skipped".to_string()] },
                Variant { label: "incomplete".to_string(), docs: None, metadata: Default::default(), aliases: vec!["incomplete".to_string()] },
                Variant { label: "complete".to_string(), docs: None, metadata: [("ideal", "true")].into_iter().collect(), aliases: vec!["complete".to_string()] },
            ]
        }
    })
}
