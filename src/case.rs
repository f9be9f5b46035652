use vstd::prelude::*;

use convert_case::Casing;

verus! {

/// A case-conversion scheme that a container may apply to the labels of all
/// its fields or variants (serde's `rename_all`).
#[derive(Debug, Clone, Copy, PartialEq, Eq)]
pub enum CasePolicy {
    /// `lower case`: words delimited by spaces, all lower case.
    Lower,
    /// `UPPER CASE`: words delimited by spaces, all upper case.
    Upper,
    /// `PascalCase`
    Pascal,
    /// `camelCase`
    Camel,
    /// `snake_case`
    Snake,
    /// `SCREAMING_SNAKE_CASE`
    ScreamingSnake,
    /// `kebab-case`
    Kebab,
    /// `SCREAMING-KEBAB-CASE`
    ScreamingKebab,
}

/// What `str::to_lowercase` returns for the characters `s`.
pub uninterp spec fn lowercase_of(s: Seq<char>) -> Seq<char>;

/// What convert_case's `to_case` returns for the identifier `ident` converted
/// to `policy`.
pub uninterp spec fn case_converted(ident: Seq<char>, policy: CasePolicy) -> Seq<char>;

/// Relies on `str::to_lowercase`: its result depends on the characters alone.
#[verifier::external_body]
fn to_lowercase(s: &str) -> (r: String)
    ensures
        r@ == lowercase_of(s@),
{
    s.to_lowercase()
}

/// Relies on `convert_case::Casing::to_case` (convert_case 0.6): the identifier
/// is split into words at the crate's default boundaries and joined again in
/// the pattern and with the delimiter of the case; the result depends on the
/// identifier and the case alone.
#[verifier::external_body]
pub(crate) fn to_case(ident: &str, policy: CasePolicy) -> (r: String)
    ensures
        r@ == case_converted(ident@, policy),
{
    let case = match policy {
        CasePolicy::Lower => convert_case::Case::Lower,
        CasePolicy::Upper => convert_case::Case::Upper,
        CasePolicy::Pascal => convert_case::Case::Pascal,
        CasePolicy::Camel => convert_case::Case::Camel,
        CasePolicy::Snake => convert_case::Case::Snake,
        CasePolicy::ScreamingSnake => convert_case::Case::UpperSnake,
        CasePolicy::Kebab => convert_case::Case::Kebab,
        CasePolicy::ScreamingKebab => convert_case::Case::UpperKebab,
    };
    ident.to_case(case)
}

/// The policy that an already lower-cased policy name selects, if any.
pub open spec fn case_named(lowered: Seq<char>) -> Option<CasePolicy> {
    if lowered == "lowercase"@ || lowered == "lower"@ {
        Some(CasePolicy::Lower)
    } else if lowered == "uppercase"@ || lowered == "upper"@ {
        Some(CasePolicy::Upper)
    } else if lowered == "pascalcase"@ || lowered == "pascal"@ || lowered == "uppercamel"@ {
        Some(CasePolicy::Pascal)
    } else if lowered == "camelcase"@ || lowered == "camel"@ {
        Some(CasePolicy::Camel)
    } else if lowered == "snake_case"@ {
        Some(CasePolicy::Snake)
    } else if lowered == "upper_snake_case"@ || lowered == "screaming_snake_case"@ {
        Some(CasePolicy::ScreamingSnake)
    } else if lowered == "kebab_case"@ {
        Some(CasePolicy::Kebab)
    } else if lowered == "upper_kebab_case"@ || lowered == "screaming_kebab_case"@ {
        Some(CasePolicy::ScreamingKebab)
    } else {
        None
    }
}

fn is(s: &String, word: &str) -> (r: bool)
    ensures
        r == (s@ == word@),
{
    *s == word.to_owned()
}

/// Select the policy named by an already lower-cased name; `None` for a name
/// that names no supported policy.
pub fn case_from_lowercase(lowered: &String) -> (r: Option<CasePolicy>)
    ensures
        r == case_named(lowered@),
{
    if is(lowered, "lowercase") || is(lowered, "lower") {
        Some(CasePolicy::Lower)
    } else if is(lowered, "uppercase") || is(lowered, "upper") {
        Some(CasePolicy::Upper)
    } else if is(lowered, "pascalcase") || is(lowered, "pascal") || is(lowered, "uppercamel") {
        Some(CasePolicy::Pascal)
    } else if is(lowered, "camelcase") || is(lowered, "camel") {
        Some(CasePolicy::Camel)
    } else if is(lowered, "snake_case") {
        Some(CasePolicy::Snake)
    } else if is(lowered, "upper_snake_case") || is(lowered, "screaming_snake_case") {
        Some(CasePolicy::ScreamingSnake)
    } else if is(lowered, "kebab_case") {
        Some(CasePolicy::Kebab)
    } else if is(lowered, "upper_kebab_case") || is(lowered, "screaming_kebab_case") {
        Some(CasePolicy::ScreamingKebab)
    } else {
        None
    }
}

/// Determine the case-conversion policy that a `rename_all` name selects,
/// ignoring letter case (`"SCREAMING_SNAKE_CASE"` and `"screaming_snake_case"`
/// alike); `None` for an unsupported name.
pub fn fetch_case(name: &str) -> (r: Option<CasePolicy>)
    ensures
        r == case_named(lowercase_of(name@)),
{
    let lowered = to_lowercase(name);
    case_from_lowercase(&lowered)
}

} // verus!
