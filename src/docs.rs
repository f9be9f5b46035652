use vstd::prelude::*;

verus! {

broadcast use vstd::std_specs::vec::group_vec_axioms, vstd::seq::group_seq_axioms;

/// The characters with the Unicode `White_Space` property, which is what
/// `char::is_whitespace` and `str::trim` go by.
pub open spec fn is_white_space(c: char) -> bool {
    ('\u{9}' <= c && c <= '\u{d}') || c == '\u{20}' || c == '\u{85}' || c == '\u{a0}' || c
        == '\u{1680}' || ('\u{2000}' <= c && c <= '\u{200a}') || c == '\u{2028}' || c
        == '\u{2029}' || c == '\u{202f}' || c == '\u{205f}' || c == '\u{3000}'
}

/// `part` is `whole` without its leading and trailing whitespace.
pub open spec fn is_trim_of(part: Seq<char>, whole: Seq<char>) -> bool {
    exists|i: int, j: int|
        {
            &&& 0 <= i <= j <= whole.len()
            &&& part == whole.subrange(i, j)
            &&& forall|k: int| 0 <= k < i ==> is_white_space(#[trigger] whole[k])
            &&& forall|k: int| j <= k < whole.len() ==> is_white_space(#[trigger] whole[k])
            &&& part.len() == 0 || (!is_white_space(part[0]) && !is_white_space(
                part[part.len() - 1],
            ))
        }
}

/// Relies on `str::trim`: the line without its leading and trailing
/// whitespace, whitespace being the characters with the Unicode `White_Space`
/// property.
#[verifier::external_body]
fn trim(s: &'static str) -> (r: &'static str)
    ensures
        is_trim_of(r@, s@),
{
    s.trim()
}

/// The documentation lines of a declaration, given the text of each doc
/// comment line in order: each line trimmed, or `None` when there is none.
pub fn doc_lines(raw: &Vec<&'static str>) -> (r: Option<Vec<&'static str>>)
    ensures
        raw@.len() == 0 ==> r is None,
        raw@.len() > 0 ==> r is Some && r->Some_0@.len() == raw@.len() && forall|k: int|
            0 <= k < raw@.len() ==> is_trim_of((#[trigger] r->Some_0@[k])@, raw@[k]@),
{
    if raw.len() == 0 {
        return None;
    }
    let mut lines: Vec<&'static str> = Vec::new();
    let mut i: usize = 0;
    while i < raw.len()
        invariant
            i <= raw@.len(),
            lines@.len() == i,
            forall|k: int| 0 <= k < i ==> is_trim_of((#[trigger] lines@[k])@, raw@[k]@),
        decreases raw.len() - i,
    {
        let line = trim(raw[i]);
        lines.push(line);
        i = i + 1;
    }
    Some(lines)
}

} // verus!
