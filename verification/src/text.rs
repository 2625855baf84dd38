//! Text that the engine reads and writes: blank scripts, and the JSON forms of
//! strings and lists of strings.
use vstd::prelude::*;

verus! {

/// Whether a character is white space: whether it has the property
/// White_Space of Unicode. These are the code points of that property.
pub open spec fn white_space(c: char) -> bool {
    let n = c as u32;
    ||| 0x09 <= n <= 0x0d
    ||| n == 0x20
    ||| n == 0x85
    ||| n == 0xa0
    ||| n == 0x1680
    ||| 0x2000 <= n <= 0x200a
    ||| n == 0x2028
    ||| n == 0x2029
    ||| n == 0x202f
    ||| n == 0x205f
    ||| n == 0x3000
}

/// The JSON text of a string, as `serde_json::Value` displays it.
pub uninterp spec fn json_string_text(s: Seq<char>) -> Seq<char>;

/// The JSON texts of the strings of a list, with a comma between each two.
pub open spec fn json_items_text(items: Seq<Seq<char>>) -> Seq<char>
    decreases items.len(),
{
    if items.len() == 0 {
        Seq::<char>::empty()
    } else if items.len() == 1 {
        json_string_text(items[0])
    } else {
        json_items_text(items.drop_last()) + ","@ + json_string_text(items.last())
    }
}

/// The JSON text of a list of strings: the JSON texts of its strings in
/// square brackets, with a comma between each two and no white space.
pub open spec fn json_array_text(items: Seq<Seq<char>>) -> Seq<char> {
    "["@ + json_items_text(items) + "]"@
}

/// A text is blank when nothing is left of it after trimming: every
/// character of it is white space.
pub open spec fn blank(s: Seq<char>) -> bool {
    forall|i: int| 0 <= i < s.len() ==> white_space(#[trigger] s[i])
}

/// Specifies `==` of std on string slices: they are equal when their
/// characters are.
pub assume_specification[ <str as PartialEq>::eq ](a: &str, b: &str) -> (r: bool)
    ensures
        r == (a@ == b@),
;

/// Whether two texts hold the same characters.
pub fn same_text(a: &str, b: &str) -> (r: bool)
    ensures
        r == (a@ == b@),
{
    *a == *b
}

/// Asks `char::is_whitespace` of std. Trusted: the answer is whether the
/// character has the property White_Space of Unicode, which is what the
/// function is documented to return.
#[verifier::external_body]
pub(crate) fn is_white_space(c: char) -> (r: bool)
    ensures
        r == white_space(c),
{
    c.is_whitespace()
}

/// Writes a string as JSON: the text that `serde_json::Value` displays for
/// its string variant. Trusted: displaying such a value does not fail, and
/// its text is a function of the characters alone.
#[verifier::external_body]
pub(crate) fn json_string(s: &str) -> (text: String)
    ensures
        text@ == json_string_text(s@),
{
    serde_json::Value::String(s.to_string()).to_string()
}

/// Writes a list of strings as a JSON array with `serde_json::to_string`.
/// Trusted: the call does not fail on such a list, and it writes the strings
/// as `serde_json::Value` displays each of them, in square brackets, with a
/// comma between each two.
#[verifier::external_body]
pub(crate) fn json_array(items: &Vec<String>) -> (text: String)
    ensures
        text@ == json_array_text(items.deep_view()),
{
    serde_json::to_string(items).unwrap_or_default()
}

/// Whether a text is blank.
pub fn is_blank(s: &str) -> (r: bool)
    ensures
        r == blank(s@),
{
    for c in it: s.chars()
        invariant
            it.seq() == s@,
            forall|j: int| 0 <= j < it.index() ==> white_space(#[trigger] s@[j]),
    {
        if !is_white_space(c) {
            return false;
        }
    }
    true
}

/// Whether an optional script is configured: present and not blank.
pub open spec fn configured(script: Option<Seq<char>>) -> bool {
    script matches Some(s) && !blank(s)
}

/// Whether an optional script is configured.
pub fn is_configured(script: &Option<String>) -> (r: bool)
    ensures
        r == configured(crate::text::option_text(*script)),
{
    match script {
        Some(s) => !is_blank(s.as_str()),
        None => false,
    }
}

/// The characters of an optional string.
pub open spec fn option_text(s: Option<String>) -> Option<Seq<char>> {
    match s {
        Some(t) => Some(t@),
        None => None,
    }
}

} // verus!
