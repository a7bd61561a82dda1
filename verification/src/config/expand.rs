//! Placeholders of the form `${NAME}` in the text of a configuration file.
//!
//! A placeholder is a dollar sign, an opening brace, at least one character
//! that is no closing brace, and the next closing brace. The text is searched
//! from left to right and placeholders do not overlap. The caller looks each
//! name up in the environment and hands back what it found; every occurrence
//! of a placeholder whose variable is set is then replaced by the value, one
//! placeholder after the other.

use vstd::prelude::*;

verus! {

/// Whether `from` stands in `text` at position `i`.
pub open spec fn occurs_at(text: Seq<char>, from: Seq<char>, i: int) -> bool {
    0 <= i && i + from.len() <= text.len() && text.subrange(i, i + from.len()) == from
}

/// The text with `to` in the place of every occurrence of `from`, found from
/// left to right without overlap, from position `i` on. An empty `from`
/// occurs nowhere.
pub open spec fn replaced_from(text: Seq<char>, from: Seq<char>, to: Seq<char>, i: int) -> Seq<
    char,
>
    decreases text.len() - i,
{
    if i < 0 || i >= text.len() {
        Seq::empty()
    } else if from.len() > 0 && occurs_at(text, from, i) {
        to + replaced_from(text, from, to, i + from.len())
    } else {
        seq![text[i]] + replaced_from(text, from, to, i + 1)
    }
}

/// The text with `to` in the place of every occurrence of `from`.
pub open spec fn replaced(text: Seq<char>, from: Seq<char>, to: Seq<char>) -> Seq<char> {
    replaced_from(text, from, to, 0)
}

/// One placeholder found in a text.
#[derive(Debug, Clone, PartialEq, Eq)]
pub struct Placeholder {
    /// The placeholder as it stands in the text, braces included.
    pub text: String,
    /// The name of the variable.
    pub name: String,
}

/// A placeholder by its characters: the whole of it, and the name.
pub type PlaceholderView = (Seq<char>, Seq<char>);

/// The position of the first closing brace at or after `k`.
pub open spec fn first_close(text: Seq<char>, k: int) -> Option<int>
    decreases text.len() - k,
{
    if k < 0 || k >= text.len() {
        None
    } else if text[k] == '}' {
        Some(k)
    } else {
        first_close(text, k + 1)
    }
}

/// The position of the brace that closes the placeholder starting at `i`,
/// if one starts there.
pub open spec fn placeholder_end(text: Seq<char>, i: int) -> Option<int> {
    if 0 <= i && i + 2 < text.len() && text[i] == '$' && text[i + 1] == '{' && text[i + 2] != '}' {
        first_close(text, i + 3)
    } else {
        None
    }
}

/// The placeholders that start at or after `i`, from left to right.
pub open spec fn placeholders_from(text: Seq<char>, i: int) -> Seq<PlaceholderView>
    decreases text.len() - i,
{
    if i < 0 || i >= text.len() {
        Seq::empty()
    } else {
        match placeholder_end(text, i) {
            Some(end) if i < end < text.len() => seq![
                (text.subrange(i, end + 1), text.subrange(i + 2, end)),
            ] + placeholders_from(text, end + 1),
            _ => placeholders_from(text, i + 1),
        }
    }
}

/// The placeholders of a text, from left to right.
pub open spec fn placeholders_of(text: Seq<char>) -> Seq<PlaceholderView> {
    placeholders_from(text, 0)
}

/// The text after the first `n` placeholders have been dealt with in turn:
/// a placeholder whose variable has a value is replaced wherever it occurs
/// in the text as it stands by then, and any other is left alone.
pub open spec fn expanded(
    content: Seq<char>,
    found: Seq<PlaceholderView>,
    values: Seq<Option<Seq<char>>>,
    n: int,
) -> Seq<char>
    decreases n,
{
    if n <= 0 {
        content
    } else {
        let before = expanded(content, found, values, n - 1);
        if n <= found.len() && n <= values.len() && values[n - 1] is Some {
            replaced(before, found[n - 1].0, values[n - 1]->0)
        } else {
            before
        }
    }
}

/// The placeholders of a list, by their characters.
pub open spec fn placeholder_views(found: Seq<Placeholder>) -> Seq<PlaceholderView> {
    found.map_values(|p: Placeholder| (p.text@, p.name@))
}

/// Whether `from` stands in `text` at position `i`.
fn matches_at(text: &Vec<char>, from: &Vec<char>, i: usize) -> (r: bool)
    requires
        i <= text.len(),
    ensures
        r == occurs_at(text@, from@, i as int),
{
    if from.len() > text.len() - i {
        return false;
    }
    let mut k: usize = 0;
    while k < from.len()
        invariant
            0 <= k <= from.len(),
            i + from.len() <= text.len(),
            forall|j: int| 0 <= j < k ==> text@[i + j] == from@[j],
        decreases from.len() - k,
    {
        if text[i + k] != from[k] {
            assert(text@.subrange(i as int, i + from.len())[k as int] != from@[k as int]);
            return false;
        }
        k = k + 1;
    }
    assert(text@.subrange(i as int, i + from.len()) =~= from@);
    true
}

/// Puts `to` in the place of every occurrence of `from` in `text`.
pub fn replace_all(text: &str, from: &str, to: &str) -> (r: String)
    ensures
        r@ == replaced(text@, from@, to@),
{
    let chars = crate::text::chars_of(text);
    let pattern = crate::text::chars_of(from);
    let len = chars.len();
    let mut result = String::new();
    let mut copied: usize = 0;
    let mut i: usize = 0;
    assert(text@.subrange(0, 0) =~= Seq::<char>::empty());
    while i < len
        invariant
            0 <= copied <= i <= len,
            len == chars.len(),
            chars@ == text@,
            pattern@ == from@,
            replaced(text@, from@, to@) == result@ + text@.subrange(copied as int, i as int)
                + replaced_from(text@, from@, to@, i as int),
        decreases len - i,
    {
        let ghost before = result@;
        let ghost pending = text@.subrange(copied as int, i as int);
        if pattern.len() > 0 && matches_at(&chars, &pattern, i) {
            result.append(text.substring_char(copied, i));
            result.append(to);
            i = i + pattern.len();
            copied = i;
            assert(text@.subrange(copied as int, i as int) =~= Seq::<char>::empty());
            assert(result@ + text@.subrange(copied as int, i as int) + replaced_from(
                text@,
                from@,
                to@,
                i as int,
            ) =~= before + pending + (to@ + replaced_from(text@, from@, to@, i as int)));
        } else {
            assert(text@.subrange(copied as int, i + 1) =~= pending.push(text@[i as int]));
            assert(result@ + text@.subrange(copied as int, i + 1) + replaced_from(
                text@,
                from@,
                to@,
                i + 1,
            ) =~= before + pending + (seq![text@[i as int]] + replaced_from(
                text@,
                from@,
                to@,
                i + 1,
            )));
            i = i + 1;
        }
    }
    result.append(text.substring_char(copied, len));
    assert(result@ =~= replaced(text@, from@, to@));
    result
}

proof fn lemma_first_close_bounds(text: Seq<char>, k: int)
    requires
        0 <= k,
    ensures
        first_close(text, k) matches Some(end) ==> k <= end < text.len() && text[end] == '}',
    decreases text.len() - k,
{
    if k < text.len() && text[k] != '}' {
        lemma_first_close_bounds(text, k + 1);
    }
}

/// Finds the placeholders of a text, from left to right.
pub fn placeholders(content: &str) -> (found: Vec<Placeholder>)
    ensures
        placeholder_views(found@) == placeholders_of(content@),
{
    let chars = crate::text::chars_of(content);
    let len = chars.len();
    let mut found: Vec<Placeholder> = Vec::new();
    let mut i: usize = 0;
    while i < len
        invariant
            0 <= i <= len,
            len == chars.len(),
            chars@ == content@,
            placeholders_of(content@) == placeholder_views(found@) + placeholders_from(
                content@,
                i as int,
            ),
        decreases len - i,
    {
        let ghost before = placeholder_views(found@);
        let mut end: Option<usize> = None;
        if len - i > 2 && chars[i] == '$' && chars[i + 1] == '{' && chars[i + 2] != '}' {
            let mut k: usize = i + 3;
            while k < len && chars[k] != '}'
                invariant
                    i + 3 <= k <= len,
                    len == chars.len(),
                    chars@ == content@,
                    first_close(content@, i + 3) == first_close(content@, k as int),
                decreases len - k,
            {
                k = k + 1;
            }
            if k < len {
                end = Some(k);
            }
        }
        proof {
            lemma_first_close_bounds(content@, i + 3);
        }
        match end {
            Some(k) => {
                let text = String::from_str(content.substring_char(i, k + 1));
                let name = String::from_str(content.substring_char(i + 2, k));
                found.push(Placeholder { text, name });
                assert(placeholder_views(found@) =~= before.push(
                    (content@.subrange(i as int, k + 1), content@.subrange(i + 2, k as int)),
                ));
                assert(placeholder_views(found@) + placeholders_from(content@, k + 1)
                    =~= before + placeholders_from(content@, i as int));
                i = k + 1;
            },
            None => {
                i = i + 1;
            },
        }
    }
    assert(placeholders_from(content@, len as int) =~= Seq::empty());
    assert(placeholder_views(found@) + Seq::empty() =~= placeholder_views(found@));
    found
}

/// Expands the placeholders of a text. `values` holds, for each placeholder
/// in order, the value of its variable, or `None` where the variable is not
/// set; a placeholder beyond the end of `values` counts as not set.
pub fn expand_env_vars(content: &str, values: &Vec<Option<String>>) -> (r: String)
    ensures
        r@ == expanded(
            content@,
            placeholders_of(content@),
            values.deep_view(),
            placeholders_of(content@).len() as int,
        ),
{
    let found = placeholders(content);
    let ghost views = placeholders_of(content@);
    let mut result = String::from_str(content);
    let mut n: usize = 0;
    while n < found.len()
        invariant
            0 <= n <= found.len(),
            views == placeholders_of(content@),
            views == placeholder_views(found@),
            result@ == expanded(content@, views, values.deep_view(), n as int),
        decreases found.len() - n,
    {
        if n < values.len() {
            match &values[n] {
                Some(value) => {
                    assert(values.deep_view()[n as int] == Some(value@));
                    result = replace_all(result.as_str(), found[n].text.as_str(), value.as_str());
                },
                None => {
                    assert(values.deep_view()[n as int] is None);
                },
            }
        }
        n = n + 1;
    }
    result
}

} // verus!
