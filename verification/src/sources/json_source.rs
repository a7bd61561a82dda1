//! A measurement taken from a JSON document by a path query.
//!
//! The document is parsed by `serde_json` and queried by `jsonpath_rust`.
//! Where the query yields an array, its first element is taken; anything
//! else is taken as it is. A number or a string is a measurement; any other
//! kind of value is not. A query that matches nothing yields no value.

use vstd::prelude::*;

use crate::config::JsonSourceConfig;
use crate::error::SourceError;
use crate::error::SourceFailure;
use crate::sources::raw_view;
use crate::sources::RawKind;
use crate::sources::RawValue;
use crate::text::join;

verus! {

/// A parsed JSON document. Nothing here looks inside one.
#[verifier::external_type_specification]
#[verifier::external_body]
pub struct ExJsonDocument(serde_json::Value);

/// One JSON value, as far as a source reads it.
#[derive(Debug, Clone, PartialEq, Eq)]
pub enum JsonItem {
    Null,
    Bool(bool),
    /// A number, in the decimal notation that `serde_json` prints.
    Number(String),
    Text(String),
    /// An array, as `serde_json` prints it for debugging.
    Array(String),
    /// An object, as `serde_json` prints it for debugging.
    Object(String),
}

/// What a query yielded.
#[derive(Debug, Clone, PartialEq, Eq)]
pub enum JsonFound {
    /// An array, with its elements in order.
    Array(Vec<JsonItem>),
    /// Any other value.
    Scalar(JsonItem),
}

/// The document that `serde_json` reads from a text, or the text of its error.
pub uninterp spec fn json_document(content: Seq<char>) -> Result<serde_json::Value, Seq<char>>;

/// What `jsonpath_rust` yields for a query on a document: a value, or the
/// text of the error with which it refuses the query.
pub uninterp spec fn json_query(document: serde_json::Value, path: Seq<char>) -> Result<
    serde_json::Value,
    Seq<char>,
>;

/// What a JSON value holds, as far as a source reads it.
pub uninterp spec fn json_found(value: serde_json::Value) -> JsonFound;

/// A parsed document or the text of an error, with the text by its characters.
pub open spec fn document_view(r: Result<serde_json::Value, String>) -> Result<
    serde_json::Value,
    Seq<char>,
> {
    match r {
        Ok(document) => Ok(document),
        Err(text) => Err(text@),
    }
}

/// What a scan of a query remembers from one character to the next.
#[derive(Debug, Clone, Copy, PartialEq, Eq)]
pub struct PathScan {
    /// The query is refused.
    pub rejected: bool,
    /// Inside a quoted string: the quote that opened it.
    pub quote: Option<char>,
    /// Inside a quoted string: the previous character is a backslash that
    /// escapes this one.
    pub escaped: bool,
    /// Length of the run of digits that ends at the previous character.
    pub digits: u8,
    /// An opening bracket was passed, and only whitespace since.
    pub after_open: bool,
    /// The run in progress began right after an opening bracket or a comma.
    pub bounded: bool,
    /// The previous character belongs to a run of number characters.
    pub in_run: bool,
    /// The last token is a run of number characters, all of them digits.
    pub plain: bool,
    /// A comma was passed, and only whitespace since.
    pub after_comma: bool,
    /// The token before that comma was a run of digits.
    pub left_plain: bool,
    /// The run in progress follows a comma.
    pub owed: bool,
    /// Colons passed since the last bracket, up to two.
    pub colons: u8,
    /// Levels of nesting: brackets and parentheses that are open, and every
    /// `@` passed so far, up to the limit.
    pub depth: u8,
    /// The previous character belongs to a run of key characters.
    pub in_word: bool,
    /// That run began after a dot, so it is the key of a field.
    pub word_is_key: bool,
    /// The last character that is no whitespace is a dot.
    pub prev_dot: bool,
    /// The last token is an operator or an opening parenthesis, so an
    /// operand of a filter may begin here.
    pub operand_next: bool,
    /// Inside brackets that began where an operand may begin and that have
    /// held nothing but numbers and commas so far.
    pub candidate: bool,
    /// Those brackets hold a number that could not stand in an index.
    pub pending: bool,
    /// Those brackets hold a comma.
    pub had_comma: bool,
    /// Such brackets have just closed around a list with a number that
    /// could not stand in an index, and only whitespace since.
    pub closed_pending: bool,
}

/// The number of levels that a query may nest.
pub const MAX_DEPTH: u8 = 32;

pub open spec fn is_space(c: char) -> bool {
    c == ' ' || c == '\t' || c == '\n' || c == '\r'
}

pub open spec fn is_quote(c: char) -> bool {
    c == '\'' || c == '"'
}

pub open spec fn is_digit_char(c: char) -> bool {
    '0' <= c && c <= '9'
}

/// Whether a character can stand in a number: a digit, a sign, the point or
/// the mark of an exponent.
pub open spec fn is_number_char(c: char) -> bool {
    is_digit_char(c) || c == '+' || c == '-' || c == '.' || c == 'e' || c == 'E'
}

/// Whether a character can stand in the unquoted key of a field.
pub open spec fn is_key_char(c: char) -> bool {
    is_digit_char(c) || ('a' <= c && c <= 'z') || ('A' <= c && c <= 'Z') || c == '_' || c == '-'
        || c == '/' || c == '\\' || c == '#'
}

/// Whether a character can stand in a list of numbers.
pub open spec fn is_list_char(c: char) -> bool {
    is_number_char(c) || c == ','
}

/// Whether a character opens a level of nesting.
pub open spec fn is_opening(c: char) -> bool {
    c == '[' || c == '(' || c == '@'
}

/// Whether a character closes a bracket or a parenthesis.
pub open spec fn is_closing(c: char) -> bool {
    c == ']' || c == ')'
}

/// Whether a character can begin the next step of a path.
pub open spec fn continues_path(c: char) -> bool {
    c == '.' || c == '[' || c == '$' || c == '@'
}

/// Whether a character ends an operator of a filter, or opens a
/// parenthesis, so that an operand may follow.
pub open spec fn admits_operand(c: char) -> bool {
    c == '(' || c == '!' || c == '&' || c == '|' || c == '=' || c == '<' || c == '>'
}

/// The state in which a scan starts.
pub open spec fn scan_start() -> PathScan {
    PathScan {
        rejected: false,
        quote: None,
        escaped: false,
        digits: 0,
        after_open: false,
        bounded: false,
        in_run: false,
        plain: false,
        after_comma: false,
        left_plain: false,
        owed: false,
        colons: 0,
        depth: 0,
        in_word: false,
        word_is_key: false,
        prev_dot: false,
        operand_next: false,
        candidate: false,
        pending: false,
        had_comma: false,
        closed_pending: false,
    }
}

/// Whether the run that the next number character belongs to began right
/// after an opening bracket or a comma.
pub open spec fn starts_bounded(s: PathScan) -> bool {
    if s.in_run {
        s.bounded
    } else {
        s.after_open || s.after_comma
    }
}

/// Whether the run of key characters that the next one belongs to is the
/// key of a field.
pub open spec fn continues_key(s: PathScan) -> bool {
    if s.in_word {
        s.word_is_key
    } else {
        s.prev_dot
    }
}

/// Whether `c` is out of place in a single index or in a list of indices:
/// a digit after a comma whose left neighbour is no run of digits, or the
/// nineteenth digit of a number in brackets; any other number character
/// right after a comma or amid the digits that follow one; and anything but
/// a number or a quoted string right after a comma.
pub open spec fn index_violation(s: PathScan, c: char) -> bool {
    if is_digit_char(c) {
        (s.after_comma && !s.left_plain) || (s.digits >= 18 && starts_bounded(s))
    } else if is_number_char(c) {
        s.after_comma || (s.owed && s.in_run)
    } else {
        s.after_comma
    }
}

/// The state after a character inside a quoted string.
pub open spec fn scan_string(s: PathScan, c: char) -> PathScan {
    if s.escaped {
        PathScan { escaped: false, ..s }
    } else if c == '\\' {
        PathScan { escaped: true, ..s }
    } else if Some(c) == s.quote {
        PathScan { quote: None, ..s }
    } else {
        s
    }
}

/// The state after whitespace outside any string. Whitespace ends a run
/// and changes nothing else: what may follow a token may follow it after
/// whitespace too.
pub open spec fn scan_space(s: PathScan) -> PathScan {
    PathScan { digits: 0, bounded: false, in_run: false, owed: false, in_word: false, ..s }
}

/// The state after a quote that opens a string.
pub open spec fn scan_quote(s: PathScan, c: char) -> PathScan {
    PathScan {
        rejected: s.candidate && s.pending,
        quote: Some(c),
        escaped: false,
        digits: 0,
        after_open: false,
        bounded: false,
        in_run: false,
        plain: false,
        after_comma: false,
        owed: false,
        in_word: false,
        prev_dot: false,
        operand_next: false,
        candidate: false,
        pending: false,
        had_comma: false,
        closed_pending: false,
        ..s
    }
}

/// The state after any other character outside any string.
pub open spec fn scan_token(s: PathScan, c: char) -> PathScan {
    let tolerated = index_violation(s, c) && s.candidate && is_list_char(c);
    let stays = s.candidate && is_list_char(c);
    PathScan {
        rejected: (index_violation(s, c) && !tolerated) || (s.candidate && s.pending && (if c
            == ']' {
            !s.had_comma
        } else {
            !is_list_char(c)
        })) || (s.colons == 2 && c == '0' && s.digits == 0) || (is_opening(c) && s.depth
            >= MAX_DEPTH),
        quote: None,
        escaped: false,
        digits: if !is_digit_char(c) {
            0
        } else if s.digits >= 18 {
            18
        } else {
            (s.digits + 1) as u8
        },
        after_open: c == '[',
        bounded: is_number_char(c) && starts_bounded(s),
        in_run: is_number_char(c),
        plain: is_digit_char(c) && (!s.in_run || s.plain),
        after_comma: c == ',',
        left_plain: if c == ',' {
            s.plain
        } else {
            s.left_plain
        },
        owed: is_digit_char(c) && (s.after_comma || (s.owed && s.in_run)),
        colons: if c == '[' || c == ']' {
            0
        } else if c == ':' && s.colons < 2 {
            (s.colons + 1) as u8
        } else {
            s.colons
        },
        depth: if is_opening(c) && s.depth < MAX_DEPTH {
            (s.depth + 1) as u8
        } else if is_closing(c) && s.depth > 0 {
            (s.depth - 1) as u8
        } else {
            s.depth
        },
        in_word: is_key_char(c),
        word_is_key: is_key_char(c) && continues_key(s),
        prev_dot: c == '.',
        operand_next: if is_key_char(c) {
            !continues_key(s)
        } else {
            admits_operand(c)
        },
        candidate: if c == '[' {
            s.operand_next
        } else {
            stays
        },
        pending: c != '[' && stays && (s.pending || tolerated),
        had_comma: c != '[' && stays && (s.had_comma || c == ','),
        closed_pending: c == ']' && s.candidate && s.pending && s.had_comma,
    }
}

/// The state after one more character.
pub open spec fn scan_step(s: PathScan, c: char) -> PathScan {
    if s.rejected {
        s
    } else if s.quote is Some {
        scan_string(s, c)
    } else if is_space(c) {
        scan_space(s)
    } else if s.closed_pending && continues_path(c) {
        PathScan { rejected: true, ..s }
    } else if is_quote(c) {
        scan_quote(s, c)
    } else {
        scan_token(s, c)
    }
}

/// The state after the whole of a text.
pub open spec fn scan(text: Seq<char>) -> PathScan
    decreases text.len(),
{
    if text.len() == 0 {
        scan_start()
    } else {
        scan_step(scan(text.drop_last()), text.last())
    }
}

/// Whether every index that a query spells out can be evaluated, and the
/// query nests no deeper than the limit. Outside quoted strings the query
/// must hold
/// - no run of more than 18 digits in a number that follows an opening
///   bracket or a comma,
/// - no comma but one that is followed by a quoted string, or that stands
///   between two runs of digits with nothing but whitespace around it,
/// - no slice whose third part, the step, starts with a zero,
/// - no more than 32 levels of nesting, where every opening bracket and
///   parenthesis counts until it is closed, and every `@` counts to the end.
///
/// The first two rules are waived for a list of numbers that is an operand
/// of a filter and not an index: brackets that follow an operator or an
/// opening parenthesis, hold numbers and at least one comma and nothing
/// else, and are not followed by a further step of a path. A word that does
/// not follow a dot counts as an operator.
pub open spec fn indices_in_range(path: Seq<char>) -> bool {
    let end = scan(path);
    !end.rejected && !end.after_comma && !end.pending && !end.closed_pending
}

/// Calls `serde_json::from_str` for a `serde_json::Value` and hands back
/// the value, or the text of the error.
#[verifier::external_body]
fn parse_json(content: &str) -> (r: Result<serde_json::Value, String>)
    ensures
        document_view(r) == json_document(content@),
{
    serde_json::from_str::<serde_json::Value>(content).map_err(|e| e.to_string())
}

/// Calls `jsonpath_rust::JsonPathQuery::path` on a copy of the document and
/// hands back what it yields, or the text of the error.
///
/// The evaluator behind that call unwraps every bracketed index as a `u64`
/// and steps through a slice with `step_by`, so it stops the program on an
/// index that is negative, fractional or beyond `i64`, and on a step of zero.
/// In a query that its parser accepts, a single index is a run of digits, the
/// numbers of an index list each stand next to a comma outside any string,
/// and a step follows the second colon of its brackets; `indices_in_range`
/// admits none of these unless it is a run of at most 18 digits, and no step
/// that starts with a zero. The one list that the evaluator never uses as an
/// index is an operand of a filter that consists of the list alone; the
/// parser makes a value of it, and only such a list is exempt.
///
/// The parser gives up where less than 64 KiB of the thread's stack are
/// left, and the evaluator descends without looking; both descend once for
/// each `[`, `(` and `@` that is open, and an `@` stays open to the end of
/// its path. `indices_in_range` counts every bracket and parenthesis while
/// it is open and every `@` from where it stands to the end of the query,
/// and admits no query in which the count passes 32, whatever its length.
/// So the depth to which the call descends is bounded, and with it the
/// stack that the call needs.
#[verifier::external_body]
fn query_json(document: &serde_json::Value, path: &str) -> (r: Result<serde_json::Value, String>)
    requires
        indices_in_range(path@),
    ensures
        document_view(r) == json_query(*document, path@),
{
    jsonpath_rust::JsonPathQuery::path(document.clone(), path).map_err(|e| e.to_string())
}

/// Tells the variants of a `serde_json::Value` apart and hands back what a
/// source reads of it: the elements of an array one by one, any other value
/// as a single item. A number is carried by its `Display` text, a nested
/// array or object by its `Debug` text.
#[verifier::external_body]
fn found_in(value: &serde_json::Value) -> (found: JsonFound)
    ensures
        found == json_found(*value),
{
    let item = |v: &serde_json::Value| match v {
        serde_json::Value::Null => JsonItem::Null,
        serde_json::Value::Bool(b) => JsonItem::Bool(*b),
        serde_json::Value::Number(n) => JsonItem::Number(n.to_string()),
        serde_json::Value::String(s) => JsonItem::Text(s.clone()),
        serde_json::Value::Array(_) => JsonItem::Array(format!("{:?}", v)),
        serde_json::Value::Object(_) => JsonItem::Object(format!("{:?}", v)),
    };
    match value {
        serde_json::Value::Array(items) => JsonFound::Array(items.iter().map(item).collect()),
        single => JsonFound::Scalar(item(single)),
    }
}

/// What kind of character one is.
struct CharKind {
    space: bool,
    quote: bool,
    digit: bool,
    number: bool,
    key: bool,
    opening: bool,
    closing: bool,
    continues: bool,
    admits: bool,
}

fn kind_of(c: char) -> (k: CharKind)
    ensures
        k.space == is_space(c),
        k.quote == is_quote(c),
        k.digit == is_digit_char(c),
        k.number == is_number_char(c),
        k.key == is_key_char(c),
        k.opening == is_opening(c),
        k.closing == is_closing(c),
        k.continues == continues_path(c),
        k.admits == admits_operand(c),
{
    let digit = '0' <= c && c <= '9';
    CharKind {
        space: c == ' ' || c == '\t' || c == '\n' || c == '\r',
        quote: c == '\'' || c == '"',
        digit,
        number: digit || c == '+' || c == '-' || c == '.' || c == 'e' || c == 'E',
        key: digit || ('a' <= c && c <= 'z') || ('A' <= c && c <= 'Z') || c == '_' || c == '-'
            || c == '/' || c == '\\' || c == '#',
        opening: c == '[' || c == '(' || c == '@',
        closing: c == ']' || c == ')',
        continues: c == '.' || c == '[' || c == '$' || c == '@',
        admits: c == '(' || c == '!' || c == '&' || c == '|' || c == '=' || c == '<' || c == '>',
    }
}

/// Advances a scan by a character that is no space and no quote, outside
/// any string.
fn step_token(s: PathScan, c: char, k: CharKind) -> (next: PathScan)
    requires
        k.digit == is_digit_char(c),
        k.number == is_number_char(c),
        k.key == is_key_char(c),
        k.opening == is_opening(c),
        k.closing == is_closing(c),
        k.admits == admits_operand(c),
    ensures
        next == scan_token(s, c),
{
    let bounded = if s.in_run {
        s.bounded
    } else {
        s.after_open || s.after_comma
    };
    let is_key = if s.in_word {
        s.word_is_key
    } else {
        s.prev_dot
    };
    let list = k.number || c == ',';
    let violation = if k.digit {
        (s.after_comma && !s.left_plain) || (s.digits >= 18 && bounded)
    } else if k.number {
        s.after_comma || (s.owed && s.in_run)
    } else {
        s.after_comma
    };
    assert(violation == index_violation(s, c));
    assert(bounded == starts_bounded(s));
    assert(is_key == continues_key(s));
    assert(list == is_list_char(c));
    let tolerated = violation && s.candidate && list;
    let stays = s.candidate && list;
    PathScan {
        rejected: (violation && !tolerated) || (s.candidate && s.pending && (if c == ']' {
            !s.had_comma
        } else {
            !list
        })) || (s.colons == 2 && c == '0' && s.digits == 0) || (k.opening && s.depth >= MAX_DEPTH),
        quote: None,
        escaped: false,
        digits: if !k.digit {
            0
        } else if s.digits >= 18 {
            18
        } else {
            s.digits + 1
        },
        after_open: c == '[',
        bounded: k.number && bounded,
        in_run: k.number,
        plain: k.digit && (!s.in_run || s.plain),
        after_comma: c == ',',
        left_plain: if c == ',' {
            s.plain
        } else {
            s.left_plain
        },
        owed: k.digit && (s.after_comma || (s.owed && s.in_run)),
        colons: if c == '[' || c == ']' {
            0
        } else if c == ':' && s.colons < 2 {
            s.colons + 1
        } else {
            s.colons
        },
        depth: if k.opening && s.depth < MAX_DEPTH {
            s.depth + 1
        } else if k.closing && s.depth > 0 {
            s.depth - 1
        } else {
            s.depth
        },
        in_word: k.key,
        word_is_key: k.key && is_key,
        prev_dot: c == '.',
        operand_next: if k.key {
            !is_key
        } else {
            k.admits
        },
        candidate: if c == '[' {
            s.operand_next
        } else {
            stays
        },
        pending: c != '[' && stays && (s.pending || tolerated),
        had_comma: c != '[' && stays && (s.had_comma || c == ','),
        closed_pending: c == ']' && s.candidate && s.pending && s.had_comma,
    }
}

fn step_string(s: PathScan, c: char) -> (next: PathScan)
    ensures
        next == scan_string(s, c),
{
    if s.escaped {
        PathScan { escaped: false, ..s }
    } else if c == '\\' {
        PathScan { escaped: true, ..s }
    } else if s.quote == Some(c) {
        PathScan { quote: None, ..s }
    } else {
        s
    }
}

fn step_space(s: PathScan) -> (next: PathScan)
    ensures
        next == scan_space(s),
{
    PathScan { digits: 0, bounded: false, in_run: false, owed: false, in_word: false, ..s }
}

fn step_quote(s: PathScan, c: char) -> (next: PathScan)
    ensures
        next == scan_quote(s, c),
{
    PathScan {
        rejected: s.candidate && s.pending,
        quote: Some(c),
        escaped: false,
        digits: 0,
        after_open: false,
        bounded: false,
        in_run: false,
        plain: false,
        after_comma: false,
        owed: false,
        in_word: false,
        prev_dot: false,
        operand_next: false,
        candidate: false,
        pending: false,
        had_comma: false,
        closed_pending: false,
        ..s
    }
}

/// Advances a scan by one character.
fn step(s: PathScan, c: char) -> (next: PathScan)
    ensures
        next == scan_step(s, c),
{
    if s.rejected {
        return s;
    }
    if s.quote.is_some() {
        return step_string(s, c);
    }
    let k = kind_of(c);
    if k.space {
        step_space(s)
    } else if s.closed_pending && k.continues {
        PathScan { rejected: true, ..s }
    } else if k.quote {
        step_quote(s, c)
    } else {
        step_token(s, c, k)
    }
}

/// Decides whether every index that a query spells out can be evaluated,
/// and whether the query nests no deeper than the limit.
pub fn check_indices(path: &str) -> (ok: bool)
    ensures
        ok == indices_in_range(path@),
{
    let chars = crate::text::chars_of(path);
    let len = chars.len();
    let mut state = PathScan {
        rejected: false,
        quote: None,
        escaped: false,
        digits: 0,
        after_open: false,
        bounded: false,
        in_run: false,
        plain: false,
        after_comma: false,
        left_plain: false,
        owed: false,
        colons: 0,
        depth: 0,
        in_word: false,
        word_is_key: false,
        prev_dot: false,
        operand_next: false,
        candidate: false,
        pending: false,
        had_comma: false,
        closed_pending: false,
    };
    let mut i: usize = 0;
    assert(path@.take(0) =~= Seq::<char>::empty());
    while i < len
        invariant
            0 <= i <= len,
            len == chars.len(),
            chars@ == path@,
            state == scan(path@.take(i as int)),
        decreases len - i,
    {
        assert(path@.take(i + 1).drop_last() =~= path@.take(i as int));
        state = step(state, chars[i]);
        i = i + 1;
    }
    assert(path@.take(len as int) =~= path@);
    !state.rejected && !state.after_comma && !state.pending && !state.closed_pending
}

/// How a value that is no measurement is named in a message.
pub open spec fn item_label(item: JsonItem) -> Seq<char> {
    match item {
        JsonItem::Null => "Null"@,
        JsonItem::Bool(flag) => if flag {
            "Bool(true)"@
        } else {
            "Bool(false)"@
        },
        JsonItem::Number(text) => text@,
        JsonItem::Text(text) => text@,
        JsonItem::Array(text) => text@,
        JsonItem::Object(text) => text@,
    }
}

/// The measurement that a JSON value is: a number or a string, nothing else.
pub open spec fn measurement_of(item: JsonItem) -> Result<(RawKind, Seq<char>), SourceFailure> {
    match item {
        JsonItem::Number(text) => Ok((RawKind::Number, text@)),
        JsonItem::Text(text) => Ok((RawKind::Text, text@)),
        _ => Err(SourceFailure::InvalidValueType("Expected number, got "@ + item_label(item))),
    }
}

/// Whether a query yielded nothing: an empty array, or a null that stands
/// alone. The query engine wraps whatever it matches in an array, a null
/// included, and hands back a bare null where nothing matched.
pub open spec fn yields_nothing(found: JsonFound) -> bool {
    match found {
        JsonFound::Array(items) => items@.len() == 0,
        JsonFound::Scalar(item) => item is Null,
    }
}

/// The measurement in what a query yielded: none where it yielded nothing,
/// else the first element of an array, or the value itself.
pub open spec fn extracted(found: JsonFound, json_path: Seq<char>) -> Result<
    (RawKind, Seq<char>),
    SourceFailure,
> {
    if yields_nothing(found) {
        Err(SourceFailure::ValueNotFound("No value found at path: "@ + json_path))
    } else {
        match found {
            JsonFound::Array(items) => measurement_of(items@[0]),
            JsonFound::Scalar(item) => measurement_of(item),
        }
    }
}

/// The measurement that a query locates in a document, over what the two
/// outside crates make of the text and of the query.
pub open spec fn located(content: Seq<char>, json_path: Seq<char>) -> Result<
    (RawKind, Seq<char>),
    SourceFailure,
> {
    match json_document(content) {
        Err(text) => Err(SourceFailure::JsonError(text)),
        Ok(document) => if !indices_in_range(json_path) {
            Err(SourceFailure::JsonError("Invalid JSONPath: index out of range"@))
        } else {
            match json_query(document, json_path) {
                Err(text) => Err(SourceFailure::JsonError("Invalid JSONPath: "@ + text)),
                Ok(value) => extracted(json_found(value), json_path),
            }
        },
    }
}

fn measurement(item: &JsonItem) -> (r: Result<RawValue, SourceError>)
    ensures
        raw_view(r) == measurement_of(*item),
{
    match item {
        JsonItem::Number(text) => Ok(RawValue { kind: RawKind::Number, text: text.clone() }),
        JsonItem::Text(text) => Ok(RawValue { kind: RawKind::Text, text: text.clone() }),
        JsonItem::Null => Err(not_a_number("Null")),
        JsonItem::Bool(flag) => if *flag {
            Err(not_a_number("Bool(true)"))
        } else {
            Err(not_a_number("Bool(false)"))
        },
        JsonItem::Array(text) => Err(not_a_number(text.as_str())),
        JsonItem::Object(text) => Err(not_a_number(text.as_str())),
    }
}

fn not_a_number(label: &str) -> (e: SourceError)
    ensures
        e@ == SourceFailure::InvalidValueType("Expected number, got "@ + label@),
{
    SourceError::InvalidValueType(join("Expected number, got ", label))
}

/// Takes the measurement out of what a query yielded. An empty array and a
/// null that stands alone hold none; the first element of any other array,
/// or the value itself, is one exactly if it is a number or a string.
pub fn extract_value(found: &JsonFound, json_path: &str) -> (r: Result<RawValue, SourceError>)
    ensures
        raw_view(r) == extracted(*found, json_path@),
{
    match found {
        JsonFound::Array(items) => {
            if items.len() == 0 {
                Err(SourceError::ValueNotFound(join("No value found at path: ", json_path)))
            } else {
                measurement(&items[0])
            }
        },
        JsonFound::Scalar(JsonItem::Null) => Err(
            SourceError::ValueNotFound(join("No value found at path: ", json_path)),
        ),
        JsonFound::Scalar(item) => measurement(item),
    }
}

/// Parses a document, evaluates the query on it and takes the measurement
/// out of what it yields. A query that spells out an index that cannot be
/// evaluated is refused like a malformed one.
pub fn locate(content: &str, json_path: &str) -> (r: Result<RawValue, SourceError>)
    ensures
        raw_view(r) == located(content@, json_path@),
{
    let document = match parse_json(content) {
        Ok(document) => document,
        Err(text) => {
            return Err(SourceError::JsonError(text));
        },
    };
    if !check_indices(json_path) {
        return Err(SourceError::JsonError(String::from_str("Invalid JSONPath: index out of range")));
    }
    match query_json(&document, json_path) {
        Ok(value) => {
            let found = found_in(&value);
            extract_value(&found, json_path)
        },
        Err(text) => Err(SourceError::JsonError(join("Invalid JSONPath: ", text.as_str()))),
    }
}

/// A source that takes its measurement from a JSON file.
#[derive(Debug, Clone)]
pub struct JsonSource {
    path: String,
    json_path: String,
    unit: String,
    multiplier_bits: u64,
    source_id: String,
}

/// What a `JsonSource` holds.
pub struct JsonSourceView {
    pub path: Seq<char>,
    pub json_path: Seq<char>,
    pub unit: Seq<char>,
    pub multiplier_bits: u64,
    pub source_id: Seq<char>,
}

impl View for JsonSource {
    type V = JsonSourceView;

    closed spec fn view(&self) -> JsonSourceView {
        JsonSourceView {
            path: self.path@,
            json_path: self.json_path@,
            unit: self.unit@,
            multiplier_bits: self.multiplier_bits,
            source_id: self.source_id@,
        }
    }
}

/// The source that a configuration describes.
pub open spec fn json_source_of(config: JsonSourceConfig) -> JsonSourceView {
    JsonSourceView {
        path: config.path@,
        json_path: config.json_path@,
        unit: config.unit@,
        multiplier_bits: config.multiplier_bits,
        source_id: "json:"@ + config.path@,
    }
}

impl JsonSource {
    /// Builds the source; every configuration is accepted.
    pub fn new(config: &JsonSourceConfig) -> (r: Result<JsonSource, SourceError>)
        ensures
            r matches Ok(source) && source@ == json_source_of(*config),
    {
        Ok(
            JsonSource {
                path: config.path.clone(),
                json_path: config.json_path.clone(),
                unit: config.unit.clone(),
                multiplier_bits: config.multiplier_bits,
                source_id: join("json:", config.path.as_str()),
            },
        )
    }

    /// Locates the measurement in the text of the file.
    pub fn extract_value(&self, content: &str) -> (r: Result<RawValue, SourceError>)
        ensures
            raw_view(r) == located(content@, self@.json_path),
    {
        locate(content, self.json_path.as_str())
    }

    /// The identifier under which this source appears in logs.
    pub fn source_id(&self) -> (r: &str)
        ensures
            r@ == self@.source_id,
    {
        self.source_id.as_str()
    }

    /// The path of the file.
    pub fn path(&self) -> (r: &str)
        ensures
            r@ == self@.path,
    {
        self.path.as_str()
    }

    /// The unit label of the readings.
    pub fn unit(&self) -> (r: &str)
        ensures
            r@ == self@.unit,
    {
        self.unit.as_str()
    }

    /// The scale factor, as the bit pattern of a double.
    pub fn multiplier_bits(&self) -> (r: u64)
        ensures
            r == self@.multiplier_bits,
    {
        self.multiplier_bits
    }
}

} // verus!
