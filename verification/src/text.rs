//! Text: the parts of strings that the service reads, and the JSON it writes.
use vstd::prelude::*;
use vstd::string::*;
use vstd::utf8::*;

verus! {

broadcast use vstd::seq_lib::group_seq_properties;

/// The characters of an optional string.
pub open spec fn opt_text(value: Option<String>) -> Option<Seq<char>> {
    match value {
        Some(text) => Some(text@),
        None => None,
    }
}

/// A character with the Unicode property `White_Space`.
pub open spec fn is_white_space(c: char) -> bool {
    let code = c as u32;
    ||| 0x09 <= code <= 0x0d
    ||| code == 0x20
    ||| code == 0x85
    ||| code == 0xa0
    ||| code == 0x1680
    ||| 0x2000 <= code <= 0x200a
    ||| code == 0x2028
    ||| code == 0x2029
    ||| code == 0x202f
    ||| code == 0x205f
    ||| code == 0x3000
}

/// `text` without its leading and trailing white space.
pub open spec fn trimmed(text: Seq<char>) -> Seq<char>
    decreases text.len(),
{
    if text.len() == 0 {
        text
    } else if is_white_space(text[0]) {
        trimmed(text.subrange(1, text.len() as int))
    } else if is_white_space(text[text.len() - 1]) {
        trimmed(text.subrange(0, text.len() - 1))
    } else {
        text
    }
}

/// Calls `str::trim`, whose documentation says that leading and trailing
/// characters with the Unicode property `White_Space` are removed.
#[verifier::external_body]
pub(crate) fn trim(text: &str) -> (result: &str)
    ensures
        result@ == trimmed(text@),
{
    text.trim()
}

/// Whether two texts hold the same characters.
pub fn same_text(left: &str, right: &str) -> (result: bool)
    ensures
        result == (left@ == right@),
{
    left.to_owned() == right.to_owned()
}

/// The length of a text in bytes.
pub fn byte_len(text: &str) -> (result: usize)
    ensures
        result == encode_utf8(text@).len(),
{
    text.as_bytes().len()
}

/// Whether `wanted` occurs in `text`.
pub fn contains_char(text: &str, wanted: char) -> (result: bool)
    ensures
        result == text@.contains(wanted),
{
    let mut found: bool = false;
    for c in it: text.chars()
        invariant
            it.seq() == text@,
            found == text@.subrange(0, it.index() as int).contains(wanted),
    {
        if c == wanted {
            found = true;
        }
        proof {
            let i = it.index() as int;
            assert(text@.subrange(0, i + 1) == text@.subrange(0, i).push(text@[i]));
        }
    }
    assert(text@.subrange(0, text@.len() as int) == text@);
    found
}

/// What follows `prefix`, where `text` starts with it.
pub open spec fn after_prefix(text: Seq<char>, prefix: Seq<char>) -> Option<Seq<char>> {
    if prefix.is_prefix_of(text) {
        Some(text.subrange(prefix.len() as int, text.len() as int))
    } else {
        None
    }
}

/// The view of an optional borrowed text.
pub open spec fn opt_str(value: Option<&str>) -> Option<Seq<char>> {
    match value {
        Some(text) => Some(text@),
        None => None,
    }
}

/// What follows `prefix` in `text`, or `None` where `text` does not start with it.
pub fn strip_prefix<'a>(text: &'a str, prefix: &str) -> (result: Option<&'a str>)
    ensures
        opt_str(result) == after_prefix(text@, prefix@),
{
    let length: usize = text.unicode_len();
    let skipped: usize = prefix.unicode_len();
    if skipped > length {
        return None;
    }
    let head = text.substring_char(0, skipped);
    if same_text(head, prefix) {
        assert(prefix@.is_prefix_of(text@)) by {
            assert(text@.subrange(0, prefix@.len() as int) == prefix@);
        }
        Some(text.substring_char(skipped, length))
    } else {
        assert(!prefix@.is_prefix_of(text@)) by {
            if prefix@.is_prefix_of(text@) {
                assert(text@.subrange(0, prefix@.len() as int) == prefix@);
            }
        }
        None
    }
}

/// The position of the first `wanted` in `text`, or the length of `text`.
pub open spec fn first_position(text: Seq<char>, wanted: char) -> int
    decreases text.len(),
{
    if text.len() == 0 || text[0] == wanted {
        0
    } else {
        1 + first_position(text.subrange(1, text.len() as int), wanted)
    }
}

/// The two sides of the first `separator` in `text`.
pub open spec fn split_at_first(text: Seq<char>, separator: char) -> Option<
    (Seq<char>, Seq<char>),
> {
    let at = first_position(text, separator);
    if at < text.len() {
        Some((text.subrange(0, at), text.subrange(at + 1, text.len() as int)))
    } else {
        None
    }
}

/// `first_position` is where it says: nothing before it is `wanted`.
pub proof fn first_position_is_first(text: Seq<char>, wanted: char)
    ensures
        0 <= first_position(text, wanted) <= text.len(),
        first_position(text, wanted) < text.len() ==> text[first_position(text, wanted)] == wanted,
        forall|i: int| 0 <= i < first_position(text, wanted) ==> text[i] != wanted,
    decreases text.len(),
{
    if text.len() != 0 && text[0] != wanted {
        let rest = text.subrange(1, text.len() as int);
        first_position_is_first(rest, wanted);
        assert forall|i: int| 0 <= i < first_position(text, wanted) implies text[i] != wanted by {
            if i > 0 {
                assert(rest[i - 1] == text[i]);
            }
        }
    }
}

/// Splits `text` on the first `separator`.
pub fn split_once<'a>(text: &'a str, separator: char) -> (result: Option<(&'a str, &'a str)>)
    ensures
        match result {
            Some((before, after)) => split_at_first(text@, separator) == Some((before@, after@)),
            None => split_at_first(text@, separator) is None,
        },
{
    proof {
        first_position_is_first(text@, separator);
    }
    let length: usize = text.unicode_len();
    let mut at: usize = length;
    let mut next: usize = 0;
    for c in it: text.chars()
        invariant
            it.seq() == text@,
            length == text@.len(),
            next == it.index(),
            at == length ==> forall|i: int| 0 <= i < next ==> text@[i] != separator,
            at != length ==> at < next && text@[at as int] == separator && forall|i: int|
                0 <= i < at ==> text@[i] != separator,
            at <= length,
    {
        if at == length && c == separator {
            at = next;
        }
        next = next + 1;
    }
    proof {
        let first = first_position(text@, separator);
        assert(at == first);
    }
    if at == length {
        None
    } else {
        Some((text.substring_char(0, at), text.substring_char(at + 1, length)))
    }
}

/// The character of a decimal or hexadecimal digit, in lower case.
pub open spec fn digit_char(value: int) -> char {
    if value < 10 {
        (48 + value) as char
    } else {
        (87 + value) as char
    }
}

/// The decimal digits of a natural number.
pub open spec fn decimal_digits(value: nat) -> Seq<char>
    decreases value,
{
    if value < 10 {
        seq![digit_char(value as int)]
    } else {
        decimal_digits(value / 10).push(digit_char((value % 10) as int))
    }
}

/// An integer in decimal, with a leading `-` where it is negative.
pub open spec fn decimal_text(value: int) -> Seq<char> {
    if value < 0 {
        seq!['-'] + decimal_digits((-value) as nat)
    } else {
        decimal_digits(value as nat)
    }
}

/// Calls `i64::to_string`: the number in decimal.
#[verifier::external_body]
pub(crate) fn decimal(value: i64) -> (result: String)
    ensures
        result@ == decimal_text(value as int),
{
    value.to_string()
}

/// What is read of bytes that are not all UTF-8.
pub uninterp spec fn utf8_lossy(bytes: Seq<u8>) -> Seq<char>;

/// Calls `String::from_utf8_lossy`: the text, where the bytes are UTF-8, and a
/// text with replacement characters in the place of what is not.
#[verifier::external_body]
pub(crate) fn read_lossy(bytes: &[u8]) -> (result: String)
    ensures
        result@ == utf8_lossy(bytes@),
        valid_utf8(bytes@) ==> result@ == decode_utf8(bytes@),
{
    String::from_utf8_lossy(bytes).into_owned()
}

/// What `String::from_utf8` says of bytes that it refuses.
pub uninterp spec fn utf8_fault(bytes: Seq<u8>) -> Seq<char>;

/// Calls `String::from_utf8`: the text, exactly where the bytes are UTF-8, and
/// otherwise an error, of which the text is handed on.
#[verifier::external_body]
pub(crate) fn read_utf8(bytes: Vec<u8>) -> (result: Result<String, String>)
    ensures
        result is Ok <==> valid_utf8(bytes@),
        result is Ok ==> result->Ok_0@ == decode_utf8(bytes@),
        result is Err ==> result->Err_0@ == utf8_fault(bytes@),
{
    match String::from_utf8(bytes) {
        Ok(text) => Ok(text),
        Err(error) => Err(error.to_string()),
    }
}

/// How one character stands inside a JSON string.
pub open spec fn json_escape(c: char) -> Seq<char> {
    if c == '"' {
        seq!['\\', '"']
    } else if c == '\\' {
        seq!['\\', '\\']
    } else if c == '\x08' {
        seq!['\\', 'b']
    } else if c == '\x0c' {
        seq!['\\', 'f']
    } else if c == '\n' {
        seq!['\\', 'n']
    } else if c == '\r' {
        seq!['\\', 'r']
    } else if c == '\t' {
        seq!['\\', 't']
    } else if (c as int) < 0x20 {
        seq!['\\', 'u', '0', '0', digit_char(c as int / 16), digit_char(c as int % 16)]
    } else {
        seq![c]
    }
}

/// The characters of `text`, each as it stands inside a JSON string.
pub open spec fn json_escaped(text: Seq<char>) -> Seq<char>
    decreases text.len(),
{
    if text.len() == 0 {
        seq![]
    } else {
        json_escape(text[0]) + json_escaped(text.subrange(1, text.len() as int))
    }
}

/// `text` as a JSON string, with its quotes.
pub open spec fn json_string(text: Seq<char>) -> Seq<char> {
    seq!['"'] + json_escaped(text) + seq!['"']
}

/// An optional text in JSON: a string, or `null`.
pub open spec fn json_optional(value: Option<Seq<char>>) -> Seq<char> {
    match value {
        Some(text) => json_string(text),
        None => "null"@,
    }
}

/// The error of `serde_json`.
#[verifier::external_type_specification]
#[verifier::external_body]
pub struct ExJsonError(serde_json::Error);

/// Calls `serde_json::to_string` on a text. Writing a string into memory does
/// not fail; the result is the text in quotes, where `"`, `\` and the
/// characters below U+0020 are escaped, the control characters without a
/// short form as `\u00` and two lower-case hexadecimal digits.
#[verifier::external_body]
pub(crate) fn serialize_json_string(text: &str) -> (result: Result<String, serde_json::Error>)
    ensures
        result is Ok,
        result->Ok_0@ == json_string(text@),
{
    serde_json::to_string(text)
}

/// Writes `text` as a JSON string.
pub fn quote(text: &str) -> (result: String)
    ensures
        result@ == json_string(text@),
{
    serialize_json_string(text).unwrap()
}

/// Writes an optional text in JSON.
pub fn quote_optional(value: &Option<String>) -> (result: String)
    ensures
        result@ == json_optional(opt_text(*value)),
{
    match value {
        Some(text) => quote(text.as_str()),
        None => "null".to_owned(),
    }
}

/// The escape of a character is known from where it starts: two texts that
/// start with the escapes of two characters are equal only where the characters
/// are the same and what follows is the same.
proof fn escape_is_prefix_free(a: char, b: char, after_a: Seq<char>, after_b: Seq<char>)
    requires
        json_escape(a) + after_a == json_escape(b) + after_b,
    ensures
        a == b,
        after_a == after_b,
{
    let left = json_escape(a) + after_a;
    let right = json_escape(b) + after_b;
    assert(left[0] == json_escape(a)[0]);
    assert(right[0] == json_escape(b)[0]);
    if json_escape(a).len() > 1 && json_escape(b).len() > 1 {
        assert(left[1] == json_escape(a)[1]);
        assert(right[1] == json_escape(b)[1]);
        if json_escape(a).len() == 6 && json_escape(b).len() == 6 {
            assert(left[4] == json_escape(a)[4]);
            assert(right[4] == json_escape(b)[4]);
            assert(left[5] == json_escape(a)[5]);
            assert(right[5] == json_escape(b)[5]);
            assert(a as int == (a as int / 16) * 16 + a as int % 16);
            assert(b as int == (b as int / 16) * 16 + b as int % 16);
        }
    }
    assert(a == b);
    let n = json_escape(a).len() as int;
    assert(left.subrange(n, left.len() as int) == after_a);
    assert(right.subrange(n, right.len() as int) == after_b);
}

proof fn escaped_is_injective(a: Seq<char>, b: Seq<char>)
    requires
        json_escaped(a) == json_escaped(b),
    ensures
        a == b,
    decreases a.len(),
{
    if a.len() == 0 || b.len() == 0 {
        if a.len() != 0 {
            assert(json_escaped(a)[0] == json_escape(a[0])[0]);
        }
        if b.len() != 0 {
            assert(json_escaped(b)[0] == json_escape(b[0])[0]);
        }
        assert(a == b);
    } else {
        let rest_a = a.subrange(1, a.len() as int);
        let rest_b = b.subrange(1, b.len() as int);
        escape_is_prefix_free(a[0], b[0], json_escaped(rest_a), json_escaped(rest_b));
        escaped_is_injective(rest_a, rest_b);
        assert(a == seq![a[0]] + rest_a);
        assert(b == seq![b[0]] + rest_b);
    }
}

/// Two texts that are written as the same JSON string are the same text.
pub proof fn json_string_is_injective(a: Seq<char>, b: Seq<char>)
    requires
        json_string(a) == json_string(b),
    ensures
        a == b,
{
    let left = json_string(a);
    let right = json_string(b);
    assert(left.subrange(1, left.len() - 1) == json_escaped(a));
    assert(right.subrange(1, right.len() - 1) == json_escaped(b));
    escaped_is_injective(a, b);
}

/// A JSON string says where it ends: two texts that start with JSON strings are
/// equal only where the strings hold the same text and what follows is the same.
pub proof fn json_string_ends_itself(
    a: Seq<char>,
    b: Seq<char>,
    after_a: Seq<char>,
    after_b: Seq<char>,
)
    requires
        json_string(a) + after_a == json_string(b) + after_b,
    ensures
        a == b,
        after_a == after_b,
{
    let left = json_string(a) + after_a;
    let right = json_string(b) + after_b;
    assert(left.subrange(1, left.len() as int) == json_escaped(a) + (seq!['"'] + after_a));
    assert(right.subrange(1, right.len() as int) == json_escaped(b) + (seq!['"'] + after_b));
    escaped_ends_at_a_quote(a, b, after_a, after_b);
}

proof fn escaped_ends_at_a_quote(
    a: Seq<char>,
    b: Seq<char>,
    after_a: Seq<char>,
    after_b: Seq<char>,
)
    requires
        json_escaped(a) + (seq!['"'] + after_a) == json_escaped(b) + (seq!['"'] + after_b),
    ensures
        a == b,
        after_a == after_b,
    decreases a.len(),
{
    let tail_a = seq!['"'] + after_a;
    let tail_b = seq!['"'] + after_b;
    let left = json_escaped(a) + tail_a;
    let right = json_escaped(b) + tail_b;
    if a.len() == 0 || b.len() == 0 {
        if a.len() != 0 {
            assert(left[0] == json_escape(a[0])[0]);
            assert(right[0] == '"');
        }
        if b.len() != 0 {
            assert(right[0] == json_escape(b[0])[0]);
            assert(left[0] == '"');
        }
        assert(a == b);
        assert(left == tail_a && right == tail_b);
        assert(tail_a.subrange(1, tail_a.len() as int) == after_a);
        assert(tail_b.subrange(1, tail_b.len() as int) == after_b);
    } else {
        let rest_a = a.subrange(1, a.len() as int);
        let rest_b = b.subrange(1, b.len() as int);
        assert(left == json_escape(a[0]) + (json_escaped(rest_a) + tail_a));
        assert(right == json_escape(b[0]) + (json_escaped(rest_b) + tail_b));
        escape_is_prefix_free(
            a[0],
            b[0],
            json_escaped(rest_a) + tail_a,
            json_escaped(rest_b) + tail_b,
        );
        escaped_ends_at_a_quote(rest_a, rest_b, after_a, after_b);
        assert(a == seq![a[0]] + rest_a);
        assert(b == seq![b[0]] + rest_b);
    }
}

/// An optional text in JSON says where it ends, as a string does.
pub proof fn json_optional_ends_itself(
    a: Option<Seq<char>>,
    b: Option<Seq<char>>,
    after_a: Seq<char>,
    after_b: Seq<char>,
)
    requires
        json_optional(a) + after_a == json_optional(b) + after_b,
    ensures
        a == b,
        after_a == after_b,
{
    let left = json_optional(a) + after_a;
    let right = json_optional(b) + after_b;
    reveal_strlit("null");
    match (a, b) {
        (Some(x), Some(y)) => json_string_ends_itself(x, y, after_a, after_b),
        (None, None) => {
            assert(left.subrange(4, left.len() as int) == after_a);
            assert(right.subrange(4, right.len() as int) == after_b);
        },
        (Some(x), None) => {
            assert(left[0] == '"');
            assert(right[0] == 'n');
        },
        (None, Some(y)) => {
            assert(left[0] == 'n');
            assert(right[0] == '"');
        },
    }
}

proof fn quote_is_escaped(c: char, k: int)
    requires
        0 <= k < json_escape(c).len(),
        json_escape(c)[k] == '"',
    ensures
        k == 1,
        json_escape(c)[0] == '\\',
{
    if json_escape(c).len() == 6 {
        let high = c as int / 16;
        let low = c as int % 16;
        assert(0 <= high < 16 && 0 <= low < 16);
        assert(48 <= digit_char(high) as int && 48 <= digit_char(low) as int);
    }
}

/// Inside a JSON string a quote stands behind a backslash, and nowhere else.
pub proof fn quotes_are_escaped(text: Seq<char>, k: int)
    requires
        0 <= k < json_escaped(text).len(),
        json_escaped(text)[k] == '"',
    ensures
        k >= 1,
        json_escaped(text)[k - 1] == '\\',
    decreases text.len(),
{
    let head = json_escape(text[0]);
    let rest = text.subrange(1, text.len() as int);
    if k < head.len() {
        assert(json_escaped(text)[k] == head[k]);
        quote_is_escaped(text[0], k);
        assert(json_escaped(text)[k - 1] == head[k - 1]);
    } else {
        assert(json_escaped(text)[k] == json_escaped(rest)[k - head.len()]);
        quotes_are_escaped(rest, k - head.len());
        assert(json_escaped(text)[k - 1] == json_escaped(rest)[k - 1 - head.len()]);
    }
}

proof fn decimal_digits_are_injective(a: nat, b: nat)
    requires
        decimal_digits(a) == decimal_digits(b),
    ensures
        a == b,
    decreases a,
{
    let left = decimal_digits(a);
    let right = decimal_digits(b);
    assert(left.last() == digit_char((a % 10) as int));
    assert(right.last() == digit_char((b % 10) as int));
    assert(a % 10 == b % 10);
    decimal_digits_are_digits(a, 0);
    decimal_digits_are_digits(b, 0);
    decimal_digits_are_digits(a / 10, 0);
    decimal_digits_are_digits(b / 10, 0);
    if a >= 10 && b >= 10 {
        assert(left.drop_last() == decimal_digits(a / 10));
        assert(right.drop_last() == decimal_digits(b / 10));
        decimal_digits_are_injective(a / 10, b / 10);
    }
}

proof fn decimal_digits_are_digits(value: nat, i: int)
    ensures
        decimal_digits(value).len() > 0,
        0 <= i < decimal_digits(value).len() ==> 48 <= decimal_digits(value)[i] as int <= 57,
    decreases value,
{
    if value >= 10 {
        decimal_digits_are_digits(value / 10, i);
    }
}

/// Two integers that are written alike in decimal are the same.
pub proof fn decimal_text_is_injective(a: int, b: int)
    requires
        decimal_text(a) == decimal_text(b),
    ensures
        a == b,
{
    let left = decimal_text(a);
    let right = decimal_text(b);
    if a < 0 {
        assert(left[0] == '-');
        assert(left.subrange(1, left.len() as int) == decimal_digits((-a) as nat));
    } else {
        decimal_digits_are_digits(a as nat, 0);
    }
    if b < 0 {
        assert(right[0] == '-');
        assert(right.subrange(1, right.len() as int) == decimal_digits((-b) as nat));
    } else {
        decimal_digits_are_digits(b as nat, 0);
    }
    if a < 0 && b < 0 {
        decimal_digits_are_injective((-a) as nat, (-b) as nat);
    } else if a >= 0 && b >= 0 {
        decimal_digits_are_injective(a as nat, b as nat);
    }
}

/// Whether a text is white space throughout.
pub open spec fn is_blank(text: Seq<char>) -> bool {
    forall|i: int| 0 <= i < text.len() ==> is_white_space(#[trigger] text[i])
}

/// Without its leading and trailing white space, a text is what stands between
/// two blank texts, and starts and ends with something else.
pub proof fn trimmed_stands_between_blanks(text: Seq<char>)
    ensures
        exists|before: Seq<char>, after: Seq<char>|
            #![trigger is_blank(before), is_blank(after)]
            is_blank(before) && is_blank(after) && text == before + trimmed(text) + after,
        trimmed(text).len() > 0 ==> !is_white_space(trimmed(text)[0]) && !is_white_space(
            trimmed(text).last(),
        ),
    decreases text.len(),
{
    let core = trimmed(text);
    if text.len() > 0 && is_white_space(text[0]) {
        let rest = text.subrange(1, text.len() as int);
        trimmed_stands_between_blanks(rest);
        let (before, after) = choose|before: Seq<char>, after: Seq<char>|
            #![trigger is_blank(before), is_blank(after)]
            is_blank(before) && is_blank(after) && rest == before + trimmed(rest) + after;
        let longer = seq![text[0]] + before;
        assert(is_blank(longer));
        assert(is_blank(after));
        assert(text == seq![text[0]] + rest);
        assert(text == longer + core + after);
    } else if text.len() > 0 && is_white_space(text[text.len() - 1]) {
        let rest = text.subrange(0, text.len() - 1);
        trimmed_stands_between_blanks(rest);
        let (before, after) = choose|before: Seq<char>, after: Seq<char>|
            #![trigger is_blank(before), is_blank(after)]
            is_blank(before) && is_blank(after) && rest == before + trimmed(rest) + after;
        let longer = after + seq![text[text.len() - 1]];
        assert(is_blank(before));
        assert(is_blank(longer));
        assert(text == rest + seq![text[text.len() - 1]]);
        assert(text == before + core + longer);
    } else {
        let none = Seq::<char>::empty();
        assert(is_blank(none));
        assert(text == none + core + none);
    }
}

/// Whether a character stands in a JSON string as it is.
pub open spec fn is_plain(c: char) -> bool {
    c as int >= 0x20 && c != '"' && c != '\\'
}

/// A text of plain characters stands in a JSON string as it is.
pub proof fn plain_text_is_not_escaped(text: Seq<char>)
    requires
        forall|i: int| 0 <= i < text.len() ==> is_plain(#[trigger] text[i]),
    ensures
        json_escaped(text) == text,
    decreases text.len(),
{
    if text.len() > 0 {
        let rest = text.subrange(1, text.len() as int);
        assert forall|i: int| 0 <= i < rest.len() implies is_plain(#[trigger] rest[i]) by {
            assert(rest[i] == text[i + 1]);
        }
        plain_text_is_not_escaped(rest);
        assert(is_plain(text[0]));
        assert(json_escape(text[0]) == seq![text[0]]);
        assert(text == seq![text[0]] + rest);
    }
}

}
