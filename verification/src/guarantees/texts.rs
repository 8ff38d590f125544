//! Texts and identifiers: what the small functions give that all others use.
use vstd::prelude::*;
use vstd::utf8::encode_utf8;

use crate::guarantees::answers::text_or_null;
use crate::ids::{is_v4, uuid_text, Uuid};
use crate::text::{
    byte_len, contains_char, first_position_is_first, json_string, quote, quote_optional,
    same_text, split_once, strip_prefix,
};

verus! {

/// Texts are the same exactly where their characters are; a text is as long as its
/// encoding; and a character is in it exactly where it is at some position.
pub proof fn texts_are_their_characters(
    left: &str,
    right: &str,
    same: bool,
    length: usize,
    wanted: char,
    found: bool,
)
    requires
        call_ensures(same_text, (left, right), same),
        call_ensures(byte_len, (left,), length),
        call_ensures(contains_char, (left, wanted), found),
    ensures
        same <==> left@ == right@,
        length == encode_utf8(left@).len(),
        found <==> exists|i: int| 0 <= i < left@.len() && left@[i] == wanted,
{
}

/// A prefix is stripped exactly where the text starts with it: the prefix and what
/// is left make up the text.
pub proof fn prefix_and_rest_make_up_the_text(text: &str, prefix: &str, result: Option<&str>)
    requires
        call_ensures(strip_prefix, (text, prefix), result),
    ensures
        match result {
            Some(rest) => text@ == prefix@ + rest@,
            None => !prefix@.is_prefix_of(text@),
        },
{
    if let Some(rest) = result {
        assert(text@ == prefix@ + rest@);
    }
}

/// A text is split at its first separator: the two sides make up the text with it,
/// and there is none in the first. Without a separator it is not split.
pub proof fn sides_make_up_the_text(text: &str, separator: char, result: Option<(&str, &str)>)
    requires
        call_ensures(split_once, (text, separator), result),
    ensures
        match result {
            Some(sides) => text@ == sides.0@ + seq![separator] + sides.1@ && !sides.0@.contains(
                separator,
            ),
            None => !text@.contains(separator),
        },
{
    first_position_is_first(text@, separator);
    if let Some(sides) = result {
        assert(text@ == sides.0@ + seq![separator] + sides.1@);
    }
}

/// A text is quoted as a JSON string, and no text is `null`.
pub proof fn texts_are_quoted(
    text: &str,
    quoted: String,
    value: Option<String>,
    quoted_value: String,
)
    requires
        call_ensures(quote, (text,), quoted),
        call_ensures(quote_optional, (&value,), quoted_value),
    ensures
        quoted@ == json_string(text@),
        quoted_value@ == text_or_null(value),
{
}

/// An identifier is written in its hyphenated form; the nil one is zero, and a
/// drawn one is of version 4.
pub proof fn identifiers_are_written_hyphenated(id: Uuid, text: String, nil: Uuid, drawn: Uuid)
    requires
        call_ensures(Uuid::text, (&id,), text),
        call_ensures(Uuid::nil, (), nil),
        call_ensures(Uuid::new_v4, (), drawn),
    ensures
        text@ == uuid_text(id),
        nil.bits == 0,
        is_v4(drawn),
        drawn.bits & 0xf000_c000_0000_0000_0000 == 0x4000_8000_0000_0000_0000,
{
}

}
