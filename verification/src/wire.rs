//! Request paths for the server's wire protocol.
//!
//! The server is addressed with plain GET calls; every query, url and tag
//! value is percent-encoded in the `application/x-www-form-urlencoded` form
//! before it enters a path. The encoding itself is the `url` crate's; its
//! output is pinned byte for byte by [`spec_urlencoded`].

use vstd::prelude::*;
use vstd::string::*;
use vstd::utf8::encode_utf8;
use crate::dispatcher::{AttributeField, MutationKind, MutationRequest, TagAction};

verus! {

/// The bytes the form-urlencoded serializer passes through unchanged:
/// `*`, `-`, `.`, `_`, digits and ASCII letters.
pub open spec fn is_passthrough_byte(b: u8) -> bool {
    b == 0x2A || b == 0x2D || b == 0x2E || b == 0x5F || (0x30 <= b && b <= 0x39) || (0x41 <= b && b
        <= 0x5A) || (0x61 <= b && b <= 0x7A)
}

/// The value `n` (below sixteen) as an uppercase hexadecimal digit.
pub open spec fn hex_digit(n: u8) -> char
    recommends
        n < 16,
{
    if n == 0 {
        '0'
    } else if n == 1 {
        '1'
    } else if n == 2 {
        '2'
    } else if n == 3 {
        '3'
    } else if n == 4 {
        '4'
    } else if n == 5 {
        '5'
    } else if n == 6 {
        '6'
    } else if n == 7 {
        '7'
    } else if n == 8 {
        '8'
    } else if n == 9 {
        '9'
    } else if n == 10 {
        'A'
    } else if n == 11 {
        'B'
    } else if n == 12 {
        'C'
    } else if n == 13 {
        'D'
    } else if n == 14 {
        'E'
    } else {
        'F'
    }
}

/// What one byte becomes in the form-urlencoded output: a space becomes
/// `+`, a passthrough byte stands unchanged, every other byte becomes `%`
/// and two uppercase hexadecimal digits.
pub open spec fn encoded_byte(b: u8) -> Seq<char> {
    if b == 0x20 {
        seq!['+']
    } else if is_passthrough_byte(b) {
        seq![b as char]
    } else {
        seq!['%', hex_digit(b / 16), hex_digit(b % 16)]
    }
}

/// The form-urlencoded serialization of a byte string.
pub open spec fn spec_urlencoded(bytes: Seq<u8>) -> Seq<char>
    decreases bytes.len(),
{
    if bytes.len() == 0 {
        Seq::empty()
    } else {
        encoded_byte(bytes[0]) + spec_urlencoded(bytes.drop_first())
    }
}

/// Relies on `url::form_urlencoded::byte_serialize` (the `url` crate
/// re-exports `form_urlencoded`): per its source, each input byte is emitted
/// unchanged when it is `*`, `-`, `.`, `_`, a digit or an ASCII letter,
/// a space is emitted as `+`, and every other byte as `%` followed by its
/// two uppercase hexadecimal digits.
#[verifier::external_body]
fn urlencoded(text: &str) -> (r: String)
    ensures
        r@ == spec_urlencoded(text.spec_bytes()),
{
    url::form_urlencoded::byte_serialize(text.as_bytes()).collect()
}

/// The wire name of a boolean-like attribute field.
pub open spec fn spec_attribute_name(field: AttributeField) -> Seq<char> {
    match field {
        AttributeField::Pinned => "pinned"@,
        AttributeField::Hide => "hide"@,
        AttributeField::HideDomain => "hide_domain"@,
        AttributeField::Bookmarked => "bookmarked"@,
    }
}

/// The wire name of a tag-set edit action.
pub open spec fn spec_action_name(action: TagAction) -> Seq<char> {
    match action {
        TagAction::Add => "add"@,
        TagAction::Remove => "remove"@,
    }
}

/// The wire digit of a 0/1 attribute value.
pub open spec fn spec_flag_digit(value: i64) -> Seq<char>
    recommends
        value == 0 || value == 1,
{
    if value == 0 {
        "0"@
    } else {
        "1"@
    }
}

/// The path that runs `query` against the index.
pub open spec fn spec_search_path(query: Seq<char>) -> Seq<char> {
    "/search?q="@ + spec_urlencoded(encode_utf8(query))
}

/// The path that a mutation request is sent to: an attribute write on
/// `/attributes`, a tag-set edit on `/attributes_array`.
pub open spec fn spec_mutation_path(req: MutationRequest) -> Seq<char> {
    match req.kind {
        MutationKind::SetAttribute { field, value } => "/attributes?url="@ + spec_urlencoded(
            encode_utf8(req.url@),
        ) + "&field="@ + spec_attribute_name(field) + "&value="@ + spec_flag_digit(value),
        MutationKind::EditTags { action, tag } => "/attributes_array?url="@ + spec_urlencoded(
            encode_utf8(req.url@),
        ) + "&field=tag&value="@ + spec_urlencoded(encode_utf8(tag@)) + "&action="@
            + spec_action_name(action),
    }
}

/// Build the search path for `query`, percent-encoding it.
pub fn search_request_path(query: &str) -> (path: String)
    ensures
        path@ == spec_search_path(query@),
{
    let mut path = String::from_str("/search?q=");
    let encoded = urlencoded(query);
    path.append(encoded.as_str());
    path
}

/// The wire name of a boolean-like attribute field.
pub fn attribute_name(field: AttributeField) -> (name: &'static str)
    ensures
        name@ == spec_attribute_name(field),
{
    match field {
        AttributeField::Pinned => "pinned",
        AttributeField::Hide => "hide",
        AttributeField::HideDomain => "hide_domain",
        AttributeField::Bookmarked => "bookmarked",
    }
}

/// The wire name of a tag-set edit action.
pub fn action_name(action: TagAction) -> (name: &'static str)
    ensures
        name@ == spec_action_name(action),
{
    match action {
        TagAction::Add => "add",
        TagAction::Remove => "remove",
    }
}

/// Build the path a mutation request is sent to, percent-encoding the url
/// and the tag value.
pub fn mutation_request_path(req: &MutationRequest) -> (path: String)
    requires
        req.kind matches MutationKind::SetAttribute { field, value } ==> value == 0 || value == 1,
    ensures
        path@ == spec_mutation_path(*req),
{
    match &req.kind {
        MutationKind::SetAttribute { field, value } => {
            let mut path = String::from_str("/attributes?url=");
            let encoded_url = urlencoded(req.url.as_str());
            path.append(encoded_url.as_str());
            path.append("&field=");
            path.append(attribute_name(*field));
            path.append("&value=");
            if *value == 0 {
                path.append("0");
            } else {
                path.append("1");
            }
            path
        },
        MutationKind::EditTags { action, tag } => {
            let mut path = String::from_str("/attributes_array?url=");
            let encoded_url = urlencoded(req.url.as_str());
            path.append(encoded_url.as_str());
            path.append("&field=tag&value=");
            let encoded_tag = urlencoded(tag.as_str());
            path.append(encoded_tag.as_str());
            path.append("&action=");
            path.append(action_name(*action));
            path
        },
    }
}

} // verus!
