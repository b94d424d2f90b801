//! The calls into `base64`, `bincode` and `url`. Nothing in this file is
//! proved: each contract says what the outside function is taken to do.
//! What a call returns is given a name where it is a function of the
//! arguments alone; the contracts of the library speak through those names.

use super::compat::{v0_3, v0_4, v0_5, v2_0};
use super::{CustomShaderData, UserSettings, UserSettingsView};
use base64::Engine;
use crate::text::string_option_view;
use vstd::prelude::*;
use vstd::utf8::encode_utf8;

verus! {

/// Why `base64` rejected a text. Carried through unread.
#[verifier::external_type_specification]
#[verifier::external_body]
pub struct ExBase64DecodeError(base64::DecodeError);

/// Why `bincode` failed. Carried through unread.
#[verifier::external_type_specification]
#[verifier::external_body]
pub struct ExBincodeErrorKind(bincode::ErrorKind);

/// Why `url` took a text for no absolute URL. Carried through unread.
#[verifier::external_type_specification]
#[verifier::external_body]
pub struct ExUrlParseError(url::ParseError);

/// The text that the standard base64 engine makes of `bytes`.
pub uninterp spec fn base64_text(bytes: Seq<u8>) -> Seq<char>;

/// The bytes that the standard base64 engine reads from `text`, or `None`
/// where it rejects the text.
pub uninterp spec fn base64_bytes(text: Seq<char>) -> Option<Seq<u8>>;

/// The bytes that bincode writes for the current record.
pub uninterp spec fn bincode_settings(settings: UserSettingsView) -> Seq<u8>;

/// The current record that bincode reads from the front of `bytes`, or
/// `None` where it fails.
pub uninterp spec fn bincode_read_settings(bytes: Seq<u8>) -> Option<UserSettingsView>;

/// The 0.3 record that bincode reads from the front of `bytes`.
pub uninterp spec fn bincode_read_v0_3(bytes: Seq<u8>) -> Option<v0_3::UserSettingsView>;

/// The 0.4 record that bincode reads from the front of `bytes`.
pub uninterp spec fn bincode_read_v0_4(bytes: Seq<u8>) -> Option<v0_4::UserSettingsView>;

/// The 0.5 record that bincode reads from the front of `bytes`.
pub uninterp spec fn bincode_read_v0_5(bytes: Seq<u8>) -> Option<v0_5::UserSettingsView>;

/// The 2.0 record that bincode reads from the front of `bytes`.
pub uninterp spec fn bincode_read_v2_0(bytes: Seq<u8>) -> Option<v2_0::UserSettingsView>;

/// What `url` makes of `text`: `None` where the text is no absolute URL,
/// else the URL's query, which is itself `None` where the URL has none.
pub uninterp spec fn url_query(text: Seq<char>) -> Option<Option<Seq<char>>>;

/// Whether `text` starts with a character that can begin no scheme: one
/// above the space, so that it is not trimmed away, and no ASCII letter.
pub open spec fn starts_without_scheme(text: Seq<char>) -> bool {
    text.len() > 0 && text[0] > ' ' && !('a' <= text[0] <= 'z' || 'A' <= text[0] <= 'Z')
}

/// Whether `text` is seen to be no link without parsing it.
pub open spec fn is_no_link(text: Seq<char>) -> bool {
    !text.contains(':') || starts_without_scheme(text)
}

/// The characters of padded standard base64.
pub open spec fn is_base64_char(c: char) -> bool {
    ||| 'A' <= c <= 'Z'
    ||| 'a' <= c <= 'z'
    ||| '0' <= c <= '9'
    ||| c == '+'
    ||| c == '/'
    ||| c == '='
}

/// The number of bytes of the current record: thirty-two for the numbers
/// and the switches, eight for the length of each fragment, and the
/// fragments' own bytes in UTF-8.
pub open spec fn record_length(settings: UserSettingsView) -> nat {
    56 + encode_utf8(settings.shader_data.equation).len() + encode_utf8(
        settings.shader_data.colour,
    ).len() + encode_utf8(settings.shader_data.additional).len()
}

/// The number of characters that padded base64 needs for `n` bytes.
pub open spec fn base64_length(n: nat) -> nat {
    (n + 2) / 3 * 4
}

/// `Engine::encode` of `base64::engine::general_purpose::STANDARD`.
/// Taken from it: the text has four characters for every three bytes begun,
/// it is made of the standard alphabet and `=`, a `=` stands only in its
/// last two places, and the same engine decodes it to `bytes` again. The call panics where the text's length cannot be
/// computed or allocated, which `requires` leaves out.
#[verifier::external_body]
pub(crate) fn base64_encode(bytes: &[u8]) -> (text: String)
    requires
        base64_length(bytes@.len()) <= isize::MAX,
    ensures
        text@ == base64_text(bytes@),
        text@.len() == base64_length(bytes@.len()),
        base64_bytes(text@) == Some(bytes@),
        forall|i: int| 0 <= i < text@.len() ==> is_base64_char(#[trigger] text@[i]),
        forall|i: int| 0 <= i < text@.len() && #[trigger] text@[i] == '=' ==> i + 2 >= text@.len(),
{
    base64::engine::general_purpose::STANDARD.encode(bytes)
}

/// `Engine::decode` of `base64::engine::general_purpose::STANDARD`.
#[verifier::external_body]
pub(crate) fn base64_decode(text: &str) -> (r: Result<Vec<u8>, base64::DecodeError>)
    ensures
        match r {
            Ok(bytes) => base64_bytes(text@) == Some(bytes@),
            Err(_) => base64_bytes(text@) is None,
        },
{
    base64::engine::general_purpose::STANDARD.decode(text)
}

/// `bincode::serialize` on the fields of the current record, handed over as
/// a tuple in the record's order, the three fragments as a tuple inside it.
/// bincode writes a tuple as it writes a struct: field after field, without
/// names; and it writes a bit pattern as it writes the number that the
/// pattern stands for: four bytes, the lowest first. Taken from it: the
/// call does not fail on such a tuple (no size limit is set, the bytes go to
/// a vector, and none of the fields can refuse); the bytes are as many as
/// `record_length` says; and `bincode::deserialize` reads the same record
/// back from them.
#[verifier::external_body]
pub(crate) fn bincode_write_settings(s: &UserSettings) -> (r: Result<Vec<u8>, Box<bincode::ErrorKind>>)
    ensures
        r is Ok,
        match r {
            Ok(bytes) => bytes@ == bincode_settings(s@) && bytes@.len() == record_length(s@)
                && bincode_read_settings(bytes@) == Some(s@),
            Err(_) => false,
        },
{
    let d = &s.shader_data;
    let shader = (&d.equation, &d.colour, &d.additional);
    bincode::serialize(&(s.zoom, s.centre, s.iterations, s.julia_set, s.smoothen,
        s.internal_black, s.initial_value, s.escape_threshold, s.initial_c, shader))
}

/// `bincode::deserialize` to the fields of the current record, read as a
/// tuple in the record's order. Bytes behind the record are left unread.
#[verifier::external_body]
pub(crate) fn bincode_read_settings_from(bytes: &[u8]) -> (r: Result<UserSettings, Box<bincode::ErrorKind>>)
    ensures
        match r {
            Ok(s) => bincode_read_settings(bytes@) == Some(s@),
            Err(_) => bincode_read_settings(bytes@) is None,
        },
{
    let (zoom, centre, iterations, julia_set, smoothen, internal_black, initial_value,
        escape_threshold, initial_c, (equation, colour, additional)): (u32, [u32; 2], i32, bool,
        bool, bool, [u32; 2], u32, bool, (String, String, String)) = bincode::deserialize(bytes)?;
    let shader_data = CustomShaderData { equation, colour, additional };
    Ok(UserSettings { zoom, centre, iterations, julia_set, smoothen, internal_black,
        initial_value, escape_threshold, initial_c, shader_data })
}

/// `bincode::deserialize` to the fields of the 0.3 record.
#[verifier::external_body]
pub(crate) fn bincode_read_v0_3_from(bytes: &[u8]) -> (r: Result<v0_3::UserSettings, Box<bincode::ErrorKind>>)
    ensures
        match r {
            Ok(s) => bincode_read_v0_3(bytes@) == Some(s@),
            Err(_) => bincode_read_v0_3(bytes@) is None,
        },
{
    let (zoom, centre, iterations, equation, prev_equation, equation_valid, julia_set,
        initial_value, escape_threshold): (u32, [u32; 2], i32, String, String, bool, bool,
        [u32; 2], u32) = bincode::deserialize(bytes)?;
    Ok(v0_3::UserSettings { zoom, centre, iterations, equation, prev_equation, equation_valid,
        julia_set, initial_value, escape_threshold })
}

/// `bincode::deserialize` to the fields of the 0.4 record.
#[verifier::external_body]
pub(crate) fn bincode_read_v0_4_from(bytes: &[u8]) -> (r: Result<v0_4::UserSettings, Box<bincode::ErrorKind>>)
    ensures
        match r {
            Ok(s) => bincode_read_v0_4(bytes@) == Some(s@),
            Err(_) => bincode_read_v0_4(bytes@) is None,
        },
{
    let (
        zoom, centre, iterations, equation, prev_equation, colour, prev_colour, equation_valid,
        julia_set, smoothen, internal_black, initial_value, escape_threshold): (
        u32, [u32; 2], i32, String, String, String, String, bool, bool, bool, bool, [u32; 2],
        u32) = bincode::deserialize(bytes)?;
    Ok(v0_4::UserSettings {
        zoom, centre, iterations, equation, prev_equation, colour, prev_colour, equation_valid,
        julia_set, smoothen, internal_black, initial_value, escape_threshold })
}

/// `bincode::deserialize` to the fields of the 0.5 record.
#[verifier::external_body]
pub(crate) fn bincode_read_v0_5_from(bytes: &[u8]) -> (r: Result<v0_5::UserSettings, Box<bincode::ErrorKind>>)
    ensures
        match r {
            Ok(s) => bincode_read_v0_5(bytes@) == Some(s@),
            Err(_) => bincode_read_v0_5(bytes@) is None,
        },
{
    let (
        zoom, centre, iterations, equation, prev_equation, colour, prev_colour, equation_valid,
        julia_set, smoothen, internal_black, initial_value, escape_threshold, initial_c): (
        u32, [u32; 2], i32, String, String, String, String, bool, bool, bool, bool, [u32; 2],
        u32, bool) = bincode::deserialize(bytes)?;
    Ok(v0_5::UserSettings {
        zoom, centre, iterations, equation, prev_equation, colour, prev_colour, equation_valid,
        julia_set, smoothen, internal_black, initial_value, escape_threshold, initial_c })
}

/// `bincode::deserialize` to the fields of the 2.0 record.
#[verifier::external_body]
pub(crate) fn bincode_read_v2_0_from(bytes: &[u8]) -> (r: Result<v2_0::UserSettings, Box<bincode::ErrorKind>>)
    ensures
        match r {
            Ok(s) => bincode_read_v2_0(bytes@) == Some(s@),
            Err(_) => bincode_read_v2_0(bytes@) is None,
        },
{
    let (
        zoom, centre, iterations, equation, colour, julia_set, smoothen, internal_black,
        initial_value, escape_threshold, initial_c): (
        u32, [u32; 2], i32, String, String, bool, bool, bool, [u32; 2], u32, bool) = bincode::deserialize(bytes)?;
    Ok(v2_0::UserSettings {
        zoom, centre, iterations, equation, colour, julia_set, smoothen, internal_black,
        initial_value, escape_threshold, initial_c })
}

/// `Url::parse` of `url`, then `Url::query` of what it gave. Taken from
/// the parser: a text without a colon has no scheme, and neither has a text
/// that starts with a character which is not trimmed away and is no letter;
/// without a scheme a text is no absolute URL.
#[verifier::external_body]
pub(crate) fn url_query_of(text: &str) -> (r: Result<Option<String>, url::ParseError>)
    ensures
        match r {
            Ok(query) => url_query(text@) == Some(string_option_view(query)),
            Err(_) => url_query(text@) is None,
        },
        is_no_link(text@) ==> r is Err,
{
    match url::Url::parse(text)?.query() {
        Some(query) => Ok(Some(query.to_string())),
        None => Ok(None),
    }
}

} // verus!
