//! The settings of a fractal view and their text form.

use crate::text::{
    contains_char, lemma_first_index_of, lemma_piece_of_plain, lemma_pieces_of_join, piece,
    same_text, split_piece, string_option_view,
};
use vstd::pervasive::unreached;
use vstd::prelude::*;
use vstd::string::*;
use wire::{
    base64_bytes, base64_length, base64_text, bincode_read_settings, bincode_settings,
    is_base64_char, is_no_link, record_length, url_query,
};

pub mod compat;
pub mod wire;

verus! {

/// Why a settings text was not accepted.
#[derive(Debug, Clone, Copy, PartialEq, Eq, Structural)]
pub enum InvalidSettingsImportError {
    InvalidFormat,
    VersionMismatch,
    InvalidBase64,
    DeserialisationFailed,
}

impl InvalidSettingsImportError {
    /// The message shown for this error.
    pub open spec fn message(self) -> Seq<char> {
        match self {
            InvalidSettingsImportError::InvalidFormat => "Invalid settings string format"@,
            InvalidSettingsImportError::VersionMismatch => "Version mismatch or invalid format"@,
            InvalidSettingsImportError::InvalidBase64 => "Base64 decoding failed"@,
            InvalidSettingsImportError::DeserialisationFailed => "Deserialising data failed"@,
        }
    }

    /// The message shown for this error, as text.
    pub fn to_str(&self) -> (r: &'static str)
        ensures
            r@ == self.message(),
    {
        match self {
            InvalidSettingsImportError::InvalidFormat => "Invalid settings string format",
            InvalidSettingsImportError::VersionMismatch => "Version mismatch or invalid format",
            InvalidSettingsImportError::InvalidBase64 => "Base64 decoding failed",
            InvalidSettingsImportError::DeserialisationFailed => "Deserialising data failed",
        }
    }
}

/// The shader-language fragments that the user edits. They are free text:
/// nothing here says that they parse.
#[derive(Debug, Clone, PartialEq, Eq)]
pub struct CustomShaderData {
    pub equation: String,
    pub colour: String,
    pub additional: String,
}

/// The fragments as sequences of characters.
pub struct CustomShaderDataView {
    pub equation: Seq<char>,
    pub colour: Seq<char>,
    pub additional: Seq<char>,
}

impl View for CustomShaderData {
    type V = CustomShaderDataView;

    open spec fn view(&self) -> CustomShaderDataView {
        CustomShaderDataView {
            equation: self.equation@,
            colour: self.colour@,
            additional: self.additional@,
        }
    }
}

/// Everything the user can tune. A real number is held as the bit pattern
/// of its single-precision form, which is what the binary record stores.
#[derive(Debug, Clone, PartialEq, Eq)]
pub struct UserSettings {
    pub zoom: u32,
    pub centre: [u32; 2],
    pub iterations: i32,
    pub julia_set: bool,
    pub smoothen: bool,
    pub internal_black: bool,
    pub initial_value: [u32; 2],
    pub escape_threshold: u32,
    pub initial_c: bool,
    pub shader_data: CustomShaderData,
}

/// The settings as plain values: what the contracts speak of.
pub struct UserSettingsView {
    pub zoom: u32,
    pub centre: (u32, u32),
    pub iterations: i32,
    pub julia_set: bool,
    pub smoothen: bool,
    pub internal_black: bool,
    pub initial_value: (u32, u32),
    pub escape_threshold: u32,
    pub initial_c: bool,
    pub shader_data: CustomShaderDataView,
}

impl View for UserSettings {
    type V = UserSettingsView;

    open spec fn view(&self) -> UserSettingsView {
        UserSettingsView {
            zoom: self.zoom,
            centre: (self.centre[0], self.centre[1]),
            iterations: self.iterations,
            julia_set: self.julia_set,
            smoothen: self.smoothen,
            internal_black: self.internal_black,
            initial_value: (self.initial_value[0], self.initial_value[1]),
            escape_threshold: self.escape_threshold,
            initial_c: self.initial_c,
            shader_data: self.shader_data@,
        }
    }
}

/// The version of this package. Its first two components tag the format.
pub const PACKAGE_VERSION: &'static str = "2.1.0";

pub const DEFAULT_EQUATION: &'static str = "csquare(z) + c";

pub const DEFAULT_COLOUR: &'static str =
    "hsv_rgb(vec3(log(n + 1.0) / log(f32(uniforms.iterations) + 1.0), 0.8, 0.8))";

/// The bit pattern of 1.0.
pub const ONE_BITS: u32 = 0x3f80_0000;

/// The bit pattern of 2.0.
pub const TWO_BITS: u32 = 0x4000_0000;

/// The bit pattern of positive infinity, the largest pattern of a number
/// that is no NaN.
pub const INFINITY_BITS: u32 = 0x7f80_0000;

/// Whether `bits` is the pattern of a number above zero.
pub open spec fn is_positive_bits(bits: u32) -> bool {
    0 < bits <= INFINITY_BITS
}

impl UserSettingsView {
    /// What the viewer keeps true of its settings: the zoom and the escape
    /// threshold are above zero, and there is at least one iteration.
    /// Importing checks none of this.
    pub open spec fn valid(self) -> bool {
        &&& is_positive_bits(self.zoom)
        &&& is_positive_bits(self.escape_threshold)
        &&& self.iterations >= 1
    }
}

/// The tag of the format that this version writes.
pub open spec fn current_version_tag() -> Seq<char> {
    "2.1"@
}

/// The first two components of a dotted version, joined by a dot.
pub open spec fn major_minor(version: Seq<char>) -> Option<Seq<char>> {
    match (piece(version, '.', 0), piece(version, '.', 1)) {
        (Some(major), Some(minor)) => Some(major + seq!['.'] + minor),
        _ => None,
    }
}

pub open spec fn default_shader_data() -> CustomShaderDataView {
    CustomShaderDataView {
        equation: DEFAULT_EQUATION@,
        colour: DEFAULT_COLOUR@,
        additional: Seq::empty(),
    }
}

pub open spec fn default_settings() -> UserSettingsView {
    UserSettingsView {
        zoom: ONE_BITS,
        centre: (0, 0),
        iterations: 100,
        julia_set: false,
        smoothen: false,
        internal_black: true,
        initial_value: (0, 0),
        escape_threshold: TWO_BITS,
        initial_c: false,
        shader_data: default_shader_data(),
    }
}

/// A result by the view of what it holds.
pub open spec fn result_view<T: View>(r: Result<T, InvalidSettingsImportError>) -> Result<
    T::V,
    InvalidSettingsImportError,
> {
    match r {
        Ok(value) => Ok(value@),
        Err(e) => Err(e),
    }
}

/// Whether the settings can be written: the base64 text of their record
/// fits in memory.
pub open spec fn exportable(settings: UserSettingsView) -> bool {
    base64_length(record_length(settings)) <= isize::MAX
}

/// The tag, a semicolon and the base64 text of `bytes`.
pub open spec fn framed(bytes: Seq<u8>) -> Seq<char> {
    current_version_tag() + seq![';'] + base64_text(bytes)
}

/// The text that stands for the settings.
pub open spec fn export_text(settings: UserSettingsView) -> Seq<char> {
    framed(bincode_settings(settings))
}

/// What a payload of the current format holds.
pub open spec fn payload_settings(payload: Seq<char>) -> Result<
    UserSettingsView,
    InvalidSettingsImportError,
> {
    match base64_bytes(payload) {
        None => Err(InvalidSettingsImportError::InvalidBase64),
        Some(bytes) => match bincode_read_settings(bytes) {
            None => Err(InvalidSettingsImportError::DeserialisationFailed),
            Some(settings) => Ok(settings),
        },
    }
}

/// The settings for a tag and its payload. The current tag is tried first,
/// then each earlier one; any other tag is a mismatch.
pub open spec fn dispatch(tag: Seq<char>, payload: Seq<char>) -> Result<
    UserSettingsView,
    InvalidSettingsImportError,
> {
    if tag == current_version_tag() {
        payload_settings(payload)
    } else if tag == "2.0"@ {
        match compat::v2_0::payload_record(payload) {
            Ok(record) => Ok(compat::v2_0::upgraded(record)),
            Err(e) => Err(e),
        }
    } else if tag == "0.5"@ {
        match compat::v0_5::payload_record(payload) {
            Ok(record) => Ok(compat::v0_5::upgraded(record)),
            Err(e) => Err(e),
        }
    } else if tag == "0.3"@ {
        match compat::v0_3::payload_record(payload) {
            Ok(record) => Ok(compat::v0_3::upgraded(record)),
            Err(e) => Err(e),
        }
    } else if tag == "0.4"@ {
        match compat::v0_4::payload_record(payload) {
            Ok(record) => Ok(compat::v0_4::upgraded(record)),
            Err(e) => Err(e),
        }
    } else {
        Err(InvalidSettingsImportError::VersionMismatch)
    }
}

/// What an encoded text gives. It must not be empty and must hold a
/// semicolon: the tag stands before the first one, the payload between the
/// first and the second, or up to the end.
pub open spec fn encoded_outcome(encoded: Seq<char>) -> Result<
    UserSettingsView,
    InvalidSettingsImportError,
> {
    if encoded.len() == 0 {
        Err(InvalidSettingsImportError::InvalidFormat)
    } else {
        match (piece(encoded, ';', 0), piece(encoded, ';', 1)) {
            (Some(tag), Some(payload)) => dispatch(tag, payload),
            _ => Err(InvalidSettingsImportError::InvalidFormat),
        }
    }
}

/// The encoded text that an input stands for: the query of a URL (empty
/// where it has none), or the input itself where it is no URL.
pub open spec fn encoded_part(text: Seq<char>) -> Seq<char> {
    match url_query(text) {
        Some(Some(query)) => query,
        Some(None) => Seq::empty(),
        None => text,
    }
}

/// What importing `text` gives.
pub open spec fn import_outcome(text: Seq<char>) -> Result<
    UserSettingsView,
    InvalidSettingsImportError,
> {
    encoded_outcome(encoded_part(text))
}

/// The first two components of `version`, or `None` where it has fewer.
pub fn major_minor_of(version: &str) -> (r: Option<String>)
    ensures
        string_option_view(r) == major_minor(version@),
{
    match (split_piece(version, '.', 0), split_piece(version, '.', 1)) {
        (Some(major), Some(minor)) => {
            let mut tag = major.to_owned();
            proof {
                reveal_strlit(".");
            }
            tag.append(".");
            tag.append(minor);
            assert(tag@ =~= major@ + seq!['.'] + minor@);
            Some(tag)
        },
        _ => None,
    }
}

/// The tag of the format that this version writes: `2.1`.
pub fn get_major_minor_version() -> (r: String)
    ensures
        r@ == current_version_tag(),
{
    proof {
        lemma_package_version();
    }
    match major_minor_of(PACKAGE_VERSION) {
        Some(tag) => tag,
        None => unreached(),
    }
}

/// The package version starts with the current tag.
pub proof fn lemma_package_version()
    ensures
        major_minor(PACKAGE_VERSION@) == Some(current_version_tag()),
{
    reveal_strlit("2.1.0");
    reveal_strlit("2.1");
    let v = PACKAGE_VERSION@;
    lemma_first_index_of(v, '.', 1);
    let rest = v.skip(2);
    lemma_first_index_of(rest, '.', 1);
    assert(piece(v, '.', 0) == Some(v.take(1)));
    assert(piece(rest, '.', 0) == Some(rest.take(1)));
    assert(piece(v, '.', 1) == Some(rest.take(1))) by {
        reveal_with_fuel(piece, 2);
    }
    assert(v.take(1) + seq!['.'] + rest.take(1) =~= "2.1"@);
}

impl Default for CustomShaderData {
    fn default() -> (r: Self)
        ensures
            r@ == default_shader_data(),
    {
        Self {
            equation: DEFAULT_EQUATION.to_owned(),
            colour: DEFAULT_COLOUR.to_owned(),
            additional: String::new(),
        }
    }
}

impl Default for UserSettings {
    fn default() -> (r: Self)
        ensures
            r@ == default_settings(),
            r@.valid(),
    {
        Self {
            zoom: ONE_BITS,
            centre: [0, 0],
            iterations: 100,
            julia_set: false,
            smoothen: false,
            internal_black: true,
            initial_value: [0, 0],
            escape_threshold: TWO_BITS,
            initial_c: false,
            shader_data: Default::default(),
        }
    }
}

/// The largest number of bytes whose base64 text fits in memory.
pub fn base64_input_limit() -> (r: usize)
    ensures
        forall|n: nat| n <= r <==> base64_length(n) <= isize::MAX,
{
    (isize::MAX as usize) / 4 * 3
}

/// A tag without a semicolon, a semicolon and a payload without one are read
/// as that tag and that payload.
pub proof fn lemma_tagged_text(tag: Seq<char>, payload: Seq<char>)
    requires
        !tag.contains(';'),
        !payload.contains(';'),
    ensures
        encoded_outcome(tag + seq![';'] + payload) == dispatch(tag, payload),
{
    lemma_pieces_of_join(tag, payload, ';');
    lemma_piece_of_plain(payload, ';');
}

/// Under each earlier tag the payload is read as that format's record and
/// brought up to the current settings; an error in reading it is passed on.
pub proof fn lemma_dispatch_earlier(payload: Seq<char>)
    ensures
        dispatch("2.0"@, payload) == match compat::v2_0::payload_record(payload) {
            Ok(record) => Ok(compat::v2_0::upgraded(record)),
            Err(e) => Err(e),
        },
        dispatch("0.5"@, payload) == match compat::v0_5::payload_record(payload) {
            Ok(record) => Ok(compat::v0_5::upgraded(record)),
            Err(e) => Err(e),
        },
        dispatch("0.4"@, payload) == match compat::v0_4::payload_record(payload) {
            Ok(record) => Ok(compat::v0_4::upgraded(record)),
            Err(e) => Err(e),
        },
        dispatch("0.3"@, payload) == match compat::v0_3::payload_record(payload) {
            Ok(record) => Ok(compat::v0_3::upgraded(record)),
            Err(e) => Err(e),
        },
{
    reveal_strlit("2.1");
    reveal_strlit("2.0");
    reveal_strlit("0.5");
    reveal_strlit("0.4");
    reveal_strlit("0.3");
    assert("2.0"@[2] != "2.1"@[2]);
    assert("0.5"@[0] != "2.1"@[0] && "0.5"@[0] != "2.0"@[0]);
    assert("0.3"@[0] != "2.1"@[0] && "0.3"@[0] != "2.0"@[0] && "0.3"@[2] != "0.5"@[2]);
    assert("0.4"@[0] != "2.1"@[0] && "0.4"@[0] != "2.0"@[0] && "0.4"@[2] != "0.5"@[2] && "0.4"@[2]
        != "0.3"@[2]);
}

/// A text tagged 0.4 gives the same settings whenever it is read: the
/// record in its payload, brought up to the current settings, with the added
/// `c` off and no additional code.
pub proof fn lemma_import_of_0_4(payload: Seq<char>)
    requires
        !payload.contains(';'),
    ensures
        encoded_outcome("0.4"@ + seq![';'] + payload) == match compat::v0_4::payload_record(
            payload,
        ) {
            Ok(record) => Ok(compat::v0_4::upgraded(record)),
            Err(e) => Err(e),
        },
        compat::v0_4::payload_record(payload) is Ok ==> (encoded_outcome(
            "0.4"@ + seq![';'] + payload,
        ) matches Ok(settings) && settings.initial_c == false && settings.shader_data.additional
            == Seq::<char>::empty()),
{
    reveal_strlit("0.4");
    lemma_tagged_text("0.4"@, payload);
    lemma_dispatch_earlier(payload);
}

/// What an earlier record lacks comes out as the default: from 0.4 and 0.3
/// the added `c` is off, and no format before the current one carries
/// additional code.
pub proof fn lemma_earlier_records_get_defaults(
    a: compat::v0_3::UserSettingsView,
    b: compat::v0_4::UserSettingsView,
    c: compat::v0_5::UserSettingsView,
    d: compat::v2_0::UserSettingsView,
)
    ensures
        compat::v0_3::upgraded(a).initial_c == false,
        compat::v0_3::upgraded(a).smoothen == false,
        compat::v0_3::upgraded(a).internal_black == true,
        compat::v0_3::upgraded(a).shader_data.colour == DEFAULT_COLOUR@,
        compat::v0_3::upgraded(a).shader_data.additional == Seq::<char>::empty(),
        compat::v0_4::upgraded(b).initial_c == false,
        compat::v0_4::upgraded(b).shader_data.additional == Seq::<char>::empty(),
        compat::v0_5::upgraded(c).shader_data.additional == Seq::<char>::empty(),
        compat::v2_0::upgraded(d).shader_data.additional == Seq::<char>::empty(),
{
}

/// Malformed texts are rejected. An empty text, and one without a
/// semicolon, has no valid format. A tag that is neither the current one
/// nor an earlier one is a mismatch, whatever the payload. Under the
/// current tag a payload that base64 rejects is reported as such.
pub proof fn lemma_malformed_text_is_rejected(
    encoded: Seq<char>,
    tag: Seq<char>,
    payload: Seq<char>,
)
    ensures
        encoded.len() == 0 || !encoded.contains(';') ==> encoded_outcome(encoded) == Err::<
            UserSettingsView,
            InvalidSettingsImportError,
        >(InvalidSettingsImportError::InvalidFormat),
        tag != current_version_tag() && tag != "2.0"@ && tag != "0.5"@ && tag != "0.3"@ && tag
            != "0.4"@ ==> dispatch(tag, payload) == Err::<
            UserSettingsView,
            InvalidSettingsImportError,
        >(InvalidSettingsImportError::VersionMismatch),
        base64_bytes(payload) is None ==> dispatch(current_version_tag(), payload) == Err::<
            UserSettingsView,
            InvalidSettingsImportError,
        >(InvalidSettingsImportError::InvalidBase64),
{
    if !encoded.contains(';') {
        assert forall|j: int| 0 <= j < encoded.len() implies encoded[j] != ';' by {
            assert(encoded.contains(encoded[j]));
        }
        lemma_first_index_of(encoded, ';', encoded.len() as int);
    }
}

/// A link whose query is an encoded text is imported as that text is.
pub proof fn lemma_link_imports_as_its_query(link: Seq<char>, encoded: Seq<char>)
    requires
        url_query(link) == Some(Some(encoded)),
        url_query(encoded) is None,
    ensures
        import_outcome(link) == import_outcome(encoded),
{
}

/// The shape of a written text over a record of `n` bytes: the tag, one
/// semicolon, then as many base64 characters as `n` bytes need, with `=`
/// in the last two places at most.
pub open spec fn payload_shape(text: Seq<char>, n: nat) -> bool {
    &&& text.len() == 4 + base64_length(n)
    &&& text.subrange(0, 3) == current_version_tag()
    &&& text[3] == ';'
    &&& forall|i: int| 4 <= i < text.len() ==> is_base64_char(#[trigger] text[i])
    &&& forall|i: int| 4 <= i < text.len() && #[trigger] text[i] == '=' ==> i + 2 >= text.len()
}

/// A text of that shape holds exactly one semicolon, at index 3, and no
/// colon, so it is no link.
pub proof fn lemma_shaped_text_is_plain(text: Seq<char>, n: nat)
    requires
        payload_shape(text, n),
    ensures
        !text.contains(':'),
        forall|i: int| 0 <= i < text.len() ==> (text[i] == ';' <==> i == 3),
{
    reveal_strlit("2.1");
    assert forall|i: int| 0 <= i < text.len() implies (text[i] == ';' <==> i == 3) && text[i]
        != ':' by {
        if i < 3 {
            assert(text[i] == text.subrange(0, 3)[i]);
        } else if i > 3 {
            assert(is_base64_char(text[i]));
        }
    }
}

/// Text made of base64 characters holds neither a semicolon nor a colon.
pub proof fn lemma_base64_text_is_plain(text: Seq<char>)
    requires
        forall|i: int| 0 <= i < text.len() ==> is_base64_char(#[trigger] text[i]),
    ensures
        !text.contains(';'),
        !text.contains(':'),
{
}

/// The tag, a semicolon and the base64 text of `bytes`.
pub fn frame_payload(bytes: &[u8]) -> (r: String)
    requires
        base64_length(bytes@.len()) <= isize::MAX,
    ensures
        r@ == framed(bytes@),
        payload_shape(r@, bytes@.len()),
        encoded_outcome(r@) == match bincode_read_settings(bytes@) {
            Some(settings) => Ok::<UserSettingsView, InvalidSettingsImportError>(settings),
            None => Err(InvalidSettingsImportError::DeserialisationFailed),
        },
{
    let payload = wire::base64_encode(bytes);
    let mut text = get_major_minor_version();
    proof {
        reveal_strlit(";");
        reveal_strlit("2.1");
        lemma_base64_text_is_plain(payload@);
        lemma_tagged_text(current_version_tag(), payload@);
    }
    text.append(";");
    text.append(payload.as_str());
    proof {
        assert(text@ =~= framed(bytes@));
        assert(text@.subrange(0, 3) =~= current_version_tag());
        assert forall|i: int| 4 <= i < text@.len() implies is_base64_char(#[trigger] text@[i])
            && (text@[i] == '=' ==> i + 2 >= text@.len()) by {
            assert(text@[i] == payload@[i - 4]);
        }
    }
    text
}

/// The site's address, a question mark and the exported text.
pub fn share_link(site: &str, exported: &str) -> (r: String)
    ensures
        r@ == site@ + seq!['?'] + exported@,
{
    let mut link = site.to_owned();
    proof {
        reveal_strlit("?");
    }
    link.append("?");
    link.append(exported);
    assert(link@ =~= site@ + seq!['?'] + exported@);
    link
}

impl UserSettings {
    /// Whether the zoom and the escape threshold are above zero and there
    /// is at least one iteration.
    pub fn is_valid(&self) -> (r: bool)
        ensures
            r == self@.valid(),
    {
        0 < self.zoom && self.zoom <= INFINITY_BITS && 0 < self.escape_threshold
            && self.escape_threshold <= INFINITY_BITS && self.iterations >= 1
    }

    /// The text that stands for these settings. Reading it gives them back.
    pub fn export_string(&self) -> (r: String)
        requires
            exportable(self@),
        ensures
            r@ == export_text(self@),
            payload_shape(r@, record_length(self@)),
            encoded_outcome(r@) == Ok::<UserSettingsView, InvalidSettingsImportError>(self@),
    {
        match wire::bincode_write_settings(self) {
            Ok(bytes) => frame_payload(bytes.as_slice()),
            Err(_) => unreached(),
        }
    }

    /// The text that stands for these settings, or `None` where they cannot
    /// be written.
    pub fn try_export_string(&self) -> (r: Option<String>)
        ensures
            r is Some <==> exportable(self@),
            r matches Some(text) ==> text@ == export_text(self@) && payload_shape(
                text@,
                record_length(self@),
            ) && encoded_outcome(text@) == Ok::<UserSettingsView, InvalidSettingsImportError>(
                self@,
            ),
    {
        match wire::bincode_write_settings(self) {
            Ok(bytes) => {
                if bytes.len() <= base64_input_limit() {
                    Some(self.export_string())
                } else {
                    None
                }
            },
            Err(_) => unreached(),
        }
    }

    /// Reads an encoded text: a tag, a semicolon and a payload.
    pub fn import_encoded(encoded: &str) -> (r: Result<Self, InvalidSettingsImportError>)
        ensures
            result_view(r) == encoded_outcome(encoded@),
    {
        if encoded.is_empty() {
            return Err(InvalidSettingsImportError::InvalidFormat);
        }
        let (tag, payload) = match (split_piece(encoded, ';', 0), split_piece(encoded, ';', 1)) {
            (Some(tag), Some(payload)) => (tag, payload),
            _ => {
                return Err(InvalidSettingsImportError::InvalidFormat);
            },
        };
        let this_version = get_major_minor_version();
        if same_text(tag, this_version.as_str()) {
            let bytes = match wire::base64_decode(payload) {
                Ok(bytes) => bytes,
                Err(_) => {
                    return Err(InvalidSettingsImportError::InvalidBase64);
                },
            };
            match wire::bincode_read_settings_from(bytes.as_slice()) {
                Ok(settings) => Ok(settings),
                Err(_) => Err(InvalidSettingsImportError::DeserialisationFailed),
            }
        } else if same_text(tag, "2.0") {
            match compat::v2_0::UserSettings::import_string(payload) {
                Ok(record) => Ok(record.into()),
                Err(e) => Err(e),
            }
        } else if same_text(tag, "0.5") {
            match compat::v0_5::UserSettings::import_string(payload) {
                Ok(record) => Ok(record.into()),
                Err(e) => Err(e),
            }
        } else if same_text(tag, "0.3") {
            match compat::v0_3::UserSettings::import_string(payload) {
                Ok(record) => Ok(record.into()),
                Err(e) => Err(e),
            }
        } else if same_text(tag, "0.4") {
            match compat::v0_4::UserSettings::import_string(payload) {
                Ok(record) => Ok(record.into()),
                Err(e) => Err(e),
            }
        } else {
            Err(InvalidSettingsImportError::VersionMismatch)
        }
    }

    /// Reads settings from an exported text or from a link that carries one
    /// as its query. A text without a colon, and one that starts with a
    /// digit as every tag does, is no link and is read as it is.
    pub fn import_string(string: &str) -> (r: Result<Self, InvalidSettingsImportError>)
        ensures
            result_view(r) == import_outcome(string@),
            is_no_link(string@) ==> result_view(r) == encoded_outcome(string@),
    {
        match wire::url_query_of(string) {
            Ok(Some(query)) => Self::import_encoded(query.as_str()),
            Ok(None) => {
                let empty = String::new();
                Self::import_encoded(empty.as_str())
            },
            Err(_) => Self::import_encoded(string),
        }
    }

    /// These settings as they come back from their own exported text: the
    /// same settings, or `None` where they cannot be written.
    pub fn reimported(&self) -> (r: Option<Self>)
        ensures
            r is Some <==> exportable(self@),
            r matches Some(settings) ==> settings@ == self@,
    {
        match self.try_export_string() {
            Some(text) => {
                proof {
                    lemma_shaped_text_is_plain(text@, record_length(self@));
                }
                match Self::import_string(text.as_str()) {
                    Ok(settings) => Some(settings),
                    Err(_) => unreached(),
                }
            },
            None => None,
        }
    }

    /// Replaces the settings by what `text` holds. Where the text is not
    /// accepted the settings stay as they were.
    pub fn apply_import(&mut self, text: &str) -> (r: Result<(), InvalidSettingsImportError>)
        ensures
            match import_outcome(text@) {
                Ok(settings) => r is Ok && final(self)@ == settings,
                Err(e) => r == Err::<(), InvalidSettingsImportError>(e) && *final(self) == *old(
                    self,
                ),
            },
    {
        match Self::import_string(text) {
            Ok(settings) => {
                *self = settings;
                Ok(())
            },
            Err(e) => Err(e),
        }
    }

    /// The settings to start with. A page address that holds a question mark
    /// is imported; where that fails, or where there is no such address, the
    /// defaults are taken, and the failure is handed back beside them.
    pub fn initial(location: Option<&str>) -> (r: (Self, Option<InvalidSettingsImportError>))
        ensures
            match location {
                Some(address) if address@.contains('?') => match import_outcome(address@) {
                    Ok(settings) => r.0@ == settings && r.1 is None,
                    Err(e) => r.0@ == default_settings() && r.1 == Some(e),
                },
                _ => r.0@ == default_settings() && r.1 is None,
            },
    {
        match location {
            Some(address) => {
                if contains_char(address, '?') {
                    match Self::import_string(address) {
                        Ok(settings) => (settings, None),
                        Err(e) => (Self::default(), Some(e)),
                    }
                } else {
                    (Self::default(), None)
                }
            },
            None => (Self::default(), None),
        }
    }
}

} // verus!
