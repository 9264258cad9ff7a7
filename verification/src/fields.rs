//! The fields of a multipart request: their names, the request shapes that
//! accept them, the values they hold, and the errors of decoding them.

use crate::number::IntError;
use crate::text::{join, same};
use vstd::prelude::*;

verus! {

/// The shape of a request.
#[derive(Clone, Copy, Debug, PartialEq, Eq, Structural)]
pub enum Variant {
    /// An image from a text.
    Generation,
    /// An image from an image and a text.
    Edit,
    /// An image that varies another.
    Variation,
}

/// A field that some request accepts.
#[derive(Clone, Copy, Debug, PartialEq, Eq, Structural)]
pub enum Field {
    Prompt,
    NegativePrompt,
    Model,
    N,
    Size,
    ResponseFormat,
    User,
    CfgScale,
    SampleMethod,
    Steps,
    Height,
    Width,
    ControlStrength,
    ControlImage,
    Seed,
    Image,
    Mask,
    Strength,
}

/// How the generated images are returned.
#[derive(Clone, Copy, Debug, PartialEq, Eq, Structural)]
pub enum ResponseFormat {
    /// As links to download them.
    Url,
    /// As encoded bytes in the response.
    B64Json,
}

/// The method by which the engine samples.
#[derive(Clone, Copy, Debug, PartialEq, Eq, Structural)]
pub enum SamplingMethod {
    Euler,
    EulerA,
    Heun,
    Dpm2,
    DpmPlusPlus2sA,
    DpmPlusPlus2m,
    DpmPlusPlus2mv2,
    Ipndm,
    IpndmV,
    Lcm,
}

/// The name of a field on the wire.
pub open spec fn wire_name(field: Field) -> Seq<char> {
    match field {
        Field::Prompt => "prompt"@,
        Field::NegativePrompt => "negative_prompt"@,
        Field::Model => "model"@,
        Field::N => "n"@,
        Field::Size => "size"@,
        Field::ResponseFormat => "response_format"@,
        Field::User => "user"@,
        Field::CfgScale => "cfg_scale"@,
        Field::SampleMethod => "sample_method"@,
        Field::Steps => "steps"@,
        Field::Height => "height"@,
        Field::Width => "width"@,
        Field::ControlStrength => "control_strength"@,
        Field::ControlImage => "control_image"@,
        Field::Seed => "seed"@,
        Field::Image => "image"@,
        Field::Mask => "mask"@,
        Field::Strength => "strength"@,
    }
}

/// What a field is called where its part cannot be read.
pub open spec fn read_noun(field: Field) -> Seq<char> {
    match field {
        Field::Prompt => "prompt"@,
        Field::NegativePrompt => "prompt"@,
        Field::Model => "model"@,
        Field::N => "number of images"@,
        Field::Size => "size"@,
        Field::ResponseFormat => "response format"@,
        Field::User => "user"@,
        Field::CfgScale => "cfg_config"@,
        Field::SampleMethod => "sample_method"@,
        Field::Steps => "steps"@,
        Field::Height => "height"@,
        Field::Width => "width"@,
        Field::ControlStrength => "control_strength"@,
        Field::ControlImage => "image file"@,
        Field::Seed => "seed"@,
        Field::Image => "image file"@,
        Field::Mask => "image mask file"@,
        Field::Strength => "strength"@,
    }
}

/// What a field is called where its part holds no text.
pub open spec fn asked_noun(field: Field) -> Seq<char> {
    match field {
        Field::NegativePrompt => "negative prompt"@,
        Field::Model => "model name"@,
        _ => read_noun(field),
    }
}

/// How the field itself is named where its part holds no text.
pub open spec fn field_label(field: Field) -> Seq<char> {
    match field {
        Field::NegativePrompt => "negative prompt"@,
        Field::ResponseFormat => "response format"@,
        Field::CfgScale => "cfg_config"@,
        _ => wire_name(field),
    }
}

/// What a field is called where its text is no value of its type.
pub open spec fn parse_noun(field: Field) -> Seq<char> {
    match field {
        Field::CfgScale => "number of images"@,
        _ => read_noun(field),
    }
}

/// Whether a field holds an attached file.
pub open spec fn is_file_field(field: Field) -> bool {
    field == Field::Image || field == Field::Mask || field == Field::ControlImage
}

/// The field of this name, whatever request accepts it.
pub open spec fn field_named(name: Seq<char>) -> Option<Field> {
    if name == "prompt"@ {
        Some(Field::Prompt)
    } else if name == "negative_prompt"@ {
        Some(Field::NegativePrompt)
    } else if name == "model"@ {
        Some(Field::Model)
    } else if name == "n"@ {
        Some(Field::N)
    } else if name == "size"@ {
        Some(Field::Size)
    } else if name == "response_format"@ {
        Some(Field::ResponseFormat)
    } else if name == "user"@ {
        Some(Field::User)
    } else if name == "cfg_scale"@ {
        Some(Field::CfgScale)
    } else if name == "sample_method"@ {
        Some(Field::SampleMethod)
    } else if name == "steps"@ {
        Some(Field::Steps)
    } else if name == "height"@ {
        Some(Field::Height)
    } else if name == "width"@ {
        Some(Field::Width)
    } else if name == "control_strength"@ {
        Some(Field::ControlStrength)
    } else if name == "control_image"@ {
        Some(Field::ControlImage)
    } else if name == "seed"@ {
        Some(Field::Seed)
    } else if name == "image"@ {
        Some(Field::Image)
    } else if name == "mask"@ {
        Some(Field::Mask)
    } else if name == "strength"@ {
        Some(Field::Strength)
    } else {
        None
    }
}

/// Whether a request of this shape accepts the field.
pub open spec fn accepts(variant: Variant, field: Field) -> bool {
    match variant {
        Variant::Generation => !(field == Field::Image || field == Field::Mask || field
            == Field::Strength),
        Variant::Edit => true,
        Variant::Variation => field == Field::Image || field == Field::Model || field == Field::N
            || field == Field::Size || field == Field::ResponseFormat || field == Field::User,
    }
}

/// The field that a name stands for in a request of this shape.
pub open spec fn field_of(variant: Variant, name: Seq<char>) -> Option<Field> {
    match field_named(name) {
        Some(field) => if accepts(variant, field) {
            Some(field)
        } else {
            None
        },
        None => None,
    }
}

/// The name of a field on the wire.
pub fn name_of(field: Field) -> (r: &'static str)
    ensures
        r@ == wire_name(field),
{
    match field {
        Field::Prompt => "prompt",
        Field::NegativePrompt => "negative_prompt",
        Field::Model => "model",
        Field::N => "n",
        Field::Size => "size",
        Field::ResponseFormat => "response_format",
        Field::User => "user",
        Field::CfgScale => "cfg_scale",
        Field::SampleMethod => "sample_method",
        Field::Steps => "steps",
        Field::Height => "height",
        Field::Width => "width",
        Field::ControlStrength => "control_strength",
        Field::ControlImage => "control_image",
        Field::Seed => "seed",
        Field::Image => "image",
        Field::Mask => "mask",
        Field::Strength => "strength",
    }
}

/// What a field is called where its part cannot be read.
pub fn read_noun_of(field: Field) -> (r: &'static str)
    ensures
        r@ == read_noun(field),
{
    match field {
        Field::Prompt => "prompt",
        Field::NegativePrompt => "prompt",
        Field::Model => "model",
        Field::N => "number of images",
        Field::Size => "size",
        Field::ResponseFormat => "response format",
        Field::User => "user",
        Field::CfgScale => "cfg_config",
        Field::SampleMethod => "sample_method",
        Field::Steps => "steps",
        Field::Height => "height",
        Field::Width => "width",
        Field::ControlStrength => "control_strength",
        Field::ControlImage => "image file",
        Field::Seed => "seed",
        Field::Image => "image file",
        Field::Mask => "image mask file",
        Field::Strength => "strength",
    }
}

/// What a field is called where its part holds no text.
pub fn asked_noun_of(field: Field) -> (r: &'static str)
    ensures
        r@ == asked_noun(field),
{
    match field {
        Field::NegativePrompt => "negative prompt",
        Field::Model => "model name",
        _ => read_noun_of(field),
    }
}

/// How the field itself is named where its part holds no text.
pub fn field_label_of(field: Field) -> (r: &'static str)
    ensures
        r@ == field_label(field),
{
    match field {
        Field::NegativePrompt => "negative prompt",
        Field::ResponseFormat => "response format",
        Field::CfgScale => "cfg_config",
        _ => name_of(field),
    }
}

/// What a field is called where its text is no value of its type.
pub fn parse_noun_of(field: Field) -> (r: &'static str)
    ensures
        r@ == parse_noun(field),
{
    match field {
        Field::CfgScale => "number of images",
        _ => read_noun_of(field),
    }
}

/// Whether a field holds an attached file.
pub fn holds_file(field: Field) -> (r: bool)
    ensures
        r == is_file_field(field),
{
    match field {
        Field::Image => true,
        Field::Mask => true,
        Field::ControlImage => true,
        _ => false,
    }
}

fn named(name: &str) -> (r: Option<Field>)
    ensures
        r == field_named(name@),
{
    if same(name, "prompt") {
        Some(Field::Prompt)
    } else if same(name, "negative_prompt") {
        Some(Field::NegativePrompt)
    } else if same(name, "model") {
        Some(Field::Model)
    } else if same(name, "n") {
        Some(Field::N)
    } else if same(name, "size") {
        Some(Field::Size)
    } else if same(name, "response_format") {
        Some(Field::ResponseFormat)
    } else if same(name, "user") {
        Some(Field::User)
    } else if same(name, "cfg_scale") {
        Some(Field::CfgScale)
    } else if same(name, "sample_method") {
        Some(Field::SampleMethod)
    } else if same(name, "steps") {
        Some(Field::Steps)
    } else if same(name, "height") {
        Some(Field::Height)
    } else if same(name, "width") {
        Some(Field::Width)
    } else if same(name, "control_strength") {
        Some(Field::ControlStrength)
    } else if same(name, "control_image") {
        Some(Field::ControlImage)
    } else if same(name, "seed") {
        Some(Field::Seed)
    } else if same(name, "image") {
        Some(Field::Image)
    } else if same(name, "mask") {
        Some(Field::Mask)
    } else if same(name, "strength") {
        Some(Field::Strength)
    } else {
        None
    }
}

fn accepted(variant: Variant, field: Field) -> (r: bool)
    ensures
        r == accepts(variant, field),
{
    match variant {
        Variant::Generation => match field {
            Field::Image => false,
            Field::Mask => false,
            Field::Strength => false,
            _ => true,
        },
        Variant::Edit => true,
        Variant::Variation => match field {
            Field::Image => true,
            Field::Model => true,
            Field::N => true,
            Field::Size => true,
            Field::ResponseFormat => true,
            Field::User => true,
            _ => false,
        },
    }
}

/// The field that a name stands for in a request of this shape; `None` for
/// a name that the shape does not accept.
pub fn lookup(variant: Variant, name: &str) -> (r: Option<Field>)
    ensures
        r == field_of(variant, name@),
{
    match named(name) {
        Some(field) => if accepted(variant, field) {
            Some(field)
        } else {
            None
        },
        None => None,
    }
}

/// The lower-case form of a text, as `str::to_lowercase` gives it.
pub uninterp spec fn lowercase_of(s: Seq<char>) -> Seq<char>;

/// The response format that a lower-case text names.
pub open spec fn response_format_of(lower: Seq<char>) -> Option<ResponseFormat> {
    if lower == "url"@ {
        Some(ResponseFormat::Url)
    } else if lower == "b64_json"@ {
        Some(ResponseFormat::B64Json)
    } else {
        None
    }
}

/// The sampling method that a lower-case text names; a text that names none
/// stands for `EulerA`.
pub open spec fn sampling_method_of(lower: Seq<char>) -> SamplingMethod {
    if lower == "euler"@ {
        SamplingMethod::Euler
    } else if lower == "euler_a"@ {
        SamplingMethod::EulerA
    } else if lower == "heun"@ {
        SamplingMethod::Heun
    } else if lower == "dpm2"@ {
        SamplingMethod::Dpm2
    } else if lower == "dpm++2s_a"@ {
        SamplingMethod::DpmPlusPlus2sA
    } else if lower == "dpm++2m"@ {
        SamplingMethod::DpmPlusPlus2m
    } else if lower == "dpm++2mv2"@ {
        SamplingMethod::DpmPlusPlus2mv2
    } else if lower == "ipndm"@ {
        SamplingMethod::Ipndm
    } else if lower == "ipndm_v"@ {
        SamplingMethod::IpndmV
    } else if lower == "lcm"@ {
        SamplingMethod::Lcm
    } else {
        SamplingMethod::EulerA
    }
}

/// Calls `str::to_lowercase`.
#[verifier::external_body]
pub(crate) fn lowercase(s: &str) -> (r: String)
    ensures
        r@ == lowercase_of(s@),
{
    s.to_lowercase()
}

/// Reads a response format with the `FromStr` of
/// `endpoints::images::ResponseFormat`, which compares the lower-case form
/// of the text with the two names and fails on any other.
#[verifier::external_body]
pub(crate) fn read_response_format(s: &str) -> (r: Option<ResponseFormat>)
    ensures
        r == response_format_of(lowercase_of(s@)),
{
    match s.parse::<endpoints::images::ResponseFormat>() {
        Ok(endpoints::images::ResponseFormat::Url) => Some(ResponseFormat::Url),
        Ok(endpoints::images::ResponseFormat::B64Json) => Some(ResponseFormat::B64Json),
        Err(_) => None,
    }
}

/// Reads a sampling method with the `From<&str>` of
/// `endpoints::images::SamplingMethod`, which compares the lower-case form
/// of the text with the ten names and falls back on `EulerA`.
#[verifier::external_body]
pub(crate) fn read_sampling_method(s: &str) -> (r: SamplingMethod)
    ensures
        r == sampling_method_of(lowercase_of(s@)),
{
    match endpoints::images::SamplingMethod::from(s) {
        endpoints::images::SamplingMethod::Euler => SamplingMethod::Euler,
        endpoints::images::SamplingMethod::EulerA => SamplingMethod::EulerA,
        endpoints::images::SamplingMethod::Heun => SamplingMethod::Heun,
        endpoints::images::SamplingMethod::Dpm2 => SamplingMethod::Dpm2,
        endpoints::images::SamplingMethod::DpmPlusPlus2sA => SamplingMethod::DpmPlusPlus2sA,
        endpoints::images::SamplingMethod::DpmPlusPlus2m => SamplingMethod::DpmPlusPlus2m,
        endpoints::images::SamplingMethod::DpmPlusPlus2mv2 => SamplingMethod::DpmPlusPlus2mv2,
        endpoints::images::SamplingMethod::Ipndm => SamplingMethod::Ipndm,
        endpoints::images::SamplingMethod::IpndmV => SamplingMethod::IpndmV,
        endpoints::images::SamplingMethod::Lcm => SamplingMethod::Lcm,
    }
}

/// Why a text is not a value of the wanted type.
#[derive(Clone, Copy, Debug, PartialEq, Eq, Structural)]
pub enum ParseReason {
    /// It is no integer of the type.
    Int(IntError),
    /// A real number was wanted and the text is empty.
    EmptyReal,
    /// It is not written as a real number.
    InvalidReal,
    /// It names no response format.
    UnknownFormat,
}

/// The text of a reason.
pub open spec fn reason_text(reason: ParseReason) -> Seq<char> {
    match reason {
        ParseReason::Int(IntError::Empty) => "cannot parse integer from empty string"@,
        ParseReason::Int(IntError::InvalidDigit) => "invalid digit found in string"@,
        ParseReason::Int(IntError::PosOverflow) => "number too large to fit in target type"@,
        ParseReason::Int(IntError::NegOverflow) => "number too small to fit in target type"@,
        ParseReason::EmptyReal => "cannot parse float from empty string"@,
        ParseReason::InvalidReal => "invalid float literal"@,
        ParseReason::UnknownFormat => "provided string did not match any ResponseFormat variants"@,
    }
}

/// The text of a reason.
pub fn reason_message(reason: ParseReason) -> (r: &'static str)
    ensures
        r@ == reason_text(reason),
{
    match reason {
        ParseReason::Int(IntError::Empty) => "cannot parse integer from empty string",
        ParseReason::Int(IntError::InvalidDigit) => "invalid digit found in string",
        ParseReason::Int(IntError::PosOverflow) => "number too large to fit in target type",
        ParseReason::Int(IntError::NegOverflow) => "number too small to fit in target type",
        ParseReason::EmptyReal => "cannot parse float from empty string",
        ParseReason::InvalidReal => "invalid float literal",
        ParseReason::UnknownFormat => "provided string did not match any ResponseFormat variants",
    }
}

/// Why a request could not be decoded.
#[derive(Debug)]
pub enum DecodeError {
    /// A part that should hold text declares another content.
    NotText { field: Field },
    /// A part that should hold a file names none.
    MissingFilename { field: Field },
    /// The bytes of a part could not be read as what it should hold.
    Unreadable { field: Field, reason: String },
    /// The text of a part is no value of the field's type.
    Parse { field: Field, raw: String, cause: ParseReason },
    /// The text of a `size` field is not two numbers around an `x`.
    InvalidSize { raw: String },
    /// The request does not accept a field of this name.
    UnsupportedField { name: String },
    /// A field that the request needs is absent.
    MissingField { field: Field },
    /// An attached file could not be stored.
    Storage { filename: String, reason: String },
}

pub ghost enum DecodeErrorView {
    NotText { field: Field },
    MissingFilename { field: Field },
    Unreadable { field: Field, reason: Seq<char> },
    Parse { field: Field, raw: Seq<char>, cause: ParseReason },
    InvalidSize { raw: Seq<char> },
    UnsupportedField { name: Seq<char> },
    MissingField { field: Field },
    Storage { filename: Seq<char>, reason: Seq<char> },
}

impl View for DecodeError {
    type V = DecodeErrorView;

    open spec fn view(&self) -> DecodeErrorView {
        match self {
            DecodeError::NotText { field } => DecodeErrorView::NotText { field: *field },
            DecodeError::MissingFilename { field } => DecodeErrorView::MissingFilename {
                field: *field,
            },
            DecodeError::Unreadable { field, reason } => DecodeErrorView::Unreadable {
                field: *field,
                reason: reason@,
            },
            DecodeError::Parse { field, raw, cause } => DecodeErrorView::Parse {
                field: *field,
                raw: raw@,
                cause: *cause,
            },
            DecodeError::InvalidSize { raw } => DecodeErrorView::InvalidSize { raw: raw@ },
            DecodeError::UnsupportedField { name } => DecodeErrorView::UnsupportedField {
                name: name@,
            },
            DecodeError::MissingField { field } => DecodeErrorView::MissingField { field: *field },
            DecodeError::Storage { filename, reason } => DecodeErrorView::Storage {
                filename: filename@,
                reason: reason@,
            },
        }
    }
}

/// Whether the error is the client's: a value that does not parse, a field
/// that is unknown or missing. The others are reported as the server's.
pub open spec fn is_client_error(e: DecodeErrorView) -> bool {
    e is Parse || e is InvalidSize || e is UnsupportedField || e is MissingField
}

/// The text of an error, as it is shown to the client.
pub open spec fn decode_error_text(e: DecodeErrorView) -> Seq<char> {
    match e {
        DecodeErrorView::NotText { field } => "Failed to get the "@ + asked_noun(field)
            + ". The "@ + field_label(field) + " field in the request should be a text field."@,
        DecodeErrorView::MissingFilename { field } => "Failed to upload the "@ + read_noun(field)
            + ". The filename is not provided."@,
        DecodeErrorView::Unreadable { field, reason } => "Failed to read the "@ + read_noun(field)
            + ". "@ + reason,
        DecodeErrorView::Parse { field, raw, cause } => "Failed to parse the "@ + parse_noun(field)
            + ". Reason: "@ + reason_text(cause),
        DecodeErrorView::InvalidSize { raw } =>
            "Invalid size format. The correct format is `HeightxWidth`. Example: 256x256"@,
        DecodeErrorView::UnsupportedField { name } => "Unsupported field: "@ + name,
        DecodeErrorView::MissingField { field } => "Missing field: "@ + wire_name(field),
        DecodeErrorView::Storage { filename, reason } => "Failed to create archive document "@
            + filename + ". "@ + reason,
    }
}

impl DecodeError {
    /// Whether the error is the client's.
    pub fn is_bad_request(&self) -> (r: bool)
        ensures
            r == is_client_error(self@),
    {
        match self {
            DecodeError::Parse { .. } => true,
            DecodeError::InvalidSize { .. } => true,
            DecodeError::UnsupportedField { .. } => true,
            DecodeError::MissingField { .. } => true,
            _ => false,
        }
    }

    /// The text of the error.
    pub fn message(&self) -> (r: String)
        ensures
            r@ == decode_error_text(self@),
    {
        match self {
            DecodeError::NotText { field } => {
                let a = join("Failed to get the ", asked_noun_of(*field));
                let b = join(a.as_str(), ". The ");
                let c = join(b.as_str(), field_label_of(*field));
                join(c.as_str(), " field in the request should be a text field.")
            },
            DecodeError::MissingFilename { field } => {
                let a = join("Failed to upload the ", read_noun_of(*field));
                join(a.as_str(), ". The filename is not provided.")
            },
            DecodeError::Unreadable { field, reason } => {
                let a = join("Failed to read the ", read_noun_of(*field));
                let b = join(a.as_str(), ". ");
                join(b.as_str(), reason.as_str())
            },
            DecodeError::Parse { field, raw, cause } => {
                let a = join("Failed to parse the ", parse_noun_of(*field));
                let b = join(a.as_str(), ". Reason: ");
                join(b.as_str(), reason_message(*cause))
            },
            DecodeError::InvalidSize { raw } =>
                "Invalid size format. The correct format is `HeightxWidth`. Example: 256x256".to_owned(),
            DecodeError::UnsupportedField { name } => join("Unsupported field: ", name.as_str()),
            DecodeError::MissingField { field } => join("Missing field: ", name_of(*field)),
            DecodeError::Storage { filename, reason } => {
                let a = join("Failed to create archive document ", filename.as_str());
                let b = join(a.as_str(), ". ");
                join(b.as_str(), reason.as_str())
            },
        }
    }
}

} // verus!
