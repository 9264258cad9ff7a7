//! The request as it is assembled, part by part.
//!
//! A draft holds every field that some request accepts. Each part of the
//! body is decoded by the name of its field and written into the draft; an
//! attached file is stored in the registry and the draft refers to it. The
//! first part that cannot be decoded ends the assembly.

use crate::fields::{
    field_of, holds_file, is_file_field, lookup, lowercase_of, read_response_format,
    read_sampling_method, response_format_of, sampling_method_of, DecodeError, DecodeErrorView,
    Field, ParseReason, ResponseFormat, SamplingMethod, Variant,
};
use crate::files::{
    added, file_view, holds, new_entry, FileError, FileObject, FileObjectView, FileRegistry,
    Store,
};
use crate::multipart::{Part, PartView};
use crate::number::{is_real, parse_i32, parse_unsigned, real_syntax, signed_of, unsigned_of};
use crate::text::{char_len, split, split_on, text_view, views};
use vstd::prelude::*;
use vstd::utf8::{decode_utf8, valid_utf8};

verus! {

/// The fields of a request that were decoded so far.
#[derive(Debug)]
pub struct Draft {
    pub prompt: String,
    pub negative_prompt: Option<String>,
    pub model: Option<String>,
    pub n: Option<u64>,
    pub size: Option<String>,
    pub response_format: Option<ResponseFormat>,
    pub user: Option<String>,
    /// A real number, kept as it was written.
    pub cfg_scale: Option<String>,
    pub sample_method: Option<SamplingMethod>,
    pub steps: Option<usize>,
    pub height: Option<usize>,
    pub width: Option<usize>,
    /// A real number, kept as it was written.
    pub control_strength: Option<String>,
    pub control_image: Option<FileObject>,
    pub seed: Option<i32>,
    /// A real number, kept as it was written.
    pub strength: Option<String>,
    pub image: Option<FileObject>,
    pub mask: Option<FileObject>,
}

pub ghost struct DraftView {
    pub prompt: Seq<char>,
    pub negative_prompt: Option<Seq<char>>,
    pub model: Option<Seq<char>>,
    pub n: Option<u64>,
    pub size: Option<Seq<char>>,
    pub response_format: Option<ResponseFormat>,
    pub user: Option<Seq<char>>,
    pub cfg_scale: Option<Seq<char>>,
    pub sample_method: Option<SamplingMethod>,
    pub steps: Option<usize>,
    pub height: Option<usize>,
    pub width: Option<usize>,
    pub control_strength: Option<Seq<char>>,
    pub control_image: Option<FileObjectView>,
    pub seed: Option<i32>,
    pub strength: Option<Seq<char>>,
    pub image: Option<FileObjectView>,
    pub mask: Option<FileObjectView>,
}

impl View for Draft {
    type V = DraftView;

    open spec fn view(&self) -> DraftView {
        DraftView {
            prompt: self.prompt@,
            negative_prompt: text_view(self.negative_prompt),
            model: text_view(self.model),
            n: self.n,
            size: text_view(self.size),
            response_format: self.response_format,
            user: text_view(self.user),
            cfg_scale: text_view(self.cfg_scale),
            sample_method: self.sample_method,
            steps: self.steps,
            height: self.height,
            width: self.width,
            control_strength: text_view(self.control_strength),
            control_image: file_view(self.control_image),
            seed: self.seed,
            strength: text_view(self.strength),
            image: file_view(self.image),
            mask: file_view(self.mask),
        }
    }
}

/// The draft before any part: the defaults of the request's shape. A
/// variation has none.
pub open spec fn start_view(variant: Variant) -> DraftView {
    if variant == Variant::Variation {
        DraftView {
            prompt: Seq::empty(),
            negative_prompt: None,
            model: None,
            n: None,
            size: None,
            response_format: None,
            user: None,
            cfg_scale: None,
            sample_method: None,
            steps: None,
            height: None,
            width: None,
            control_strength: None,
            control_image: None,
            seed: None,
            strength: None,
            image: None,
            mask: None,
        }
    } else {
        DraftView {
            prompt: Seq::empty(),
            negative_prompt: Some(Seq::empty()),
            model: None,
            n: Some(1),
            size: None,
            response_format: Some(ResponseFormat::Url),
            user: None,
            cfg_scale: Some("7.0"@),
            sample_method: Some(SamplingMethod::EulerA),
            steps: Some(20),
            height: Some(512),
            width: Some(512),
            control_strength: Some("0.9"@),
            control_image: None,
            seed: Some(42),
            strength: Some("0.75"@),
            image: None,
            mask: None,
        }
    }
}

/// The error of a text that is no value of the field's type.
pub open spec fn parse_error(field: Field, raw: Seq<char>, reason: ParseReason) -> DecodeErrorView {
    DecodeErrorView::Parse { field, raw, cause: reason }
}

/// The text of a real number, or why it is none.
pub open spec fn real_of(field: Field, text: Seq<char>) -> Result<Seq<char>, DecodeErrorView> {
    if real_syntax(text) {
        Ok(text)
    } else if text.len() == 0 {
        Err(parse_error(field, text, ParseReason::EmptyReal))
    } else {
        Err(parse_error(field, text, ParseReason::InvalidReal))
    }
}

/// The unsigned integer of at most `max` that a text holds, or why it
/// holds none.
pub open spec fn count_of(field: Field, text: Seq<char>, max: int) -> Result<int, DecodeErrorView> {
    match unsigned_of(text, max) {
        Ok(v) => Ok(v),
        Err(e) => Err(parse_error(field, text, ParseReason::Int(e))),
    }
}

/// The height and the width that a size holds: two unsigned integers
/// around one `x`.
pub open spec fn size_of(text: Seq<char>) -> Result<(usize, usize), DecodeErrorView> {
    let pieces = split_on(text, 'x');
    if pieces.len() != 2 {
        Err(DecodeErrorView::InvalidSize { raw: text })
    } else {
        match (unsigned_of(pieces[0], usize::MAX as int), unsigned_of(pieces[1], usize::MAX as int)) {
            (Ok(h), Ok(w)) => Ok((h as usize, w as usize)),
            _ => Err(DecodeErrorView::InvalidSize { raw: text }),
        }
    }
}

/// The draft with the text of a field written into it. A field set twice
/// keeps the later value; `size` sets the height and the width.
pub open spec fn with_text(variant: Variant, draft: DraftView, field: Field, text: Seq<char>) -> Result<
    DraftView,
    DecodeErrorView,
> {
    match field {
        Field::Prompt => Ok(DraftView { prompt: text, ..draft }),
        Field::NegativePrompt => Ok(DraftView { negative_prompt: Some(text), ..draft }),
        Field::Model => Ok(DraftView { model: Some(text), ..draft }),
        Field::User => Ok(DraftView { user: Some(text), ..draft }),
        Field::N => match count_of(field, text, u64::MAX as int) {
            Ok(v) => Ok(DraftView { n: Some(v as u64), ..draft }),
            Err(e) => Err(e),
        },
        Field::Steps => match count_of(field, text, usize::MAX as int) {
            Ok(v) => Ok(DraftView { steps: Some(v as usize), ..draft }),
            Err(e) => Err(e),
        },
        Field::Height => match count_of(field, text, usize::MAX as int) {
            Ok(v) => Ok(DraftView { height: Some(v as usize), ..draft }),
            Err(e) => Err(e),
        },
        Field::Width => match count_of(field, text, usize::MAX as int) {
            Ok(v) => Ok(DraftView { width: Some(v as usize), ..draft }),
            Err(e) => Err(e),
        },
        Field::Seed => match signed_of(text, i32::MAX as int) {
            Ok(v) => Ok(DraftView { seed: Some(v as i32), ..draft }),
            Err(e) => Err(parse_error(field, text, ParseReason::Int(e))),
        },
        Field::Size => match size_of(text) {
            Ok((h, w)) => if variant == Variant::Variation {
                Ok(DraftView { size: Some(text), ..draft })
            } else {
                Ok(DraftView { height: Some(h), width: Some(w), ..draft })
            },
            Err(e) => Err(e),
        },
        Field::ResponseFormat => match response_format_of(lowercase_of(text)) {
            Some(format) => Ok(DraftView { response_format: Some(format), ..draft }),
            None => Err(parse_error(field, text, ParseReason::UnknownFormat)),
        },
        Field::SampleMethod => Ok(
            DraftView { sample_method: Some(sampling_method_of(lowercase_of(text))), ..draft },
        ),
        Field::CfgScale => match real_of(field, text) {
            Ok(t) => Ok(DraftView { cfg_scale: Some(t), ..draft }),
            Err(e) => Err(e),
        },
        Field::ControlStrength => match real_of(field, text) {
            Ok(t) => Ok(DraftView { control_strength: Some(t), ..draft }),
            Err(e) => Err(e),
        },
        Field::Strength => match real_of(field, text) {
            Ok(t) => Ok(DraftView { strength: Some(t), ..draft }),
            Err(e) => Err(e),
        },
        Field::Image => Ok(draft),
        Field::Mask => Ok(draft),
        Field::ControlImage => Ok(draft),
    }
}

/// The draft with a stored file attached to it.
pub open spec fn with_file(draft: DraftView, field: Field, meta: FileObjectView) -> DraftView {
    match field {
        Field::Image => DraftView { image: Some(meta), ..draft },
        Field::Mask => DraftView { mask: Some(meta), ..draft },
        Field::ControlImage => DraftView { control_image: Some(meta), ..draft },
        _ => draft,
    }
}

/// The reason that is given where a file cannot be stored under `id`.
pub open spec fn in_use(id: Seq<char>) -> Seq<char> {
    "The identifier is in use: "@ + id
}

/// What one part does to the draft and to the registry, where `id` is the
/// identifier that a file of this part would be stored under.
///
/// A part whose name the request does not accept is rejected. A part of a
/// file field needs a file name and is stored whole. A part of any other
/// field must be text in UTF-8, and its text a value of the field's type.
pub open spec fn step(
    variant: Variant,
    draft: DraftView,
    store: Store,
    part: PartView,
    id: Seq<char>,
    now: u64,
) -> Result<(DraftView, Store), DecodeErrorView> {
    match field_of(variant, part.name) {
        None => Err(DecodeErrorView::UnsupportedField { name: part.name }),
        Some(field) => if is_file_field(field) {
            match part.filename {
                None => Err(DecodeErrorView::MissingFilename { field }),
                Some(filename) => match part.failure {
                    Some(reason) => Err(DecodeErrorView::Unreadable { field, reason }),
                    None => if holds(store, id) {
                        Err(DecodeErrorView::Storage { filename, reason: in_use(id) })
                    } else {
                        let entry = new_entry(id, filename, part.data, now);
                        Ok((with_file(draft, field, entry.meta), added(store, entry)))
                    },
                },
            }
        } else if !part.is_text {
            Err(DecodeErrorView::NotText { field })
        } else {
            match part.failure {
                Some(reason) => Err(DecodeErrorView::Unreadable { field, reason }),
                None => if !valid_utf8(part.data) {
                    Err(
                        DecodeErrorView::Unreadable {
                            field,
                            reason: "stream did not contain valid UTF-8"@,
                        },
                    )
                } else {
                    match with_text(variant, draft, field, decode_utf8(part.data)) {
                        Ok(d) => Ok((d, store)),
                        Err(e) => Err(e),
                    }
                },
            }
        },
    }
}

/// What the parts do to the draft and to the registry, one after another,
/// up to the first that fails. Each part comes with the identifier that a
/// file of it would be stored under. The registry keeps the files of the
/// parts before the failing one.
pub open spec fn run(
    variant: Variant,
    draft: DraftView,
    store: Store,
    items: Seq<(PartView, Seq<char>)>,
    now: u64,
) -> (Result<DraftView, DecodeErrorView>, Store)
    decreases items.len(),
{
    if items.len() == 0 {
        (Ok(draft), store)
    } else {
        match step(variant, draft, store, items[0].0, items[0].1, now) {
            Ok((d, s)) => run(variant, d, s, items.skip(1), now),
            Err(e) => (Err(e), store),
        }
    }
}

/// Calls `String::from_utf8`: the text that the bytes encode, where they
/// are valid UTF-8.
#[verifier::external_body]
fn text_of(data: Vec<u8>) -> (r: Option<String>)
    ensures
        r.is_some() == valid_utf8(data@),
        r.is_some() ==> r.unwrap()@ == decode_utf8(data@),
{
    String::from_utf8(data).ok()
}

/// Reads a real number: the text itself where it is written as one.
pub fn decode_real(field: Field, text: String) -> (r: Result<String, DecodeError>)
    ensures
        match real_of(field, text@) {
            Ok(t) => r.is_ok() && r.unwrap()@ == t,
            Err(e) => r.is_err() && r.unwrap_err()@ == e,
        },
{
    if is_real(text.as_str()) {
        Ok(text)
    } else if char_len(text.as_str()) == 0 {
        Err(DecodeError::Parse { field, raw: text, cause: ParseReason::EmptyReal })
    } else {
        Err(DecodeError::Parse { field, raw: text, cause: ParseReason::InvalidReal })
    }
}

/// Reads an unsigned integer of at most `max`.
pub fn decode_count(field: Field, text: String, max: u64) -> (r: Result<u64, DecodeError>)
    ensures
        match count_of(field, text@, max as int) {
            Ok(v) => r.is_ok() && r.unwrap() == v && 0 <= v <= max,
            Err(e) => r.is_err() && r.unwrap_err()@ == e,
        },
{
    match parse_unsigned(text.as_str(), max) {
        Ok(v) => Ok(v),
        Err(e) => Err(DecodeError::Parse { field, raw: text, cause: ParseReason::Int(e) }),
    }
}

/// Reads a size: the height and the width around one `x`.
pub fn decode_size(text: &str) -> (r: Result<(usize, usize), DecodeError>)
    ensures
        match size_of(text@) {
            Ok(hw) => r.is_ok() && r.unwrap() == hw,
            Err(e) => r.is_err() && r.unwrap_err()@ == e,
        },
{
    let pieces = split(text, 'x');
    assert(views(pieces@).len() == pieces@.len());
    if pieces.len() != 2 {
        return Err(DecodeError::InvalidSize { raw: text.to_owned() });
    }
    assert(views(pieces@)[0] == pieces@[0]@);
    assert(views(pieces@)[1] == pieces@[1]@);
    let height = parse_unsigned(pieces[0].as_str(), usize::MAX as u64);
    let width = parse_unsigned(pieces[1].as_str(), usize::MAX as u64);
    match (height, width) {
        (Ok(h), Ok(w)) => Ok((h as usize, w as usize)),
        _ => Err(DecodeError::InvalidSize { raw: text.to_owned() }),
    }
}

impl Draft {
    /// The draft before any part.
    pub fn start(variant: Variant) -> (r: Draft)
        ensures
            r@ == start_view(variant),
    {
        match variant {
            Variant::Variation => Draft {
                prompt: String::new(),
                negative_prompt: None,
                model: None,
                n: None,
                size: None,
                response_format: None,
                user: None,
                cfg_scale: None,
                sample_method: None,
                steps: None,
                height: None,
                width: None,
                control_strength: None,
                control_image: None,
                seed: None,
                strength: None,
                image: None,
                mask: None,
            },
            _ => Draft {
                prompt: String::new(),
                negative_prompt: Some(String::new()),
                model: None,
                n: Some(1),
                size: None,
                response_format: Some(ResponseFormat::Url),
                user: None,
                cfg_scale: Some("7.0".to_owned()),
                sample_method: Some(SamplingMethod::EulerA),
                steps: Some(20),
                height: Some(512),
                width: Some(512),
                control_strength: Some("0.9".to_owned()),
                control_image: None,
                seed: Some(42),
                strength: Some("0.75".to_owned()),
                image: None,
                mask: None,
            },
        }
    }

    /// Writes the text of a field into the draft.
    pub fn set_text(&mut self, variant: Variant, field: Field, text: String) -> (r: Result<
        (),
        DecodeError,
    >)
        ensures
            match with_text(variant, old(self)@, field, text@) {
                Ok(d) => r.is_ok() && final(self)@ == d,
                Err(e) => r.is_err() && r.unwrap_err()@ == e && final(self)@ == old(self)@,
            },
    {
        match field {
            Field::Prompt => {
                self.prompt = text;
            },
            Field::NegativePrompt => {
                self.negative_prompt = Some(text);
            },
            Field::Model => {
                self.model = Some(text);
            },
            Field::User => {
                self.user = Some(text);
            },
            Field::N => {
                let v = decode_count(field, text, u64::MAX)?;
                self.n = Some(v);
            },
            Field::Steps => {
                let v = decode_count(field, text, usize::MAX as u64)?;
                self.steps = Some(v as usize);
            },
            Field::Height => {
                let v = decode_count(field, text, usize::MAX as u64)?;
                self.height = Some(v as usize);
            },
            Field::Width => {
                let v = decode_count(field, text, usize::MAX as u64)?;
                self.width = Some(v as usize);
            },
            Field::Seed => {
                match parse_i32(text.as_str()) {
                    Ok(v) => {
                        self.seed = Some(v);
                    },
                    Err(e) => {
                        return Err(
                            DecodeError::Parse { field, raw: text, cause: ParseReason::Int(e) },
                        );
                    },
                }
            },
            Field::Size => {
                let (h, w) = decode_size(text.as_str())?;
                match variant {
                    Variant::Variation => {
                        self.size = Some(text);
                    },
                    _ => {
                        self.height = Some(h);
                        self.width = Some(w);
                    },
                }
            },
            Field::ResponseFormat => {
                match read_response_format(text.as_str()) {
                    Some(format) => {
                        self.response_format = Some(format);
                    },
                    None => {
                        return Err(
                            DecodeError::Parse {
                                field,
                                raw: text,
                                cause: ParseReason::UnknownFormat,
                            },
                        );
                    },
                }
            },
            Field::SampleMethod => {
                self.sample_method = Some(read_sampling_method(text.as_str()));
            },
            Field::CfgScale => {
                let t = decode_real(field, text)?;
                self.cfg_scale = Some(t);
            },
            Field::ControlStrength => {
                let t = decode_real(field, text)?;
                self.control_strength = Some(t);
            },
            Field::Strength => {
                let t = decode_real(field, text)?;
                self.strength = Some(t);
            },
            Field::Image => {},
            Field::Mask => {},
            Field::ControlImage => {},
        }
        Ok(())
    }

    /// Attaches a stored file to the draft.
    pub fn set_file(&mut self, field: Field, meta: FileObject)
        ensures
            final(self)@ == with_file(old(self)@, field, meta@),
    {
        match field {
            Field::Image => {
                self.image = Some(meta);
            },
            Field::Mask => {
                self.mask = Some(meta);
            },
            Field::ControlImage => {
                self.control_image = Some(meta);
            },
            _ => {},
        }
    }

    /// Decodes one part into the draft. A file is stored in the registry
    /// under `id`. Where the part is rejected, neither the draft nor the
    /// registry changes.
    pub fn apply(
        &mut self,
        variant: Variant,
        registry: &mut FileRegistry,
        part: &Part,
        id: &str,
        now: u64,
    ) -> (r: Result<(), DecodeError>)
        requires
            old(registry).wf(),
        ensures
            final(registry).wf(),
            match step(variant, old(self)@, old(registry)@, part@, id@, now) {
                Ok((d, s)) => r.is_ok() && final(self)@ == d && final(registry)@ == s,
                Err(e) => {
                    &&& r.is_err()
                    &&& r.unwrap_err()@ == e
                    &&& final(self)@ == old(self)@
                    &&& final(registry)@ == old(registry)@
                },
            },
    {
        let field = match lookup(variant, part.name.as_str()) {
            Some(field) => field,
            None => {
                return Err(DecodeError::UnsupportedField { name: part.name.clone() });
            },
        };
        if holds_file(field) {
            let filename = match &part.filename {
                Some(filename) => filename.clone(),
                None => {
                    return Err(DecodeError::MissingFilename { field });
                },
            };
            if let Some(reason) = &part.failure {
                return Err(DecodeError::Unreadable { field, reason: reason.clone() });
            }
            let kept = filename.clone();
            match registry.insert(id.to_owned(), filename, part.data.clone(), now) {
                Ok(meta) => {
                    self.set_file(field, meta);
                    Ok(())
                },
                Err(e) => match e {
                    FileError::Storage { reason } => Err(
                        DecodeError::Storage { filename: kept, reason },
                    ),
                    _ => Err(DecodeError::Storage { filename: kept, reason: e.message() }),
                },
            }
        } else {
            if !part.is_text {
                return Err(DecodeError::NotText { field });
            }
            if let Some(reason) = &part.failure {
                return Err(DecodeError::Unreadable { field, reason: reason.clone() });
            }
            match text_of(part.data.clone()) {
                Some(text) => self.set_text(variant, field, text),
                None => Err(
                    DecodeError::Unreadable {
                        field,
                        reason: "stream did not contain valid UTF-8".to_owned(),
                    },
                ),
            }
        }
    }

    /// Decodes the parts into a draft, one after another, up to the first
    /// that is rejected.
    pub fn assemble(
        variant: Variant,
        items: &Vec<(Part, String)>,
        registry: &mut FileRegistry,
        now: u64,
    ) -> (r: Result<Draft, DecodeError>)
        requires
            old(registry).wf(),
        ensures
            final(registry).wf(),
            final(registry)@ == run(
                variant,
                start_view(variant),
                old(registry)@,
                item_views(items@),
                now,
            ).1,
            match run(variant, start_view(variant), old(registry)@, item_views(items@), now).0 {
                Ok(d) => r.is_ok() && r.unwrap()@ == d,
                Err(e) => r.is_err() && r.unwrap_err()@ == e,
            },
    {
        let ghost all = item_views(items@);
        let ghost first = registry@;
        let mut draft = Draft::start(variant);
        let n = items.len();
        let mut i: usize = 0;
        assert(all.skip(0) =~= all);
        while i < n
            invariant
                n == items@.len(),
                i <= n,
                all == item_views(items@),
                first == old(registry)@,
                registry.wf(),
                run(variant, start_view(variant), first, all, now) == run(
                    variant,
                    draft@,
                    registry@,
                    all.skip(i as int),
                    now,
                ),
            decreases n - i,
        {
            let ghost rest = all.skip(i as int);
            assert(rest[0] == all[i as int]);
            assert(rest.skip(1) =~= all.skip(i + 1));
            let item = &items[i];
            match draft.apply(variant, registry, &item.0, item.1.as_str(), now) {
                Ok(()) => {},
                Err(e) => {
                    return Err(e);
                },
            }
            i += 1;
        }
        Ok(draft)
    }
}

/// The views of parts and the identifiers that come with them.
pub open spec fn item_views(items: Seq<(Part, String)>) -> Seq<(PartView, Seq<char>)> {
    Seq::new(items.len(), |i: int| (items[i].0@, items[i].1@))
}

} // verus!
