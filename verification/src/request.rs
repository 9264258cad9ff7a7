//! The three requests that the gateway hands to the engine, and how a
//! multipart body becomes one of them.

use crate::draft::{item_views, run, start_view, Draft, DraftView};
use crate::fields::{DecodeError, DecodeErrorView, Field, ResponseFormat, SamplingMethod, Variant};
use crate::files::{
    file_view, is_file_id, is_uuid_text, mint_file_id, random_uuid_text, FileObject,
    FileObjectView, FileRegistry, Store,
};
use crate::multipart::{multipart_parts, next_part, open_reader, pending_parts, Part, PartView};
use crate::text::{join, text_view};
use vstd::prelude::*;

verus! {

/// A request for images from a text.
#[derive(Debug)]
pub struct GenerationRequest {
    pub prompt: String,
    pub negative_prompt: Option<String>,
    pub model: String,
    pub n: Option<u64>,
    pub response_format: Option<ResponseFormat>,
    pub user: Option<String>,
    pub cfg_scale: Option<String>,
    pub sample_method: Option<SamplingMethod>,
    pub steps: Option<usize>,
    pub height: Option<usize>,
    pub width: Option<usize>,
    pub control_strength: Option<String>,
    pub control_image: Option<FileObject>,
    pub seed: Option<i32>,
}

pub ghost struct GenerationRequestView {
    pub prompt: Seq<char>,
    pub negative_prompt: Option<Seq<char>>,
    pub model: Seq<char>,
    pub n: Option<u64>,
    pub response_format: Option<ResponseFormat>,
    pub user: Option<Seq<char>>,
    pub cfg_scale: Option<Seq<char>>,
    pub sample_method: Option<SamplingMethod>,
    pub steps: Option<usize>,
    pub height: Option<usize>,
    pub width: Option<usize>,
    pub control_strength: Option<Seq<char>>,
    pub control_image: Option<FileObjectView>,
    pub seed: Option<i32>,
}

impl View for GenerationRequest {
    type V = GenerationRequestView;

    open spec fn view(&self) -> GenerationRequestView {
        GenerationRequestView {
            prompt: self.prompt@,
            negative_prompt: text_view(self.negative_prompt),
            model: self.model@,
            n: self.n,
            response_format: self.response_format,
            user: text_view(self.user),
            cfg_scale: text_view(self.cfg_scale),
            sample_method: self.sample_method,
            steps: self.steps,
            height: self.height,
            width: self.width,
            control_strength: text_view(self.control_strength),
            control_image: file_view(self.control_image),
            seed: self.seed,
        }
    }
}

/// A request for images from an image and a text.
#[derive(Debug)]
pub struct EditRequest {
    pub image: FileObject,
    pub mask: Option<FileObject>,
    pub prompt: String,
    pub negative_prompt: Option<String>,
    pub model: String,
    pub n: Option<u64>,
    pub response_format: Option<ResponseFormat>,
    pub user: Option<String>,
    pub cfg_scale: Option<String>,
    pub sample_method: Option<SamplingMethod>,
    pub steps: Option<usize>,
    pub height: Option<usize>,
    pub width: Option<usize>,
    pub control_strength: Option<String>,
    pub control_image: Option<FileObject>,
    pub seed: Option<i32>,
    pub strength: Option<String>,
}

pub ghost struct EditRequestView {
    pub image: FileObjectView,
    pub mask: Option<FileObjectView>,
    pub prompt: Seq<char>,
    pub negative_prompt: Option<Seq<char>>,
    pub model: Seq<char>,
    pub n: Option<u64>,
    pub response_format: Option<ResponseFormat>,
    pub user: Option<Seq<char>>,
    pub cfg_scale: Option<Seq<char>>,
    pub sample_method: Option<SamplingMethod>,
    pub steps: Option<usize>,
    pub height: Option<usize>,
    pub width: Option<usize>,
    pub control_strength: Option<Seq<char>>,
    pub control_image: Option<FileObjectView>,
    pub seed: Option<i32>,
    pub strength: Option<Seq<char>>,
}

impl View for EditRequest {
    type V = EditRequestView;

    open spec fn view(&self) -> EditRequestView {
        EditRequestView {
            image: self.image@,
            mask: file_view(self.mask),
            prompt: self.prompt@,
            negative_prompt: text_view(self.negative_prompt),
            model: self.model@,
            n: self.n,
            response_format: self.response_format,
            user: text_view(self.user),
            cfg_scale: text_view(self.cfg_scale),
            sample_method: self.sample_method,
            steps: self.steps,
            height: self.height,
            width: self.width,
            control_strength: text_view(self.control_strength),
            control_image: file_view(self.control_image),
            seed: self.seed,
            strength: text_view(self.strength),
        }
    }
}

/// A request for images that vary another.
#[derive(Debug)]
pub struct VariationRequest {
    pub image: FileObject,
    pub model: String,
    pub n: Option<u64>,
    pub response_format: Option<ResponseFormat>,
    pub size: Option<String>,
    pub user: Option<String>,
}

pub ghost struct VariationRequestView {
    pub image: FileObjectView,
    pub model: Seq<char>,
    pub n: Option<u64>,
    pub response_format: Option<ResponseFormat>,
    pub size: Option<Seq<char>>,
    pub user: Option<Seq<char>>,
}

impl View for VariationRequest {
    type V = VariationRequestView;

    open spec fn view(&self) -> VariationRequestView {
        VariationRequestView {
            image: self.image@,
            model: self.model@,
            n: self.n,
            response_format: self.response_format,
            size: text_view(self.size),
            user: text_view(self.user),
        }
    }
}

/// The error of a field that the request needs and the body lacks.
pub open spec fn missing(field: Field) -> DecodeErrorView {
    DecodeErrorView::MissingField { field }
}

/// The generation request that a draft stands for. The model is needed.
pub open spec fn generation_of(d: DraftView) -> Result<GenerationRequestView, DecodeErrorView> {
    match d.model {
        None => Err(missing(Field::Model)),
        Some(model) => Ok(
            GenerationRequestView {
                prompt: d.prompt,
                negative_prompt: d.negative_prompt,
                model,
                n: d.n,
                response_format: d.response_format,
                user: d.user,
                cfg_scale: d.cfg_scale,
                sample_method: d.sample_method,
                steps: d.steps,
                height: d.height,
                width: d.width,
                control_strength: d.control_strength,
                control_image: d.control_image,
                seed: d.seed,
            },
        ),
    }
}

/// The edit request that a draft stands for. The image and the model are
/// needed.
pub open spec fn edit_of(d: DraftView) -> Result<EditRequestView, DecodeErrorView> {
    match (d.image, d.model) {
        (None, _) => Err(missing(Field::Image)),
        (Some(_), None) => Err(missing(Field::Model)),
        (Some(image), Some(model)) => Ok(
            EditRequestView {
                image,
                mask: d.mask,
                prompt: d.prompt,
                negative_prompt: d.negative_prompt,
                model,
                n: d.n,
                response_format: d.response_format,
                user: d.user,
                cfg_scale: d.cfg_scale,
                sample_method: d.sample_method,
                steps: d.steps,
                height: d.height,
                width: d.width,
                control_strength: d.control_strength,
                control_image: d.control_image,
                seed: d.seed,
                strength: d.strength,
            },
        ),
    }
}

/// The variation request that a draft stands for. The image and the model
/// are needed.
pub open spec fn variation_of(d: DraftView) -> Result<VariationRequestView, DecodeErrorView> {
    match (d.image, d.model) {
        (None, _) => Err(missing(Field::Image)),
        (Some(_), None) => Err(missing(Field::Model)),
        (Some(image), Some(model)) => Ok(
            VariationRequestView {
                image,
                model,
                n: d.n,
                response_format: d.response_format,
                size: d.size,
                user: d.user,
            },
        ),
    }
}

impl Draft {
    /// The generation request that the draft stands for.
    pub fn into_generation(self) -> (r: Result<GenerationRequest, DecodeError>)
        ensures
            match generation_of(self@) {
                Ok(g) => r.is_ok() && r.unwrap()@ == g,
                Err(e) => r.is_err() && r.unwrap_err()@ == e,
            },
    {
        let model = match self.model {
            Some(model) => model,
            None => {
                return Err(DecodeError::MissingField { field: Field::Model });
            },
        };
        Ok(
            GenerationRequest {
                prompt: self.prompt,
                negative_prompt: self.negative_prompt,
                model,
                n: self.n,
                response_format: self.response_format,
                user: self.user,
                cfg_scale: self.cfg_scale,
                sample_method: self.sample_method,
                steps: self.steps,
                height: self.height,
                width: self.width,
                control_strength: self.control_strength,
                control_image: self.control_image,
                seed: self.seed,
            },
        )
    }

    /// The edit request that the draft stands for.
    pub fn into_edit(self) -> (r: Result<EditRequest, DecodeError>)
        ensures
            match edit_of(self@) {
                Ok(g) => r.is_ok() && r.unwrap()@ == g,
                Err(e) => r.is_err() && r.unwrap_err()@ == e,
            },
    {
        let image = match self.image {
            Some(image) => image,
            None => {
                return Err(DecodeError::MissingField { field: Field::Image });
            },
        };
        let model = match self.model {
            Some(model) => model,
            None => {
                return Err(DecodeError::MissingField { field: Field::Model });
            },
        };
        Ok(
            EditRequest {
                image,
                mask: self.mask,
                prompt: self.prompt,
                negative_prompt: self.negative_prompt,
                model,
                n: self.n,
                response_format: self.response_format,
                user: self.user,
                cfg_scale: self.cfg_scale,
                sample_method: self.sample_method,
                steps: self.steps,
                height: self.height,
                width: self.width,
                control_strength: self.control_strength,
                control_image: self.control_image,
                seed: self.seed,
                strength: self.strength,
            },
        )
    }

    /// The variation request that the draft stands for.
    pub fn into_variation(self) -> (r: Result<VariationRequest, DecodeError>)
        ensures
            match variation_of(self@) {
                Ok(g) => r.is_ok() && r.unwrap()@ == g,
                Err(e) => r.is_err() && r.unwrap_err()@ == e,
            },
    {
        let image = match self.image {
            Some(image) => image,
            None => {
                return Err(DecodeError::MissingField { field: Field::Image });
            },
        };
        let model = match self.model {
            Some(model) => model,
            None => {
                return Err(DecodeError::MissingField { field: Field::Model });
            },
        };
        Ok(
            VariationRequest {
                image,
                model,
                n: self.n,
                response_format: self.response_format,
                size: self.size,
                user: self.user,
            },
        )
    }
}

/// Parts, each with the identifier that comes with it.
pub open spec fn pairs(parts: Seq<PartView>, ids: Seq<Seq<char>>) -> Seq<(PartView, Seq<char>)> {
    Seq::new(parts.len(), |i: int| (parts[i], ids[i]))
}

/// Whether `ids` holds one identifier for each part, a file identifier for
/// each part that names a file.
pub open spec fn minted_for(parts: Seq<PartView>, ids: Seq<Seq<char>>) -> bool {
    &&& ids.len() == parts.len()
    &&& forall|i: int|
        0 <= i < parts.len() && (#[trigger] parts[i]).filename.is_some() ==> is_file_id(ids[i])
}

/// What the parts of a body do to the registry and what draft comes of
/// them, where the files are stored under `ids`.
pub open spec fn decoded(
    variant: Variant,
    store: Store,
    parts: Seq<PartView>,
    ids: Seq<Seq<char>>,
    now: u64,
) -> (Result<DraftView, DecodeErrorView>, Store) {
    run(variant, start_view(variant), store, pairs(parts, ids), now)
}

/// Whether `r` is the draft or the error of `outcome`.
pub open spec fn is_outcome(r: Result<Draft, DecodeError>, outcome: Result<DraftView, DecodeErrorView>) -> bool {
    match outcome {
        Ok(d) => r.is_ok() && r.unwrap()@ == d,
        Err(e) => r.is_err() && r.unwrap_err()@ == e,
    }
}

/// Whether `r` and the registry `after` are what comes of the parts where
/// the files are stored under `ids`, and `ids` are identifiers as they are
/// minted.
pub open spec fn explains(
    variant: Variant,
    before: Store,
    parts: Seq<PartView>,
    ids: Seq<Seq<char>>,
    now: u64,
    r: Result<Draft, DecodeError>,
    after: Store,
) -> bool {
    &&& minted_for(parts, ids)
    &&& after == decoded(variant, before, parts, ids, now).1
    &&& is_outcome(r, decoded(variant, before, parts, ids, now).0)
}

/// The parts of a body in the order of their arrival, each part that names
/// a file with a fresh identifier.
pub fn read_items(body: Vec<u8>, boundary: &str) -> (items: Vec<(Part, String)>)
    ensures
        exists|ids: Seq<Seq<char>>|
            #[trigger] minted_for(multipart_parts(body@, boundary@), ids) && item_views(items@)
                == pairs(multipart_parts(body@, boundary@), ids),
{
    let ghost all = multipart_parts(body@, boundary@);
    let ghost mut ids: Seq<Seq<char>> = Seq::empty();
    let mut reader = open_reader(body, boundary);
    let mut items: Vec<(Part, String)> = Vec::new();
    assert(all.skip(0) =~= all);
    loop
        invariant
            all == multipart_parts(body@, boundary@),
            ids.len() == items@.len(),
            ids.len() <= all.len(),
            pending_parts(reader) == all.skip(ids.len() as int),
            forall|i: int|
                0 <= i < ids.len() ==> (#[trigger] items@[i]).0@ == all[i] && items@[i].1@ == ids[i],
            forall|i: int|
                0 <= i < ids.len() && (#[trigger] all[i]).filename.is_some() ==> is_file_id(ids[i]),
        decreases pending_parts(reader).len(),
    {
        let ghost before = pending_parts(reader);
        let ghost k = ids.len() as int;
        match next_part(&mut reader) {
            Some(part) => {
                let id = if part.filename.is_some() {
                    mint_file_id()
                } else {
                    String::new()
                };
                proof {
                    assert(before[0] == all[k]);
                    assert(before.skip(1) =~= all.skip(k + 1));
                    ids = ids.push(id@);
                }
                items.push((part, id));
            },
            None => {
                proof {
                    assert(item_views(items@) =~= pairs(all, ids));
                    assert(minted_for(all, ids));
                }
                return items;
            },
        }
    }
}

/// Decodes a multipart body into a draft of a request of the given shape.
///
/// The files of the body are stored under fresh identifiers. Whichever
/// identifiers are drawn, the result is the outcome of the parts, taken one
/// after another up to the first that is rejected.
pub fn decode_parts(
    variant: Variant,
    body: Vec<u8>,
    boundary: &str,
    registry: &mut FileRegistry,
    now: u64,
) -> (r: Result<Draft, DecodeError>)
    requires
        old(registry).wf(),
    ensures
        final(registry).wf(),
        exists|ids: Seq<Seq<char>>| #[trigger]
            explains(
                variant,
                old(registry)@,
                multipart_parts(body@, boundary@),
                ids,
                now,
                r,
                final(registry)@,
            ),
{
    let items = read_items(body, boundary);
    let r = Draft::assemble(variant, &items, registry, now);
    proof {
        let parts = multipart_parts(body@, boundary@);
        let ids = choose|ids: Seq<Seq<char>>| #[trigger]
            minted_for(parts, ids) && item_views(items@) == pairs(parts, ids);
        assert(explains(variant, old(registry)@, parts, ids, now, r, registry@));
    }
    r
}

/// The request that comes of the parts of a body, or the error that ends
/// the decoding: that of the first part that is rejected, or that of a
/// field that is needed and absent.
pub open spec fn generation_outcome(outcome: Result<DraftView, DecodeErrorView>) -> Result<
    GenerationRequestView,
    DecodeErrorView,
> {
    match outcome {
        Ok(d) => generation_of(d),
        Err(e) => Err(e),
    }
}

pub open spec fn edit_outcome(outcome: Result<DraftView, DecodeErrorView>) -> Result<
    EditRequestView,
    DecodeErrorView,
> {
    match outcome {
        Ok(d) => edit_of(d),
        Err(e) => Err(e),
    }
}

pub open spec fn variation_outcome(outcome: Result<DraftView, DecodeErrorView>) -> Result<
    VariationRequestView,
    DecodeErrorView,
> {
    match outcome {
        Ok(d) => variation_of(d),
        Err(e) => Err(e),
    }
}

/// Whether `r` and the registry `after` are what comes of a generation
/// request with these parts where the files are stored under `ids`.
pub open spec fn explains_generation(
    before: Store,
    parts: Seq<PartView>,
    ids: Seq<Seq<char>>,
    now: u64,
    r: Result<GenerationRequest, DecodeError>,
    after: Store,
) -> bool {
    &&& minted_for(parts, ids)
    &&& after == decoded(Variant::Generation, before, parts, ids, now).1
    &&& match generation_outcome(decoded(Variant::Generation, before, parts, ids, now).0) {
        Ok(g) => r.is_ok() && r.unwrap()@ == g,
        Err(e) => r.is_err() && r.unwrap_err()@ == e,
    }
}

/// Whether `r` and the registry `after` are what comes of an edit request
/// with these parts where the files are stored under `ids`.
pub open spec fn explains_edit(
    before: Store,
    parts: Seq<PartView>,
    ids: Seq<Seq<char>>,
    now: u64,
    r: Result<EditRequest, DecodeError>,
    after: Store,
) -> bool {
    &&& minted_for(parts, ids)
    &&& after == decoded(Variant::Edit, before, parts, ids, now).1
    &&& match edit_outcome(decoded(Variant::Edit, before, parts, ids, now).0) {
        Ok(g) => r.is_ok() && r.unwrap()@ == g,
        Err(e) => r.is_err() && r.unwrap_err()@ == e,
    }
}

/// Whether `r` and the registry `after` are what comes of a variation
/// request with these parts where the files are stored under `ids`.
pub open spec fn explains_variation(
    before: Store,
    parts: Seq<PartView>,
    ids: Seq<Seq<char>>,
    now: u64,
    r: Result<VariationRequest, DecodeError>,
    after: Store,
) -> bool {
    &&& minted_for(parts, ids)
    &&& after == decoded(Variant::Variation, before, parts, ids, now).1
    &&& match variation_outcome(decoded(Variant::Variation, before, parts, ids, now).0) {
        Ok(g) => r.is_ok() && r.unwrap()@ == g,
        Err(e) => r.is_err() && r.unwrap_err()@ == e,
    }
}

/// Decodes a multipart body into a generation request.
pub fn decode_generation(body: Vec<u8>, boundary: &str, registry: &mut FileRegistry, now: u64) -> (r:
    Result<GenerationRequest, DecodeError>)
    requires
        old(registry).wf(),
    ensures
        final(registry).wf(),
        exists|ids: Seq<Seq<char>>| #[trigger]
            explains_generation(
                old(registry)@,
                multipart_parts(body@, boundary@),
                ids,
                now,
                r,
                final(registry)@,
            ),
{
    let draft = decode_parts(Variant::Generation, body, boundary, registry, now);
    let ghost parts = multipart_parts(body@, boundary@);
    let ghost ids = choose|ids: Seq<Seq<char>>| #[trigger]
        explains(Variant::Generation, old(registry)@, parts, ids, now, draft, registry@);
    let r = match draft {
        Ok(d) => d.into_generation(),
        Err(e) => Err(e),
    };
    assert(explains_generation(old(registry)@, parts, ids, now, r, registry@));
    r
}

/// Decodes a multipart body into an edit request.
pub fn decode_edit(body: Vec<u8>, boundary: &str, registry: &mut FileRegistry, now: u64) -> (r:
    Result<EditRequest, DecodeError>)
    requires
        old(registry).wf(),
    ensures
        final(registry).wf(),
        exists|ids: Seq<Seq<char>>| #[trigger]
            explains_edit(
                old(registry)@,
                multipart_parts(body@, boundary@),
                ids,
                now,
                r,
                final(registry)@,
            ),
{
    let draft = decode_parts(Variant::Edit, body, boundary, registry, now);
    let ghost parts = multipart_parts(body@, boundary@);
    let ghost ids = choose|ids: Seq<Seq<char>>| #[trigger]
        explains(Variant::Edit, old(registry)@, parts, ids, now, draft, registry@);
    let r = match draft {
        Ok(d) => d.into_edit(),
        Err(e) => Err(e),
    };
    assert(explains_edit(old(registry)@, parts, ids, now, r, registry@));
    r
}

/// Decodes a multipart body into a variation request.
pub fn decode_variation(body: Vec<u8>, boundary: &str, registry: &mut FileRegistry, now: u64) -> (r:
    Result<VariationRequest, DecodeError>)
    requires
        old(registry).wf(),
    ensures
        final(registry).wf(),
        exists|ids: Seq<Seq<char>>| #[trigger]
            explains_variation(
                old(registry)@,
                multipart_parts(body@, boundary@),
                ids,
                now,
                r,
                final(registry)@,
            ),
{
    let draft = decode_parts(Variant::Variation, body, boundary, registry, now);
    let ghost parts = multipart_parts(body@, boundary@);
    let ghost ids = choose|ids: Seq<Seq<char>>| #[trigger]
        explains(Variant::Variation, old(registry)@, parts, ids, now, draft, registry@);
    let r = match draft {
        Ok(d) => d.into_variation(),
        Err(e) => Err(e),
    };
    assert(explains_variation(old(registry)@, parts, ids, now, r, registry@));
    r
}

/// Whether `s` is a name as it is minted for a client that gives none:
/// `image_` and a random part.
pub open spec fn is_minted_user(s: Seq<char>) -> bool {
    "image_"@.is_prefix_of(s) && is_uuid_text(s.skip(6))
}

/// The name under which a request runs: the client's, or else the minted one.
pub open spec fn settled(user: Option<Seq<char>>, minted: Seq<char>) -> Seq<char> {
    match user {
        Some(u) => u,
        None => minted,
    }
}

/// A fresh name for a client that gives none.
pub fn mint_user_id() -> (r: String)
    ensures
        is_minted_user(r@),
        r@.len() == 42,
{
    let random = random_uuid_text();
    let id = join("image_", random.as_str());
    proof {
        reveal_strlit("image_");
        assert(id@.skip(6) =~= random@);
        assert("image_"@ =~= id@.subrange(0, 6));
    }
    id
}

/// Gives the request the name `minted` unless the client gave one. The
/// result is the name that the request now carries.
pub fn settle_user(user: &mut Option<String>, minted: String) -> (id: String)
    ensures
        id@ == settled(text_view(*old(user)), minted@),
        text_view(*final(user)) == Some(id@),
{
    match user {
        Some(u) => u.clone(),
        None => {
            let id = minted.clone();
            *user = Some(minted);
            id
        },
    }
}

/// Gives the request a fresh name unless the client gave one. The result
/// is the name that the request now carries: the client's own, or one that
/// is not empty.
pub fn ensure_user(user: &mut Option<String>) -> (id: String)
    ensures
        text_view(*final(user)) == Some(id@),
        match text_view(*old(user)) {
            Some(u) => id@ == u,
            None => is_minted_user(id@) && id@.len() > 0,
        },
{
    if user.is_some() {
        settle_user(user, String::new())
    } else {
        let minted = mint_user_id();
        settle_user(user, minted)
    }
}

} // verus!
