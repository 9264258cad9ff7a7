//! The endpoints, each in two steps around the engine: what to do with a
//! request when it comes in, and what to answer when the engine is done.
//! The files endpoint needs no engine and answers at once.

use crate::fields::{DecodeErrorView, ResponseFormat, Variant};
use crate::files::{removed, FileRegistry, Store};
use crate::json::{ImagesResponse, ImagesResponseView};
use crate::multipart::multipart_parts;
use crate::request::{
    decode_edit, decode_generation, decode_variation, decoded, edit_outcome, ensure_user,
    explains_edit, explains_generation, explains_variation, generation_outcome, is_minted_user,
    minted_for, variation_outcome, EditRequest, EditRequestView, GenerationRequest,
    GenerationRequestView, VariationRequest, VariationRequestView,
};
use crate::response::{
    api_error_of, error_view, images_reply, images_reply_view, preflight_response,
    preflight_view, slice_view, ApiError, ApiErrorView, ErrorKind, HttpResponse,
    HttpResponseView,
};
use crate::routes::{
    files_route, files_route_of, generation_plan, plan_generation, plan_upload, upload_plan,
    FilesRoute, FilesRouteView, Plan, PlanView,
};
use crate::service::{
    answer_content, answer_delete, answer_download, answer_list, answer_metadata, answer_upload,
    boundary_in, content_view, delete_view, download_view_of, explains_upload, list_view,
    metadata_view,
};
use crate::text::join;
use vstd::prelude::*;

verus! {

/// What is to be done once a request has come in.
#[derive(Debug)]
pub enum Begun<R> {
    /// The request is answered at once.
    Answer(HttpResponse),
    /// The body is to be read as JSON and handed back.
    Json,
    /// The engine is to run the request, which carries the name `user`.
    Engine { request: R, user: String },
}

/// Whether `name` is the name under which a request runs whose client
/// named `given`: the client's, or else one that was minted.
pub open spec fn is_settled(given: Option<Seq<char>>, name: Seq<char>) -> bool {
    match given {
        Some(u) => name == u,
        None => is_minted_user(name),
    }
}

/// Whether `r` is what is to be done with a generation request whose body
/// decodes to `outcome`.
pub open spec fn begun_generation(
    outcome: Result<GenerationRequestView, DecodeErrorView>,
    r: Begun<GenerationRequest>,
) -> bool {
    match outcome {
        Err(e) => r matches Begun::Answer(a) && a@ == error_view(api_error_of(e)),
        Ok(g) => r matches Begun::Engine { request, user } && is_settled(g.user, user@)
            && request@ == (GenerationRequestView { user: Some(user@), ..g }),
    }
}

/// Whether `r` is what is to be done with an edit request whose body
/// decodes to `outcome`.
pub open spec fn begun_edit(
    outcome: Result<EditRequestView, DecodeErrorView>,
    r: Begun<EditRequest>,
) -> bool {
    match outcome {
        Err(e) => r matches Begun::Answer(a) && a@ == error_view(api_error_of(e)),
        Ok(g) => r matches Begun::Engine { request, user } && is_settled(g.user, user@)
            && request@ == (EditRequestView { user: Some(user@), ..g }),
    }
}

/// Whether `r` is what is to be done with a variation request whose body
/// decodes to `outcome`.
pub open spec fn begun_variation(
    outcome: Result<VariationRequestView, DecodeErrorView>,
    r: Begun<VariationRequest>,
) -> bool {
    match outcome {
        Err(e) => r matches Begun::Answer(a) && a@ == error_view(api_error_of(e)),
        Ok(g) => r matches Begun::Engine { request, user } && is_settled(g.user, user@)
            && request@ == (VariationRequestView { user: Some(user@), ..g }),
    }
}

/// Whether `r` and the registry `after` are what comes of a request to
/// generate images, where the files of a multipart body are stored under
/// `ids`.
pub open spec fn explains_begin_generation(
    method: Seq<char>,
    content_type: Option<Seq<char>>,
    body: Seq<u8>,
    before: Store,
    now: u64,
    ids: Seq<Seq<char>>,
    r: Begun<GenerationRequest>,
    after: Store,
) -> bool {
    match generation_plan(method, content_type) {
        PlanView::Preflight => r matches Begun::Answer(a) && a@ == preflight_view() && after
            == before,
        PlanView::Reject(e) => r matches Begun::Answer(a) && a@ == error_view(e) && after
            == before,
        PlanView::Json => r is Json && after == before,
        PlanView::Multipart { boundary } => {
            let parts = multipart_parts(body, boundary);
            let outcome = decoded(Variant::Generation, before, parts, ids, now);
            &&& minted_for(parts, ids)
            &&& after == outcome.1
            &&& begun_generation(generation_outcome(outcome.0), r)
        },
    }
}

/// Whether `r` and the registry `after` are what comes of a request to
/// edit an image, where the files of the body are stored under `ids`.
pub open spec fn explains_begin_edit(
    method: Seq<char>,
    content_type: Option<Seq<char>>,
    body: Seq<u8>,
    before: Store,
    now: u64,
    ids: Seq<Seq<char>>,
    r: Begun<EditRequest>,
    after: Store,
) -> bool {
    match upload_plan(method, content_type) {
        PlanView::Preflight => r matches Begun::Answer(a) && a@ == preflight_view() && after
            == before,
        PlanView::Reject(e) => r matches Begun::Answer(a) && a@ == error_view(e) && after
            == before,
        PlanView::Json => false,
        PlanView::Multipart { boundary } => {
            let parts = multipart_parts(body, boundary);
            let outcome = decoded(Variant::Edit, before, parts, ids, now);
            &&& minted_for(parts, ids)
            &&& after == outcome.1
            &&& begun_edit(edit_outcome(outcome.0), r)
        },
    }
}

/// Whether `r` and the registry `after` are what comes of a request to
/// vary an image, where the files of the body are stored under `ids`.
pub open spec fn explains_begin_variation(
    method: Seq<char>,
    content_type: Option<Seq<char>>,
    body: Seq<u8>,
    before: Store,
    now: u64,
    ids: Seq<Seq<char>>,
    r: Begun<VariationRequest>,
    after: Store,
) -> bool {
    match upload_plan(method, content_type) {
        PlanView::Preflight => r matches Begun::Answer(a) && a@ == preflight_view() && after
            == before,
        PlanView::Reject(e) => r matches Begun::Answer(a) && a@ == error_view(e) && after
            == before,
        PlanView::Json => false,
        PlanView::Multipart { boundary } => {
            let parts = multipart_parts(body, boundary);
            let outcome = decoded(Variant::Variation, before, parts, ids, now);
            &&& minted_for(parts, ids)
            &&& after == outcome.1
            &&& begun_variation(variation_outcome(outcome.0), r)
        },
    }
}

/// Takes in a request to generate images.
///
/// A preflight and a refused request are answered at once. A multipart
/// body is decoded, its files are stored, and the request goes to the
/// engine under the client's name or a minted one; a body that cannot be
/// decoded is answered with its error. Any other body of a `POST` is to be
/// read as JSON by the caller.
pub fn begin_generation(
    method: &str,
    content_type: Option<&str>,
    body: Vec<u8>,
    registry: &mut FileRegistry,
    now: u64,
) -> (r: Begun<GenerationRequest>)
    requires
        old(registry).wf(),
    ensures
        final(registry).wf(),
        exists|ids: Seq<Seq<char>>| #[trigger]
            explains_begin_generation(
                method@,
                slice_view(content_type),
                body@,
                old(registry)@,
                now,
                ids,
                r,
                final(registry)@,
            ),
{
    let ghost ct = slice_view(content_type);
    match plan_generation(method, content_type) {
        Plan::Preflight => {
            let r = Begun::Answer(preflight_response());
            assert(explains_begin_generation(method@, ct, body@, old(registry)@, now, Seq::empty(), r, registry@));
            r
        },
        Plan::Reject(e) => {
            let r = Begun::Answer(e.respond());
            assert(explains_begin_generation(method@, ct, body@, old(registry)@, now, Seq::empty(), r, registry@));
            r
        },
        Plan::Json => {
            let r = Begun::Json;
            assert(explains_begin_generation(method@, ct, body@, old(registry)@, now, Seq::empty(), r, registry@));
            r
        },
        Plan::Multipart { boundary } => {
            let decoded = decode_generation(body, boundary.as_str(), registry, now);
            let ghost parts = multipart_parts(body@, boundary@);
            let ghost ids = choose|ids: Seq<Seq<char>>| #[trigger]
                explains_generation(old(registry)@, parts, ids, now, decoded, registry@);
            let r = match decoded {
                Err(e) => Begun::Answer(ApiError::from_decode(&e).respond()),
                Ok(request) => {
                    let mut request = request;
                    let user = ensure_user(&mut request.user);
                    Begun::Engine { request, user }
                },
            };
            assert(explains_begin_generation(method@, ct, body@, old(registry)@, now, ids, r, registry@));
            r
        },
    }
}

/// Takes in a request to edit an image: as a request to generate, but the
/// body of a `POST` is always multipart, and no other method is allowed.
pub fn begin_edit(
    method: &str,
    content_type: Option<&str>,
    body: Vec<u8>,
    registry: &mut FileRegistry,
    now: u64,
) -> (r: Begun<EditRequest>)
    requires
        old(registry).wf(),
    ensures
        final(registry).wf(),
        exists|ids: Seq<Seq<char>>| #[trigger]
            explains_begin_edit(
                method@,
                slice_view(content_type),
                body@,
                old(registry)@,
                now,
                ids,
                r,
                final(registry)@,
            ),
{
    let ghost ct = slice_view(content_type);
    match plan_upload(method, content_type) {
        Plan::Preflight => {
            let r = Begun::Answer(preflight_response());
            assert(explains_begin_edit(method@, ct, body@, old(registry)@, now, Seq::empty(), r, registry@));
            r
        },
        Plan::Reject(e) => {
            let r = Begun::Answer(e.respond());
            assert(explains_begin_edit(method@, ct, body@, old(registry)@, now, Seq::empty(), r, registry@));
            r
        },
        Plan::Json => Begun::Json,
        Plan::Multipart { boundary } => {
            let decoded = decode_edit(body, boundary.as_str(), registry, now);
            let ghost parts = multipart_parts(body@, boundary@);
            let ghost ids = choose|ids: Seq<Seq<char>>| #[trigger]
                explains_edit(old(registry)@, parts, ids, now, decoded, registry@);
            let r = match decoded {
                Err(e) => Begun::Answer(ApiError::from_decode(&e).respond()),
                Ok(request) => {
                    let mut request = request;
                    let user = ensure_user(&mut request.user);
                    Begun::Engine { request, user }
                },
            };
            assert(explains_begin_edit(method@, ct, body@, old(registry)@, now, ids, r, registry@));
            r
        },
    }
}

/// Takes in a request to vary an image, as a request to edit one.
pub fn begin_variation(
    method: &str,
    content_type: Option<&str>,
    body: Vec<u8>,
    registry: &mut FileRegistry,
    now: u64,
) -> (r: Begun<VariationRequest>)
    requires
        old(registry).wf(),
    ensures
        final(registry).wf(),
        exists|ids: Seq<Seq<char>>| #[trigger]
            explains_begin_variation(
                method@,
                slice_view(content_type),
                body@,
                old(registry)@,
                now,
                ids,
                r,
                final(registry)@,
            ),
{
    let ghost ct = slice_view(content_type);
    match plan_upload(method, content_type) {
        Plan::Preflight => {
            let r = Begun::Answer(preflight_response());
            assert(explains_begin_variation(method@, ct, body@, old(registry)@, now, Seq::empty(), r, registry@));
            r
        },
        Plan::Reject(e) => {
            let r = Begun::Answer(e.respond());
            assert(explains_begin_variation(method@, ct, body@, old(registry)@, now, Seq::empty(), r, registry@));
            r
        },
        Plan::Json => Begun::Json,
        Plan::Multipart { boundary } => {
            let decoded = decode_variation(body, boundary.as_str(), registry, now);
            let ghost parts = multipart_parts(body@, boundary@);
            let ghost ids = choose|ids: Seq<Seq<char>>| #[trigger]
                explains_variation(old(registry)@, parts, ids, now, decoded, registry@);
            let r = match decoded {
                Err(e) => Begun::Answer(ApiError::from_decode(&e).respond()),
                Ok(request) => {
                    let mut request = request;
                    let user = ensure_user(&mut request.user);
                    Begun::Engine { request, user }
                },
            };
            assert(explains_begin_variation(method@, ct, body@, old(registry)@, now, ids, r, registry@));
            r
        },
    }
}

/// The error of a body that is not the JSON of a generation request.
pub open spec fn bad_json(why: Seq<char>) -> ApiErrorView {
    ApiErrorView {
        kind: ErrorKind::BadRequest,
        message: "Fail to deserialize image create request: "@ + why,
    }
}

/// Takes in a generation request that was read from JSON, or the reason
/// why the body is none. The request goes to the engine under the
/// client's name or a minted one; a body that is none is a bad request.
pub fn accept_generation(parsed: Result<GenerationRequest, String>) -> (r: Begun<GenerationRequest>)
    ensures
        match parsed {
            Err(why) => r matches Begun::Answer(a) && a@ == error_view(bad_json(why@)),
            Ok(g) => r matches Begun::Engine { request, user } && is_settled(g@.user, user@)
                && request@ == (GenerationRequestView { user: Some(user@), ..g@ }),
        },
{
    match parsed {
        Err(why) => Begun::Answer(
            ApiError::new(
                ErrorKind::BadRequest,
                join("Fail to deserialize image create request: ", why.as_str()),
            ).respond(),
        ),
        Ok(request) => {
            let mut request = request;
            let user = ensure_user(&mut request.user);
            Begun::Engine { request, user }
        },
    }
}

/// The view of what the engine hands back: its result, or its failure in
/// words.
pub open spec fn engine_view(outcome: Result<ImagesResponse, String>) -> Result<
    ImagesResponseView,
    Seq<char>,
> {
    match outcome {
        Ok(response) => Ok(response@),
        Err(why) => Err(why@),
    }
}

/// The answer to a request to generate images, once the engine is done:
/// where links were asked for, they are rewritten to links of this host.
pub fn finish_generation(
    format: Option<ResponseFormat>,
    user: &str,
    outcome: Result<ImagesResponse, String>,
    https: bool,
    host: &str,
) -> (r: HttpResponse)
    ensures
        r@ == images_reply_view(
            engine_view(outcome),
            "Failed to get image generations. Reason: "@,
            format,
            https,
            host@,
            user@,
        ),
{
    images_reply(outcome, "Failed to get image generations. Reason: ", format, https, host, user)
}

/// The answer to a request to edit an image, once the engine is done.
pub fn finish_edit(
    format: Option<ResponseFormat>,
    user: &str,
    outcome: Result<ImagesResponse, String>,
    https: bool,
    host: &str,
) -> (r: HttpResponse)
    ensures
        r@ == images_reply_view(
            engine_view(outcome),
            "Failed to get image edit result. Reason: "@,
            format,
            https,
            host@,
            user@,
        ),
{
    images_reply(outcome, "Failed to get image edit result. Reason: ", format, https, host, user)
}

/// The answer to a request to vary an image, once the engine is done:
/// where links were asked for, they are rewritten to links of this host.
pub fn finish_variation(
    format: Option<ResponseFormat>,
    user: &str,
    outcome: Result<ImagesResponse, String>,
    https: bool,
    host: &str,
) -> (r: HttpResponse)
    ensures
        r@ == images_reply_view(
            engine_view(outcome),
            "Failed to get image edit result. Reason: "@,
            format,
            https,
            host@,
            user@,
        ),
{
    images_reply(outcome, "Failed to get image edit result. Reason: ", format, https, host, user)
}

/// Whether `r` and the registry `after` are the answer to a request to the
/// files endpoint and what it does to the registry, where the file of an
/// upload is stored under one of `ids`.
pub open spec fn explains_files(
    method: Seq<char>,
    path: Seq<char>,
    content_type: Option<Seq<char>>,
    body: Seq<u8>,
    before: Store,
    now: u64,
    ids: Seq<Seq<char>>,
    r: HttpResponseView,
    after: Store,
) -> bool {
    match files_route_of(method, path) {
        FilesRouteView::Upload => match boundary_in(content_type) {
            Some(boundary) => explains_upload(
                before,
                multipart_parts(body, boundary),
                ids,
                now,
                r,
                after,
            ),
            None => r == error_view(crate::routes::no_boundary()) && after == before,
        },
        FilesRouteView::List => r == list_view(before) && after == before,
        FilesRouteView::Metadata { id } => r == metadata_view(before, id) && after == before,
        FilesRouteView::Content { id } => r == content_view(before, id) && after == before,
        FilesRouteView::Download { id } => r == download_view_of(before, id) && after == before,
        FilesRouteView::Delete { id } => r == delete_view(before, id) && after == removed(
            before,
            id,
        ),
        FilesRouteView::Preflight => r == preflight_view() && after == before,
        FilesRouteView::Reject(e) => r == error_view(e) && after == before,
    }
}

/// Answers a request to the files endpoint.
pub fn handle_files(
    method: &str,
    path: &str,
    content_type: Option<&str>,
    body: Vec<u8>,
    registry: &mut FileRegistry,
    now: u64,
) -> (r: HttpResponse)
    requires
        old(registry).wf(),
    ensures
        final(registry).wf(),
        exists|ids: Seq<Seq<char>>| #[trigger]
            explains_files(
                method@,
                path@,
                slice_view(content_type),
                body@,
                old(registry)@,
                now,
                ids,
                r@,
                final(registry)@,
            ),
{
    let ghost ct = slice_view(content_type);
    let ghost before = registry@;
    let route = files_route(method, path);
    match route {
        FilesRoute::Upload => {
            let r = answer_upload(body, content_type, registry, now);
            proof {
                match boundary_in(ct) {
                    Some(boundary) => {
                        let ids = choose|ids: Seq<Seq<char>>| #[trigger]
                            explains_upload(
                                before,
                                multipart_parts(body@, boundary),
                                ids,
                                now,
                                r@,
                                registry@,
                            );
                        assert(explains_files(method@, path@, ct, body@, before, now, ids, r@, registry@));
                    },
                    None => {
                        assert(explains_files(method@, path@, ct, body@, before, now, Seq::empty(), r@, registry@));
                    },
                }
            }
            r
        },
        FilesRoute::List => {
            let r = answer_list(registry);
            assert(explains_files(method@, path@, ct, body@, before, now, Seq::empty(), r@, registry@));
            r
        },
        FilesRoute::Metadata { id } => {
            let r = answer_metadata(registry, id.as_str());
            assert(explains_files(method@, path@, ct, body@, before, now, Seq::empty(), r@, registry@));
            r
        },
        FilesRoute::Content { id } => {
            let r = answer_content(registry, id.as_str());
            assert(explains_files(method@, path@, ct, body@, before, now, Seq::empty(), r@, registry@));
            r
        },
        FilesRoute::Download { id } => {
            let r = answer_download(registry, id.as_str());
            assert(explains_files(method@, path@, ct, body@, before, now, Seq::empty(), r@, registry@));
            r
        },
        FilesRoute::Delete { id } => {
            let r = answer_delete(registry, id.as_str());
            assert(explains_files(method@, path@, ct, body@, before, now, Seq::empty(), r@, registry@));
            r
        },
        FilesRoute::Preflight => {
            let r = preflight_response();
            assert(explains_files(method@, path@, ct, body@, before, now, Seq::empty(), r@, registry@));
            r
        },
        FilesRoute::Reject(e) => {
            let r = e.respond();
            assert(explains_files(method@, path@, ct, body@, before, now, Seq::empty(), r@, registry@));
            r
        },
    }
}

} // verus!
