//! Which endpoint a request is for, and what is to be done with its body.

use crate::fields::{lowercase, lowercase_of};
use crate::response::{slice_view, ApiError, ApiErrorView, ErrorKind};
use crate::text::{
    char_len, find, first_index, join, same, slice, split, split_on, starts_with, strip_end,
    strip_start, trim_end, trim_start, views,
};
use vstd::prelude::*;

verus! {

/// An endpoint of the gateway.
#[derive(Clone, Copy, Debug, PartialEq, Eq, Structural)]
pub enum Endpoint {
    /// `/echo`: answers that the gateway is up.
    Echo,
    /// `/v1/images/generations`.
    Generations,
    /// `/v1/images/edits`.
    Edits,
    /// `/v1/images/variations`.
    Variations,
    /// `/v1/files` and what is below it.
    Files,
}

/// The piece of a path between its first and its second `/`.
pub open spec fn root_segment(path: Seq<char>) -> Seq<char> {
    let pieces = split_on(path, '/');
    if pieces.len() >= 2 {
        pieces[1]
    } else {
        Seq::empty()
    }
}

/// The error of a path that leads to no endpoint.
pub open spec fn no_endpoint(what: Seq<char>) -> ApiErrorView {
    ApiErrorView { kind: ErrorKind::NotFound, message: what }
}

/// The endpoint that a path leads to. Below `/v1` the whole path decides;
/// any other root but `/echo` is unknown.
pub open spec fn endpoint_of(path: Seq<char>) -> Result<Endpoint, ApiErrorView> {
    let root = root_segment(path);
    if root == "echo"@ {
        Ok(Endpoint::Echo)
    } else if root == "v1"@ {
        if path == "/v1/images/generations"@ {
            Ok(Endpoint::Generations)
        } else if path == "/v1/images/edits"@ {
            Ok(Endpoint::Edits)
        } else if path == "/v1/images/variations"@ {
            Ok(Endpoint::Variations)
        } else if path == "/v1/files"@ || "/v1/files/"@.is_prefix_of(path) {
            Ok(Endpoint::Files)
        } else {
            Err(no_endpoint(path))
        }
    } else {
        Err(no_endpoint("/"@ + root))
    }
}

/// The endpoint that a path leads to.
pub fn endpoint(path: &str) -> (r: Result<Endpoint, ApiError>)
    ensures
        match endpoint_of(path@) {
            Ok(e) => r == Ok::<Endpoint, ApiError>(e),
            Err(e) => r.is_err() && r.unwrap_err()@ == e,
        },
{
    let pieces = split(path, '/');
    assert(views(pieces@).len() == pieces@.len());
    let root = if pieces.len() >= 2 {
        assert(views(pieces@)[1] == pieces@[1]@);
        pieces[1].clone()
    } else {
        String::new()
    };
    if same(root.as_str(), "echo") {
        Ok(Endpoint::Echo)
    } else if same(root.as_str(), "v1") {
        if same(path, "/v1/images/generations") {
            Ok(Endpoint::Generations)
        } else if same(path, "/v1/images/edits") {
            Ok(Endpoint::Edits)
        } else if same(path, "/v1/images/variations") {
            Ok(Endpoint::Variations)
        } else if same(path, "/v1/files") || starts_with(path, "/v1/files/") {
            Ok(Endpoint::Files)
        } else {
            Err(ApiError::new(ErrorKind::NotFound, path.to_owned()))
        }
    } else {
        Err(ApiError::new(ErrorKind::NotFound, join("/", root.as_str())))
    }
}

/// What is to be done with the body of a request for images.
#[derive(Debug)]
pub enum Plan {
    /// Nothing: the request is a preflight.
    Preflight,
    /// The body is multipart, its parts between lines of this boundary.
    Multipart { boundary: String },
    /// The body is the request as JSON.
    Json,
    /// The request is refused.
    Reject(ApiError),
}

pub ghost enum PlanView {
    Preflight,
    Multipart { boundary: Seq<char> },
    Json,
    Reject(ApiErrorView),
}

impl View for Plan {
    type V = PlanView;

    open spec fn view(&self) -> PlanView {
        match self {
            Plan::Preflight => PlanView::Preflight,
            Plan::Multipart { boundary } => PlanView::Multipart { boundary: boundary@ },
            Plan::Json => PlanView::Json,
            Plan::Reject(e) => PlanView::Reject(e@),
        }
    }
}

/// What stands behind the first `boundary=` of a content type.
pub open spec fn boundary_of(content_type: Seq<char>) -> Option<Seq<char>> {
    match first_index(content_type, "boundary="@) {
        Some(i) => Some(content_type.skip(i + "boundary="@.len())),
        None => None,
    }
}

/// The error of a multipart request whose content type names no boundary.
pub open spec fn no_boundary() -> ApiErrorView {
    ApiErrorView {
        kind: ErrorKind::BadRequest,
        message: "Failed to get the boundary of the multipart body from the content type."@,
    }
}

/// The error of a method that an endpoint answers as a failure of its own.
pub open spec fn invalid_method() -> ApiErrorView {
    ApiErrorView { kind: ErrorKind::InternalServerError, message: "Invalid HTTP Method."@ }
}

/// The plan for a multipart body with this content type.
pub open spec fn multipart_plan(content_type: Option<Seq<char>>) -> PlanView {
    match content_type {
        Some(ct) => match boundary_of(ct) {
            Some(boundary) => PlanView::Multipart { boundary },
            None => PlanView::Reject(no_boundary()),
        },
        None => PlanView::Reject(no_boundary()),
    }
}

/// The plan for a request to generate images: a preflight is answered at
/// once; a multipart content type decides for multipart whatever the
/// method; any other body of a `POST` is JSON; any other method is answered
/// as a failure of the server.
pub open spec fn generation_plan(method: Seq<char>, content_type: Option<Seq<char>>) -> PlanView {
    if method == "OPTIONS"@ {
        PlanView::Preflight
    } else if content_type.is_some() && "multipart/"@.is_prefix_of(content_type.unwrap()) {
        multipart_plan(content_type)
    } else if method == "POST"@ {
        PlanView::Json
    } else {
        PlanView::Reject(invalid_method())
    }
}

/// The plan for a request to edit or to vary an image: a preflight is
/// answered at once; the body of a `POST` is multipart; any other method is
/// not allowed.
pub open spec fn upload_plan(method: Seq<char>, content_type: Option<Seq<char>>) -> PlanView {
    if method == "OPTIONS"@ {
        PlanView::Preflight
    } else if method == "POST"@ {
        multipart_plan(content_type)
    } else {
        PlanView::Reject(ApiErrorView { kind: ErrorKind::MethodNotAllowed, message: method })
    }
}

/// What stands behind the first `boundary=` of a content type.
pub fn boundary(content_type: &str) -> (r: Option<String>)
    ensures
        crate::text::text_view(r) == boundary_of(content_type@),
{
    match find(content_type, "boundary=") {
        Some(i) => {
            let n = char_len(content_type);
            let m = char_len("boundary=");
            assert(content_type@.skip(i + m) =~= content_type@.subrange(i + m, n as int));
            Some(slice(content_type, i + m, n))
        },
        None => None,
    }
}

fn plan_multipart(content_type: Option<&str>) -> (r: Plan)
    ensures
        r@ == multipart_plan(slice_view(content_type)),
{
    let found = match content_type {
        Some(ct) => boundary(ct),
        None => None,
    };
    match found {
        Some(boundary) => Plan::Multipart { boundary },
        None => Plan::Reject(
            ApiError::new(
                ErrorKind::BadRequest,
                "Failed to get the boundary of the multipart body from the content type.".to_owned(),
            ),
        ),
    }
}

/// The plan for a request to generate images.
pub fn plan_generation(method: &str, content_type: Option<&str>) -> (r: Plan)
    ensures
        r@ == generation_plan(method@, slice_view(content_type)),
{
    if same(method, "OPTIONS") {
        return Plan::Preflight;
    }
    let multipart = match content_type {
        Some(ct) => starts_with(ct, "multipart/"),
        None => false,
    };
    if multipart {
        plan_multipart(content_type)
    } else if same(method, "POST") {
        Plan::Json
    } else {
        Plan::Reject(
            ApiError::new(ErrorKind::InternalServerError, "Invalid HTTP Method.".to_owned()),
        )
    }
}

/// The plan for a request to edit or to vary an image.
pub fn plan_upload(method: &str, content_type: Option<&str>) -> (r: Plan)
    ensures
        r@ == upload_plan(method@, slice_view(content_type)),
{
    if same(method, "OPTIONS") {
        Plan::Preflight
    } else if same(method, "POST") {
        plan_multipart(content_type)
    } else {
        Plan::Reject(ApiError::new(ErrorKind::MethodNotAllowed, method.to_owned()))
    }
}

/// What a request to the files endpoint asks for.
#[derive(Debug)]
pub enum FilesRoute {
    /// To store the file of the body.
    Upload,
    /// The list of the stored files.
    List,
    /// What is known about a file.
    Metadata { id: String },
    /// The bytes of a file, wrapped in JSON.
    Content { id: String },
    /// The bytes of a file as they are.
    Download { id: String },
    /// To remove a file.
    Delete { id: String },
    /// Nothing: the request is a preflight.
    Preflight,
    /// The request is refused.
    Reject(ApiError),
}

pub ghost enum FilesRouteView {
    Upload,
    List,
    Metadata { id: Seq<char> },
    Content { id: Seq<char> },
    Download { id: Seq<char> },
    Delete { id: Seq<char> },
    Preflight,
    Reject(ApiErrorView),
}

impl View for FilesRoute {
    type V = FilesRouteView;

    open spec fn view(&self) -> FilesRouteView {
        match self {
            FilesRoute::Upload => FilesRouteView::Upload,
            FilesRoute::List => FilesRouteView::List,
            FilesRoute::Metadata { id } => FilesRouteView::Metadata { id: id@ },
            FilesRoute::Content { id } => FilesRouteView::Content { id: id@ },
            FilesRoute::Download { id } => FilesRouteView::Download { id: id@ },
            FilesRoute::Delete { id } => FilesRouteView::Delete { id: id@ },
            FilesRoute::Preflight => FilesRouteView::Preflight,
            FilesRoute::Reject(e) => FilesRouteView::Reject(e@),
        }
    }
}

/// The error of a path that the files endpoint does not serve.
pub open spec fn unsupported_path(path: Seq<char>) -> ApiErrorView {
    ApiErrorView {
        kind: ErrorKind::InternalServerError,
        message: "unsupported uri path: "@ + path,
    }
}

/// The path as the files endpoint reads it for a `GET`: without trailing
/// `/`, in lower case.
pub open spec fn normal_path(path: Seq<char>) -> Seq<char> {
    lowercase_of(trim_end(path, '/'))
}

/// Whether the pieces of a path begin with those of `/v1/files`.
pub open spec fn under_files(pieces: Seq<Seq<char>>) -> bool {
    pieces.len() >= 3 && pieces[0].len() == 0 && pieces[1] == "v1"@ && pieces[2] == "files"@
}

/// What a `GET` asks for, by its path without trailing `/` and in lower
/// case. An identifier must begin with `file_`, but for a download.
pub open spec fn normal_get_route(normal: Seq<char>) -> FilesRouteView {
    let pieces = split_on(normal, '/');
    if !under_files(pieces) {
        FilesRouteView::Reject(unsupported_path(normal))
    } else if pieces.len() == 3 {
        FilesRouteView::List
    } else if pieces.len() == 5 && pieces[4] == "content"@ {
        if "file_"@.is_prefix_of(pieces[3]) {
            FilesRouteView::Content { id: pieces[3] }
        } else {
            FilesRouteView::Reject(unsupported_path(normal))
        }
    } else if pieces.len() == 4 {
        if "file_"@.is_prefix_of(pieces[3]) {
            FilesRouteView::Metadata { id: pieces[3] }
        } else {
            FilesRouteView::Reject(unsupported_path(normal))
        }
    } else if pieces.len() == 5 && pieces[3] == "download"@ {
        FilesRouteView::Download { id: pieces[4] }
    } else {
        FilesRouteView::Reject(unsupported_path(normal))
    }
}

/// What a `GET` on a path asks for.
pub open spec fn get_route(path: Seq<char>) -> FilesRouteView {
    normal_get_route(normal_path(path))
}

/// What a request to the files endpoint asks for, by its method and path.
/// Any other method than the four that are served is refused with the
/// path.
pub open spec fn files_route_of(method: Seq<char>, path: Seq<char>) -> FilesRouteView {
    if method == "POST"@ {
        FilesRouteView::Upload
    } else if method == "GET"@ {
        get_route(path)
    } else if method == "DELETE"@ {
        FilesRouteView::Delete { id: trim_start(path, "/v1/files/"@) }
    } else if method == "OPTIONS"@ {
        FilesRouteView::Preflight
    } else {
        FilesRouteView::Reject(unsupported_path(path))
    }
}

fn refuse_path(normal: &str) -> (r: FilesRoute)
    ensures
        r@ == FilesRouteView::Reject(unsupported_path(normal@)),
{
    FilesRoute::Reject(
        ApiError::new(ErrorKind::InternalServerError, join("unsupported uri path: ", normal)),
    )
}

/// What a `GET` asks for, by its path without trailing `/` and in lower
/// case.
pub fn route_normal_get(normal: &str) -> (r: FilesRoute)
    ensures
        r@ == normal_get_route(normal@),
{
    let pieces = split(normal, '/');
    let n = pieces.len();
    assert(views(pieces@).len() == pieces@.len());
    assert(forall|i: int| 0 <= i < n ==> views(pieces@)[i] == (#[trigger] pieces@[i])@);
    if n < 3 {
        return refuse_path(normal);
    }
    if !(char_len(pieces[0].as_str()) == 0 && same(pieces[1].as_str(), "v1") && same(
        pieces[2].as_str(),
        "files",
    )) {
        return refuse_path(normal);
    }
    if n == 3 {
        FilesRoute::List
    } else if n == 5 && same(pieces[4].as_str(), "content") {
        if starts_with(pieces[3].as_str(), "file_") {
            FilesRoute::Content { id: pieces[3].clone() }
        } else {
            refuse_path(normal)
        }
    } else if n == 4 {
        if starts_with(pieces[3].as_str(), "file_") {
            FilesRoute::Metadata { id: pieces[3].clone() }
        } else {
            refuse_path(normal)
        }
    } else if n == 5 && same(pieces[3].as_str(), "download") {
        FilesRoute::Download { id: pieces[4].clone() }
    } else {
        refuse_path(normal)
    }
}

/// What a `GET` on a path asks for.
pub fn route_get(path: &str) -> (r: FilesRoute)
    ensures
        r@ == get_route(path@),
{
    let trimmed = strip_end(path, '/');
    let normal = lowercase(trimmed.as_str());
    route_normal_get(normal.as_str())
}

/// What a request to the files endpoint asks for.
pub fn files_route(method: &str, path: &str) -> (r: FilesRoute)
    ensures
        r@ == files_route_of(method@, path@),
{
    if same(method, "POST") {
        FilesRoute::Upload
    } else if same(method, "GET") {
        route_get(path)
    } else if same(method, "DELETE") {
        FilesRoute::Delete { id: strip_start(path, "/v1/files/") }
    } else if same(method, "OPTIONS") {
        FilesRoute::Preflight
    } else {
        refuse_path(path)
    }
}

} // verus!
