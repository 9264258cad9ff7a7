//! What the gateway answers: the status, the headers and the body of a
//! response, the answers to errors, and the rewriting of the engine's links
//! into links that this gateway serves.

use crate::fields::{
    decode_error_text, is_client_error, DecodeError, DecodeErrorView, ResponseFormat,
};
use crate::json::{
    image_views, images_json, json_of_images, ImageObject, ImageObjectView, ImagesResponse,
    ImagesResponseView,
};
use crate::text::{join, same, split, split_on, text_view, views};
use vstd::prelude::*;
use vstd::utf8::encode_utf8;

verus! {

/// The class of an error, which decides the status of the answer.
#[derive(Clone, Copy, Debug, PartialEq, Eq, Structural)]
pub enum ErrorKind {
    /// The request is malformed: status 400.
    BadRequest,
    /// The service endpoint does not exist: status 404.
    NotFound,
    /// The endpoint does not take the method: status 405.
    MethodNotAllowed,
    /// The gateway or the engine failed: status 500.
    InternalServerError,
}

/// An error as it is answered: its class and the reason in words.
#[derive(Debug)]
pub struct ApiError {
    pub kind: ErrorKind,
    pub message: String,
}

pub ghost struct ApiErrorView {
    pub kind: ErrorKind,
    pub message: Seq<char>,
}

impl View for ApiError {
    type V = ApiErrorView;

    open spec fn view(&self) -> ApiErrorView {
        ApiErrorView { kind: self.kind, message: self.message@ }
    }
}

/// A header of a response.
#[derive(Debug)]
pub struct Header {
    pub name: String,
    pub value: String,
}

/// A response: status, headers in their order, and body.
#[derive(Debug)]
pub struct HttpResponse {
    pub status: u16,
    pub headers: Vec<Header>,
    pub body: Vec<u8>,
}

pub ghost struct HttpResponseView {
    pub status: u16,
    pub headers: Seq<(Seq<char>, Seq<char>)>,
    pub body: Seq<u8>,
}

/// The views of a sequence of headers.
pub open spec fn header_views(v: Seq<Header>) -> Seq<(Seq<char>, Seq<char>)> {
    Seq::new(v.len(), |i: int| (v[i].name@, v[i].value@))
}

impl View for HttpResponse {
    type V = HttpResponseView;

    open spec fn view(&self) -> HttpResponseView {
        HttpResponseView {
            status: self.status,
            headers: header_views(self.headers@),
            body: self.body@,
        }
    }
}

/// The status of an error of this class.
pub open spec fn status_of(kind: ErrorKind) -> u16 {
    match kind {
        ErrorKind::BadRequest => 400,
        ErrorKind::NotFound => 404,
        ErrorKind::MethodNotAllowed => 405,
        ErrorKind::InternalServerError => 500,
    }
}

/// The words that begin the body of an error of this class.
pub open spec fn title_of(kind: ErrorKind) -> Seq<char> {
    match kind {
        ErrorKind::BadRequest => "400 Bad Request"@,
        ErrorKind::NotFound => "404 The requested service endpoint is not found"@,
        ErrorKind::MethodNotAllowed => "405 Method Not Allowed"@,
        ErrorKind::InternalServerError => "500 Internal Server Error"@,
    }
}

/// The body of an error: the title, and the reason behind it where one is
/// given.
pub open spec fn error_text(e: ApiErrorView) -> Seq<char> {
    if e.message.len() == 0 {
        title_of(e.kind)
    } else {
        title_of(e.kind) + ": "@ + e.message
    }
}

/// The three headers that allow any origin, which every answer carries.
pub open spec fn cors_headers() -> Seq<(Seq<char>, Seq<char>)> {
    seq![
        ("Access-Control-Allow-Origin"@, "*"@),
        ("Access-Control-Allow-Methods"@, "*"@),
        ("Access-Control-Allow-Headers"@, "*"@),
    ]
}

/// The answer to an error.
pub open spec fn error_view(e: ApiErrorView) -> HttpResponseView {
    HttpResponseView {
        status: status_of(e.kind),
        headers: cors_headers(),
        body: encode_utf8(error_text(e)),
    }
}

/// The answer that carries a JSON text.
pub open spec fn json_view(text: Seq<char>) -> HttpResponseView {
    HttpResponseView {
        status: 200,
        headers: cors_headers().push(("Content-Type"@, "application/json"@)),
        body: encode_utf8(text),
    }
}

/// The answer that carries a JSON text and echoes the name under which the
/// request ran.
pub open spec fn json_view_for(text: Seq<char>, user: Seq<char>) -> HttpResponseView {
    HttpResponseView {
        status: 200,
        headers: cors_headers().push(("Content-Type"@, "application/json"@)).push(("user"@, user)),
        body: encode_utf8(text),
    }
}

/// The answer to a preflight: the headers and an empty body.
pub open spec fn preflight_view() -> HttpResponseView {
    HttpResponseView {
        status: 200,
        headers: cors_headers().push(("Content-Type"@, "application/json"@)),
        body: Seq::empty(),
    }
}

/// The answer that hands out a file.
pub open spec fn download_view(filename: Seq<char>, content_type: Seq<char>, content: Seq<u8>) -> HttpResponseView {
    HttpResponseView {
        status: 200,
        headers: cors_headers().push(("Content-Type"@, content_type)).push(
            ("Content-Disposition"@, "attachment; filename="@ + filename),
        ),
        body: content,
    }
}

/// The error that a failure of decoding is answered with: the client's
/// errors as bad requests, the others as errors of the server.
pub open spec fn api_error_of(e: DecodeErrorView) -> ApiErrorView {
    ApiErrorView {
        kind: if is_client_error(e) {
            ErrorKind::BadRequest
        } else {
            ErrorKind::InternalServerError
        },
        message: decode_error_text(e),
    }
}

impl ApiError {
    /// An error of the class `kind` with the reason `message`.
    pub fn new(kind: ErrorKind, message: String) -> (r: ApiError)
        ensures
            r@ == (ApiErrorView { kind, message: message@ }),
    {
        ApiError { kind, message }
    }

    /// The error that a failure of decoding is answered with.
    pub fn from_decode(e: &DecodeError) -> (r: ApiError)
        ensures
            r@ == api_error_of(e@),
    {
        let kind = if e.is_bad_request() {
            ErrorKind::BadRequest
        } else {
            ErrorKind::InternalServerError
        };
        ApiError { kind, message: e.message() }
    }

    /// The status of the answer.
    pub fn status(&self) -> (r: u16)
        ensures
            r == status_of(self.kind),
    {
        match self.kind {
            ErrorKind::BadRequest => 400,
            ErrorKind::NotFound => 404,
            ErrorKind::MethodNotAllowed => 405,
            ErrorKind::InternalServerError => 500,
        }
    }

    /// The body of the answer.
    pub fn text(&self) -> (r: String)
        ensures
            r@ == error_text(self@),
    {
        let title = match self.kind {
            ErrorKind::BadRequest => "400 Bad Request",
            ErrorKind::NotFound => "404 The requested service endpoint is not found",
            ErrorKind::MethodNotAllowed => "405 Method Not Allowed",
            ErrorKind::InternalServerError => "500 Internal Server Error",
        };
        if crate::text::char_len(self.message.as_str()) == 0 {
            title.to_owned()
        } else {
            let a = join(title, ": ");
            join(a.as_str(), self.message.as_str())
        }
    }

    /// The answer to the error.
    pub fn respond(&self) -> (r: HttpResponse)
        ensures
            r@ == error_view(self@),
    {
        let text = self.text();
        let r = HttpResponse {
            status: self.status(),
            headers: cors(),
            body: text.as_str().as_bytes_vec(),
        };
        r
    }
}

fn header(name: &str, value: &str) -> (r: Header)
    ensures
        r.name@ == name@,
        r.value@ == value@,
{
    Header { name: name.to_owned(), value: value.to_owned() }
}

fn cors() -> (r: Vec<Header>)
    ensures
        header_views(r@) == cors_headers(),
{
    let mut headers: Vec<Header> = Vec::new();
    headers.push(header("Access-Control-Allow-Origin", "*"));
    headers.push(header("Access-Control-Allow-Methods", "*"));
    headers.push(header("Access-Control-Allow-Headers", "*"));
    assert(header_views(headers@) =~= cors_headers());
    headers
}

fn with_header(headers: Vec<Header>, name: &str, value: &str) -> (r: Vec<Header>)
    ensures
        header_views(r@) == header_views(headers@).push((name@, value@)),
{
    let mut out = headers;
    out.push(header(name, value));
    assert(header_views(out@) =~= header_views(headers@).push((name@, value@)));
    out
}

/// The answer that carries a JSON text.
pub fn json_response(text: &str) -> (r: HttpResponse)
    ensures
        r@ == json_view(text@),
{
    HttpResponse {
        status: 200,
        headers: with_header(cors(), "Content-Type", "application/json"),
        body: text.as_bytes_vec(),
    }
}

/// The answer that carries a JSON text and echoes the name under which the
/// request ran.
pub fn json_response_for(text: &str, user: &str) -> (r: HttpResponse)
    ensures
        r@ == json_view_for(text@, user@),
{
    let headers = with_header(cors(), "Content-Type", "application/json");
    HttpResponse {
        status: 200,
        headers: with_header(headers, "user", user),
        body: text.as_bytes_vec(),
    }
}

/// The answer to a preflight.
pub fn preflight_response() -> (r: HttpResponse)
    ensures
        r@ == preflight_view(),
{
    HttpResponse {
        status: 200,
        headers: with_header(cors(), "Content-Type", "application/json"),
        body: Vec::new(),
    }
}

/// The answer that hands out a file.
pub fn download_response(filename: &str, content_type: &str, content: Vec<u8>) -> (r: HttpResponse)
    ensures
        r@ == download_view(filename@, content_type@, content@),
{
    let headers = with_header(cors(), "Content-Type", content_type);
    let disposition = join("attachment; filename=", filename);
    HttpResponse {
        status: 200,
        headers: with_header(headers, "Content-Disposition", disposition.as_str()),
        body: content,
    }
}

/// The answer of the endpoint that says that the gateway is up.
pub open spec fn echo_view() -> HttpResponseView {
    HttpResponseView { status: 200, headers: Seq::empty(), body: encode_utf8("echo test"@) }
}

/// The answer of the endpoint that says that the gateway is up.
pub fn echo_response() -> (r: HttpResponse)
    ensures
        r@ == echo_view(),
{
    let r = HttpResponse { status: 200, headers: Vec::new(), body: "echo test".as_bytes_vec() };
    assert(header_views(r.headers@) =~= Seq::empty());
    r
}

/// Whether a request came over a secure transport: by the scheme of its
/// address, or by what a proxy says of it.
pub open spec fn secure(scheme: Option<Seq<char>>, forwarded_proto: Option<Seq<char>>) -> bool {
    scheme == Some("https"@) || forwarded_proto == Some("https"@)
}

/// The view of an optional string slice.
pub open spec fn slice_view(s: Option<&str>) -> Option<Seq<char>> {
    match s {
        Some(s) => Some(s@),
        None => None,
    }
}

/// Whether a request came over a secure transport.
pub fn is_https(scheme: Option<&str>, forwarded_proto: Option<&str>) -> (r: bool)
    ensures
        r == secure(slice_view(scheme), slice_view(forwarded_proto)),
{
    let by_scheme = match scheme {
        Some(s) => same(s, "https"),
        None => false,
    };
    if by_scheme {
        return true;
    }
    match forwarded_proto {
        Some(s) => same(s, "https"),
        None => false,
    }
}

/// The scheme of the links that are handed out.
pub open spec fn scheme_of(https: bool) -> Seq<char> {
    if https {
        "https"@
    } else {
        "http"@
    }
}

/// The link of this gateway under which a file is downloaded.
pub open spec fn download_link(https: bool, host: Seq<char>, id: Seq<char>) -> Seq<char> {
    scheme_of(https) + "://"@ + host + "/v1/files/download/"@ + id
}

/// The link that replaces a link of the engine. The engine's link is split
/// at each `/`; its third piece is the identifier of the file. A link of
/// fewer pieces is not rewritten.
pub open spec fn rewritten(url: Seq<char>, https: bool, host: Seq<char>) -> Option<Seq<char>> {
    let pieces = split_on(url, '/');
    if pieces.len() >= 3 {
        Some(download_link(https, host, pieces[2]))
    } else {
        None
    }
}

/// An image with its link rewritten; `None` where it has no link, or one
/// that is not rewritten.
pub open spec fn rewritten_image(image: ImageObjectView, https: bool, host: Seq<char>) -> Option<
    ImageObjectView,
> {
    match image.url {
        None => None,
        Some(url) => match rewritten(url, https, host) {
            None => None,
            Some(link) => Some(ImageObjectView { url: Some(link), ..image }),
        },
    }
}

/// Whether every image has a link that is rewritten.
pub open spec fn all_rewritable(data: Seq<ImageObjectView>, https: bool, host: Seq<char>) -> bool {
    forall|i: int| 0 <= i < data.len() ==> (#[trigger] rewritten_image(data[i], https, host)).is_some()
}

/// The images with their links rewritten.
pub open spec fn rewritten_images(data: Seq<ImageObjectView>, https: bool, host: Seq<char>) -> Seq<
    ImageObjectView,
> {
    Seq::new(data.len(), |i: int| rewritten_image(data[i], https, host).unwrap())
}

/// The error of a link of the engine that cannot be rewritten.
pub open spec fn bad_link() -> ApiErrorView {
    ApiErrorView {
        kind: ErrorKind::InternalServerError,
        message: "Failed to parse the url from the image response."@,
    }
}

/// The engine's result as it is answered. Where links were asked for, each
/// link is rewritten, and one that cannot be is an error; in any other
/// format the result is answered as it is.
pub open spec fn translated(
    response: ImagesResponseView,
    format: Option<ResponseFormat>,
    https: bool,
    host: Seq<char>,
) -> Result<ImagesResponseView, ApiErrorView> {
    if format == Some(ResponseFormat::Url) {
        if all_rewritable(response.data, https, host) {
            Ok(
                ImagesResponseView {
                    created: response.created,
                    data: rewritten_images(response.data, https, host),
                },
            )
        } else {
            Err(bad_link())
        }
    } else {
        Ok(response)
    }
}

/// The link that replaces a link of the engine.
pub fn rewrite_url(url: &str, https: bool, host: &str) -> (r: Option<String>)
    ensures
        text_view(r) == rewritten(url@, https, host@),
{
    let pieces = split(url, '/');
    assert(views(pieces@).len() == pieces@.len());
    if pieces.len() < 3 {
        return None;
    }
    assert(views(pieces@)[2] == pieces@[2]@);
    let scheme = if https {
        "https"
    } else {
        "http"
    };
    let a = join(scheme, "://");
    let b = join(a.as_str(), host);
    let c = join(b.as_str(), "/v1/files/download/");
    Some(join(c.as_str(), pieces[2].as_str()))
}

fn copy_text(s: &Option<String>) -> (r: Option<String>)
    ensures
        text_view(r) == text_view(*s),
{
    match s {
        Some(s) => Some(s.clone()),
        None => None,
    }
}

/// An image with its link rewritten.
pub fn rewrite_image(image: &ImageObject, https: bool, host: &str) -> (r: Option<ImageObject>)
    ensures
        match rewritten_image(image@, https, host@) {
            Some(v) => r.is_some() && r.unwrap()@ == v,
            None => r.is_none(),
        },
{
    let url = match &image.url {
        Some(url) => url,
        None => {
            return None;
        },
    };
    match rewrite_url(url.as_str(), https, host) {
        Some(link) => Some(
            ImageObject {
                b64_json: copy_text(&image.b64_json),
                url: Some(link),
                prompt: copy_text(&image.prompt),
            },
        ),
        None => None,
    }
}

/// The engine's result as it is answered to a request of this format.
pub fn translate(response: ImagesResponse, format: Option<ResponseFormat>, https: bool, host: &str) -> (r:
    Result<ImagesResponse, ApiError>)
    ensures
        match translated(response@, format, https, host@) {
            Ok(v) => r.is_ok() && r.unwrap()@ == v,
            Err(e) => r.is_err() && r.unwrap_err()@ == e,
        },
{
    let wanted = match format {
        Some(ResponseFormat::Url) => true,
        _ => false,
    };
    if !wanted {
        return Ok(response);
    }
    let ghost data = response@.data;
    let n = response.data.len();
    let mut out: Vec<ImageObject> = Vec::new();
    let mut i: usize = 0;
    while i < n
        invariant
            n == response.data@.len(),
            format == Some(ResponseFormat::Url),
            data == image_views(response.data@),
            i <= n,
            out@.len() == i,
            forall|j: int|
                0 <= j < i ==> (#[trigger] rewritten_image(data[j], https, host@)) == Some(out@[j]@),
        decreases n - i,
    {
        match rewrite_image(&response.data[i], https, host) {
            Some(image) => {
                out.push(image);
            },
            None => {
                assert(rewritten_image(data[i as int], https, host@).is_none());
                return Err(
                    ApiError {
                        kind: ErrorKind::InternalServerError,
                        message: "Failed to parse the url from the image response.".to_owned(),
                    },
                );
            },
        }
        i += 1;
    }
    let r = ImagesResponse { created: response.created, data: out };
    assert(r@.data =~= rewritten_images(data, https, host@));
    Ok(r)
}

/// The answer to a request whose images the engine made, or to one that
/// the engine failed: `outcome` is its result or its failure in words.
pub open spec fn images_reply_view(
    outcome: Result<ImagesResponseView, Seq<char>>,
    failure_prefix: Seq<char>,
    format: Option<ResponseFormat>,
    https: bool,
    host: Seq<char>,
    user: Seq<char>,
) -> HttpResponseView {
    match outcome {
        Err(why) => error_view(
            ApiErrorView { kind: ErrorKind::InternalServerError, message: failure_prefix + why },
        ),
        Ok(response) => match translated(response, format, https, host) {
            Err(e) => error_view(e),
            Ok(answer) => match json_of_images(answer) {
                Ok(text) => json_view_for(text, user),
                Err(why) => error_view(
                    ApiErrorView {
                        kind: ErrorKind::InternalServerError,
                        message: "Fail to serialize the `ListImagesResponse` instance. "@ + why,
                    },
                ),
            },
        },
    }
}

/// The answer to a request once the engine has run: its images with the
/// links rewritten, and the name of the request in the header `user`; or
/// the error that it failed with, after `failure_prefix`.
pub fn images_reply(
    outcome: Result<ImagesResponse, String>,
    failure_prefix: &str,
    format: Option<ResponseFormat>,
    https: bool,
    host: &str,
    user: &str,
) -> (r: HttpResponse)
    ensures
        r@ == images_reply_view(
            match outcome {
                Ok(response) => Ok(response@),
                Err(why) => Err(why@),
            },
            failure_prefix@,
            format,
            https,
            host@,
            user@,
        ),
{
    let response = match outcome {
        Ok(response) => response,
        Err(why) => {
            let e = ApiError {
                kind: ErrorKind::InternalServerError,
                message: join(failure_prefix, why.as_str()),
            };
            return e.respond();
        },
    };
    let answer = match translate(response, format, https, host) {
        Ok(answer) => answer,
        Err(e) => {
            return e.respond();
        },
    };
    match images_json(&answer) {
        Ok(text) => json_response_for(text.as_str(), user),
        Err(why) => {
            let e = ApiError {
                kind: ErrorKind::InternalServerError,
                message: join(
                    "Fail to serialize the `ListImagesResponse` instance. ",
                    why.as_str(),
                ),
            };
            e.respond()
        },
    }
}

} // verus!
