//! The bodies that the gateway answers with, written as JSON.
//!
//! The texts are written by `serde_json` from the types of the `endpoints`
//! crate; this module converts to those types and names what comes back.

use crate::files::{FileObject, FileObjectView};
use crate::text::text_view;
use vstd::prelude::*;

verus! {

/// One image of the engine's result.
#[derive(Debug)]
pub struct ImageObject {
    /// The image as encoded bytes.
    pub b64_json: Option<String>,
    /// The link under which the image is found.
    pub url: Option<String>,
    /// The prompt, where the engine revised it.
    pub prompt: Option<String>,
}

pub ghost struct ImageObjectView {
    pub b64_json: Option<Seq<char>>,
    pub url: Option<Seq<char>>,
    pub prompt: Option<Seq<char>>,
}

impl View for ImageObject {
    type V = ImageObjectView;

    open spec fn view(&self) -> ImageObjectView {
        ImageObjectView {
            b64_json: text_view(self.b64_json),
            url: text_view(self.url),
            prompt: text_view(self.prompt),
        }
    }
}

/// The views of a sequence of images.
pub open spec fn image_views(v: Seq<ImageObject>) -> Seq<ImageObjectView> {
    Seq::new(v.len(), |i: int| v[i]@)
}

/// The engine's result: the images and when they were made.
#[derive(Debug)]
pub struct ImagesResponse {
    pub created: u64,
    pub data: Vec<ImageObject>,
}

pub ghost struct ImagesResponseView {
    pub created: u64,
    pub data: Seq<ImageObjectView>,
}

impl View for ImagesResponse {
    type V = ImagesResponseView;

    open spec fn view(&self) -> ImagesResponseView {
        ImagesResponseView { created: self.created, data: image_views(self.data@) }
    }
}

/// A value of a flat JSON object.
#[derive(Debug)]
pub enum Scalar {
    Text(String),
    Number(u64),
}

pub ghost enum ScalarView {
    Text(Seq<char>),
    Number(u64),
}

impl View for Scalar {
    type V = ScalarView;

    open spec fn view(&self) -> ScalarView {
        match self {
            Scalar::Text(s) => ScalarView::Text(s@),
            Scalar::Number(n) => ScalarView::Number(*n),
        }
    }
}

/// The views of the entries of a flat object.
pub open spec fn entry_views(v: Seq<(String, Scalar)>) -> Seq<(Seq<char>, ScalarView)> {
    Seq::new(v.len(), |i: int| (v[i].0@, v[i].1@))
}

/// The JSON of a file object, or why it cannot be written.
pub uninterp spec fn json_of_file(file: FileObjectView) -> Result<Seq<char>, Seq<char>>;

/// The JSON of a list of file objects under an object type.
pub uninterp spec fn json_of_files(object: Seq<char>, files: Seq<FileObjectView>) -> Result<
    Seq<char>,
    Seq<char>,
>;

/// The JSON of the status of a deletion.
pub uninterp spec fn json_of_deletion(id: Seq<char>, object: Seq<char>, deleted: bool) -> Result<
    Seq<char>,
    Seq<char>,
>;

/// The JSON of the engine's result.
pub uninterp spec fn json_of_images(response: ImagesResponseView) -> Result<Seq<char>, Seq<char>>;

/// The JSON of an object with these entries.
pub uninterp spec fn json_of_object(entries: Seq<(Seq<char>, ScalarView)>) -> Result<
    Seq<char>,
    Seq<char>,
>;

/// The text that stands for the bytes in base 64, standard alphabet, padded.
pub uninterp spec fn base64_of(bytes: Seq<u8>) -> Seq<char>;

/// Whether `r` is the text or the failure of `named`.
pub open spec fn is_json(r: Result<String, String>, named: Result<Seq<char>, Seq<char>>) -> bool {
    match named {
        Ok(text) => r.is_ok() && r.unwrap()@ == text,
        Err(why) => r.is_err() && r.unwrap_err()@ == why,
    }
}

/// Writes a file object with `serde_json::to_string`, as an
/// `endpoints::files::FileObject`.
#[verifier::external_body]
pub(crate) fn file_json(file: &FileObject) -> (r: Result<String, String>)
    ensures
        is_json(r, json_of_file(file@)),
{
    let out = endpoints::files::FileObject {
        id: file.id.clone(),
        bytes: file.bytes,
        created_at: file.created_at,
        filename: file.filename.clone(),
        object: file.object.clone(),
        purpose: file.purpose.clone(),
    };
    serde_json::to_string(&out).map_err(|e| e.to_string())
}

/// Writes a list of file objects with `serde_json::to_string`, as an
/// `endpoints::files::ListFilesResponse`.
#[verifier::external_body]
pub(crate) fn files_json(object: &str, files: &Vec<FileObject>) -> (r: Result<String, String>)
    ensures
        is_json(r, json_of_files(object@, crate::files::object_views(files@))),
{
    let data = files.iter().map(|f| endpoints::files::FileObject {
        id: f.id.clone(),
        bytes: f.bytes,
        created_at: f.created_at,
        filename: f.filename.clone(),
        object: f.object.clone(),
        purpose: f.purpose.clone(),
    }).collect();
    let out = endpoints::files::ListFilesResponse { object: object.to_string(), data };
    serde_json::to_string(&out).map_err(|e| e.to_string())
}

/// Writes the status of a deletion with `serde_json::to_string`, as an
/// `endpoints::files::DeleteFileStatus`.
#[verifier::external_body]
pub(crate) fn deletion_json(id: &str, object: &str, deleted: bool) -> (r: Result<String, String>)
    ensures
        is_json(r, json_of_deletion(id@, object@, deleted)),
{
    let out = endpoints::files::DeleteFileStatus {
        id: id.to_string(),
        object: object.to_string(),
        deleted,
    };
    serde_json::to_string(&out).map_err(|e| e.to_string())
}

/// Writes the engine's result with `serde_json::to_string`, as an
/// `endpoints::images::ListImagesResponse`.
#[verifier::external_body]
pub(crate) fn images_json(response: &ImagesResponse) -> (r: Result<String, String>)
    ensures
        is_json(r, json_of_images(response@)),
{
    let data = response.data.iter().map(|i| endpoints::images::ImageObject {
        b64_json: i.b64_json.clone(),
        url: i.url.clone(),
        prompt: i.prompt.clone(),
    }).collect();
    let out = endpoints::images::ListImagesResponse { created: response.created, data };
    serde_json::to_string(&out).map_err(|e| e.to_string())
}

/// Writes a flat object with `serde_json::to_string`, as a
/// `serde_json::Value` that holds the entries.
#[verifier::external_body]
pub(crate) fn object_json(entries: &Vec<(String, Scalar)>) -> (r: Result<String, String>)
    ensures
        is_json(r, json_of_object(entry_views(entries@))),
{
    let map = entries.iter().map(|(key, value)| match value {
        Scalar::Text(s) => (key.clone(), serde_json::Value::from(s.clone())),
        Scalar::Number(n) => (key.clone(), serde_json::Value::from(*n)),
    }).collect();
    serde_json::to_string(&serde_json::Value::Object(map)).map_err(|e| e.to_string())
}

/// Encodes bytes with the `STANDARD` engine of `base64`. The engine fails
/// where the length of the text does not fit the machine's word, which no
/// input of this size reaches.
#[verifier::external_body]
pub(crate) fn base64_text(bytes: &Vec<u8>) -> (r: String)
    requires
        bytes@.len() <= usize::MAX / 2,
    ensures
        r@ == base64_of(bytes@),
{
    base64::Engine::encode(&base64::engine::general_purpose::STANDARD, bytes)
}

} // verus!
