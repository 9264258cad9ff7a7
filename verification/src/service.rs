//! The files endpoint: the answers to its requests, out of the registry.

use crate::draft::item_views;
use crate::files::{
    added, content_of, content_type_of, extension_of, file_error_text, holds, listing,
    metadata_of, new_entry, removed, FileErrorView, FileObject, FileObjectView, FileRegistry,
    Store,
};
use crate::json::{
    base64_of, base64_text, deletion_json, entry_views, file_json, files_json, json_of_deletion,
    json_of_file, json_of_files, json_of_object, object_json, Scalar, ScalarView,
};
use crate::multipart::{multipart_parts, Part, PartView};
use crate::request::{minted_for, pairs, read_items};
use crate::response::{
    download_response, download_view, error_view, json_response, json_view, slice_view, ApiError,
    ApiErrorView, ErrorKind, HttpResponse, HttpResponseView,
};
use crate::routes::{boundary, boundary_of, no_boundary};
use crate::text::{join, same};
use vstd::prelude::*;

verus! {

/// A failure of the server, with its reason.
pub open spec fn failure(message: Seq<char>) -> ApiErrorView {
    ApiErrorView { kind: ErrorKind::InternalServerError, message }
}

fn fail(message: String) -> (r: HttpResponse)
    ensures
        r@ == error_view(failure(message@)),
{
    ApiError::new(ErrorKind::InternalServerError, message).respond()
}

/// The answer that carries the text `named`, or reports after `prefix` why
/// it could not be written.
pub open spec fn json_or_failure(named: Result<Seq<char>, Seq<char>>, prefix: Seq<char>) -> HttpResponseView {
    match named {
        Ok(text) => json_view(text),
        Err(why) => error_view(failure(prefix + why)),
    }
}

fn answer_json(written: Result<String, String>, prefix: &str) -> (r: HttpResponse)
    ensures
        forall|named: Result<Seq<char>, Seq<char>>|
            crate::json::is_json(written, named) ==> r@ == json_or_failure(named, prefix@),
{
    match written {
        Ok(text) => json_response(text.as_str()),
        Err(why) => fail(join(prefix, why.as_str())),
    }
}

/// The answer to a request for the list of files.
pub open spec fn list_view(store: Store) -> HttpResponseView {
    json_or_failure(json_of_files("list"@, listing(store)), "Failed to serialize file list. "@)
}

/// The answer to a request for what is known about a file.
pub open spec fn metadata_view(store: Store, id: Seq<char>) -> HttpResponseView {
    match metadata_of(store, id) {
        Some(meta) => json_or_failure(json_of_file(meta), "Failed to serialize file object. "@),
        None => error_view(failure(file_error_text(FileErrorView::NotFound { id }))),
    }
}

/// The entries of the object that wraps the bytes of a file.
pub open spec fn content_entries(meta: FileObjectView, content: Seq<u8>) -> Seq<(Seq<char>, ScalarView)> {
    seq![
        ("id"@, ScalarView::Text(meta.id)),
        ("bytes"@, ScalarView::Number(meta.bytes)),
        ("created_at"@, ScalarView::Number(meta.created_at)),
        ("filename"@, ScalarView::Text(meta.filename)),
        ("content"@, ScalarView::Text(base64_of(content))),
    ]
}

/// The answer to a request for the bytes of a file, wrapped in JSON. A
/// file of more than half the machine's address space is not encoded.
pub open spec fn content_view(store: Store, id: Seq<char>) -> HttpResponseView {
    match metadata_of(store, id) {
        Some(meta) => {
            let content = content_of(store, id).unwrap();
            if content.len() > usize::MAX / 2 {
                error_view(failure("Failed to encode the target file. It is too large."@))
            } else {
                json_or_failure(
                    json_of_object(content_entries(meta, content)),
                    "Failed to serialize file content. "@,
                )
            }
        },
        None => error_view(failure(file_error_text(FileErrorView::NotFound { id }))),
    }
}

/// The answer to a request to download a file: its bytes under the content
/// type of its extension, or the failure to find or to serve it.
pub open spec fn download_view_of(store: Store, id: Seq<char>) -> HttpResponseView {
    match metadata_of(store, id) {
        None => error_view(failure(file_error_text(FileErrorView::NotFound { id }))),
        Some(meta) => match content_type_of(extension_of(meta.filename)) {
            Some(kind) => download_view(meta.filename, kind, content_of(store, id).unwrap()),
            None => error_view(
                failure(
                    file_error_text(
                        FileErrorView::UnsupportedExtension {
                            extension: extension_of(meta.filename),
                        },
                    ),
                ),
            ),
        },
    }
}

/// The answer to a request to remove a file: a status that says whether
/// there was one, never an error on that account.
pub open spec fn delete_view(store: Store, id: Seq<char>) -> HttpResponseView {
    json_or_failure(
        json_of_deletion(id, "file"@, holds(store, id)),
        "Failed to serialize the status of the file deletion operation. "@,
    )
}

/// The answer to a request for the list of files.
pub fn answer_list(registry: &FileRegistry) -> (r: HttpResponse)
    ensures
        r@ == list_view(registry@),
{
    let files = registry.list();
    answer_json(files_json("list", &files), "Failed to serialize file list. ")
}

/// The answer to a request for what is known about a file.
pub fn answer_metadata(registry: &FileRegistry, id: &str) -> (r: HttpResponse)
    ensures
        r@ == metadata_view(registry@, id@),
{
    match registry.retrieve_metadata(id) {
        Ok(meta) => answer_json(file_json(&meta), "Failed to serialize file object. "),
        Err(e) => fail(e.message()),
    }
}

fn text_entry(key: &str, value: &str) -> (r: (String, Scalar))
    ensures
        r.0@ == key@,
        r.1@ == ScalarView::Text(value@),
{
    (key.to_owned(), Scalar::Text(value.to_owned()))
}

fn number_entry(key: &str, value: u64) -> (r: (String, Scalar))
    ensures
        r.0@ == key@,
        r.1@ == ScalarView::Number(value),
{
    (key.to_owned(), Scalar::Number(value))
}

/// The answer to a request for the bytes of a file, wrapped in JSON.
pub fn answer_content(registry: &FileRegistry, id: &str) -> (r: HttpResponse)
    ensures
        r@ == content_view(registry@, id@),
{
    let meta = match registry.retrieve_metadata(id) {
        Ok(meta) => meta,
        Err(e) => {
            return fail(e.message());
        },
    };
    let content = match registry.retrieve_content(id) {
        Ok(content) => content,
        Err(e) => {
            return fail(e.message());
        },
    };
    if content.len() > usize::MAX / 2 {
        return fail("Failed to encode the target file. It is too large.".to_owned());
    }
    let encoded = base64_text(&content);
    let mut entries: Vec<(String, Scalar)> = Vec::new();
    entries.push(text_entry("id", meta.id.as_str()));
    entries.push(number_entry("bytes", meta.bytes));
    entries.push(number_entry("created_at", meta.created_at));
    entries.push(text_entry("filename", meta.filename.as_str()));
    entries.push(text_entry("content", encoded.as_str()));
    assert(entry_views(entries@) =~= content_entries(meta@, content@));
    answer_json(object_json(&entries), "Failed to serialize file content. ")
}

/// The answer to a request to download a file.
pub fn answer_download(registry: &FileRegistry, id: &str) -> (r: HttpResponse)
    ensures
        r@ == download_view_of(registry@, id@),
{
    match registry.download(id) {
        Ok(d) => download_response(d.filename.as_str(), d.content_type.as_str(), d.content),
        Err(e) => fail(e.message()),
    }
}

/// The answer to a request to remove a file, which is removed.
pub fn answer_delete(registry: &mut FileRegistry, id: &str) -> (r: HttpResponse)
    requires
        old(registry).wf(),
    ensures
        final(registry).wf(),
        final(registry)@ == removed(old(registry)@, id@),
        r@ == delete_view(old(registry)@, id@),
{
    let deleted = registry.delete(id);
    answer_json(
        deletion_json(id, "file", deleted),
        "Failed to serialize the status of the file deletion operation. ",
    )
}

/// The position of the first part named `file`, or the number of parts
/// where there is none.
pub open spec fn target_index(items: Seq<(PartView, Seq<char>)>) -> int
    decreases items.len(),
{
    if items.len() == 0 {
        0
    } else if items[0].0.name == "file"@ {
        0
    } else {
        1 + target_index(items.skip(1))
    }
}

/// What an upload does: the first part named `file` is stored under the
/// identifier that comes with it. It needs a file name; without such a
/// part nothing is stored.
pub open spec fn upload_outcome(store: Store, items: Seq<(PartView, Seq<char>)>, now: u64) -> (
    Result<FileObjectView, ApiErrorView>,
    Store,
) {
    let k = target_index(items);
    if k < 0 || k >= items.len() {
        (Err(failure("Failed to upload the target file. Not found the target file."@)), store)
    } else {
        let part = items[k].0;
        let id = items[k].1;
        match part.filename {
            None => (
                Err(failure("Failed to upload the target file. The filename is not provided."@)),
                store,
            ),
            Some(filename) => match part.failure {
                Some(reason) => (Err(failure("Failed to read the target file. "@ + reason)), store),
                None => if holds(store, id) {
                    (
                        Err(
                            failure(
                                file_error_text(
                                    FileErrorView::Storage {
                                        reason: "The identifier is in use: "@ + id,
                                    },
                                ),
                            ),
                        ),
                        store,
                    )
                } else {
                    let entry = new_entry(id, filename, part.data, now);
                    (Ok(entry.meta), added(store, entry))
                },
            },
        }
    }
}

proof fn lemma_target_index(items: Seq<(PartView, Seq<char>)>, k: int)
    requires
        0 <= k <= items.len(),
        forall|j: int| 0 <= j < k ==> (#[trigger] items[j]).0.name != "file"@,
        k < items.len() ==> items[k].0.name == "file"@,
    ensures
        target_index(items) == k,
    decreases k,
{
    if k > 0 {
        let rest = items.skip(1);
        assert(items[0].0.name != "file"@);
        assert forall|j: int| 0 <= j < k - 1 implies (#[trigger] rest[j]).0.name != "file"@ by {
            assert(rest[j] == items[j + 1]);
        }
        if k < items.len() {
            assert(rest[k - 1] == items[k]);
        }
        lemma_target_index(rest, k - 1);
    }
}

/// Stores the file of an upload.
pub fn upload(items: &Vec<(Part, String)>, registry: &mut FileRegistry, now: u64) -> (r: Result<
    FileObject,
    ApiError,
>)
    requires
        old(registry).wf(),
    ensures
        final(registry).wf(),
        final(registry)@ == upload_outcome(old(registry)@, item_views(items@), now).1,
        match upload_outcome(old(registry)@, item_views(items@), now).0 {
            Ok(meta) => r.is_ok() && r.unwrap()@ == meta,
            Err(e) => r.is_err() && r.unwrap_err()@ == e,
        },
{
    let ghost all = item_views(items@);
    let n = items.len();
    let mut k: usize = 0;
    while k < n && !same(items[k].0.name.as_str(), "file")
        invariant
            n == items@.len(),
            all == item_views(items@),
            k <= n,
            forall|j: int| 0 <= j < k ==> (#[trigger] all[j]).0.name != "file"@,
        decreases n - k,
    {
        assert(all[k as int].0.name == items@[k as int].0.name@);
        k += 1;
    }
    proof {
        if k < n {
            assert(all[k as int].0.name == items@[k as int].0.name@);
        }
        lemma_target_index(all, k as int);
    }
    if k >= n {
        return Err(
            ApiError::new(
                ErrorKind::InternalServerError,
                "Failed to upload the target file. Not found the target file.".to_owned(),
            ),
        );
    }
    let part = &items[k].0;
    let id = &items[k].1;
    assert(all[k as int] == (part@, id@));
    let filename = match &part.filename {
        Some(filename) => filename.clone(),
        None => {
            return Err(
                ApiError::new(
                    ErrorKind::InternalServerError,
                    "Failed to upload the target file. The filename is not provided.".to_owned(),
                ),
            );
        },
    };
    if let Some(reason) = &part.failure {
        return Err(
            ApiError::new(
                ErrorKind::InternalServerError,
                join("Failed to read the target file. ", reason.as_str()),
            ),
        );
    }
    match registry.insert(id.clone(), filename, part.data.clone(), now) {
        Ok(meta) => Ok(meta),
        Err(e) => Err(ApiError::new(ErrorKind::InternalServerError, e.message())),
    }
}

/// The answer to an upload.
pub open spec fn upload_view(outcome: Result<FileObjectView, ApiErrorView>) -> HttpResponseView {
    match outcome {
        Ok(meta) => json_or_failure(json_of_file(meta), "Failed to serialize file object. "@),
        Err(e) => error_view(e),
    }
}

/// Whether `r` and the registry `after` are what comes of an upload of
/// these parts where the files are stored under `ids`.
pub open spec fn explains_upload(
    before: Store,
    parts: Seq<PartView>,
    ids: Seq<Seq<char>>,
    now: u64,
    r: HttpResponseView,
    after: Store,
) -> bool {
    &&& minted_for(parts, ids)
    &&& after == upload_outcome(before, pairs(parts, ids), now).1
    &&& r == upload_view(upload_outcome(before, pairs(parts, ids), now).0)
}

/// The boundary that a request names in its content type, where it has one.
pub open spec fn boundary_in(content_type: Option<Seq<char>>) -> Option<Seq<char>> {
    match content_type {
        Some(ct) => boundary_of(ct),
        None => None,
    }
}

/// The answer to a request to upload a file, which is stored under a fresh
/// identifier.
pub fn answer_upload(
    body: Vec<u8>,
    content_type: Option<&str>,
    registry: &mut FileRegistry,
    now: u64,
) -> (r: HttpResponse)
    requires
        old(registry).wf(),
    ensures
        final(registry).wf(),
        boundary_in(slice_view(content_type)).is_none() ==> r@ == error_view(no_boundary())
            && final(registry)@ == old(registry)@,
        boundary_in(slice_view(content_type)).is_some() ==> exists|ids: Seq<Seq<char>>| #[trigger]
            explains_upload(
                old(registry)@,
                multipart_parts(body@, boundary_in(slice_view(content_type)).unwrap()),
                ids,
                now,
                r@,
                final(registry)@,
            ),
{
    let found = match content_type {
        Some(ct) => boundary(ct),
        None => None,
    };
    let b = match found {
        Some(b) => b,
        None => {
            return ApiError::new(
                ErrorKind::BadRequest,
                "Failed to get the boundary of the multipart body from the content type.".to_owned(),
            ).respond();
        },
    };
    let items = read_items(body, b.as_str());
    let ghost parts = multipart_parts(body@, b@);
    let ghost ids = choose|ids: Seq<Seq<char>>| #[trigger]
        minted_for(parts, ids) && item_views(items@) == pairs(parts, ids);
    let r = match upload(&items, registry, now) {
        Ok(meta) => answer_json(file_json(&meta), "Failed to serialize file object. "),
        Err(e) => e.respond(),
    };
    assert(explains_upload(old(registry)@, parts, ids, now, r@, registry@));
    proof {
        let named = boundary_in(slice_view(content_type)).unwrap();
        assert(named == b@);
        assert(explains_upload(
            old(registry)@,
            multipart_parts(body@, named),
            ids,
            now,
            r@,
            registry@,
        ));
    }
    r
}

} // verus!
