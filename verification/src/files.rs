//! The registry of uploaded files.
//!
//! A registry maps file identifiers to stored files: the bytes and what is
//! known about them. Its model is the sequence of stored files in the order
//! of their creation; no identifier occurs twice.

use crate::text::{join, same, split, split_on, views};
use vstd::prelude::*;

verus! {

/// What is known about a stored file.
#[derive(Debug)]
pub struct FileObject {
    /// The identifier: `file_` and a random part.
    pub id: String,
    /// The size of the content.
    pub bytes: u64,
    /// When the file was created, in seconds since the epoch.
    pub created_at: u64,
    /// The name under which the file was uploaded.
    pub filename: String,
    /// Always `file`.
    pub object: String,
    /// Always `assistants`.
    pub purpose: String,
}

pub ghost struct FileObjectView {
    pub id: Seq<char>,
    pub bytes: u64,
    pub created_at: u64,
    pub filename: Seq<char>,
    pub object: Seq<char>,
    pub purpose: Seq<char>,
}

impl View for FileObject {
    type V = FileObjectView;

    open spec fn view(&self) -> FileObjectView {
        FileObjectView {
            id: self.id@,
            bytes: self.bytes,
            created_at: self.created_at,
            filename: self.filename@,
            object: self.object@,
            purpose: self.purpose@,
        }
    }
}

/// The view of an optional file.
pub open spec fn file_view(f: Option<FileObject>) -> Option<FileObjectView> {
    match f {
        Some(f) => Some(f@),
        None => None,
    }
}

impl FileObject {
    /// A copy of the object.
    pub fn duplicate(&self) -> (r: FileObject)
        ensures
            r@ == self@,
    {
        FileObject {
            id: self.id.clone(),
            bytes: self.bytes,
            created_at: self.created_at,
            filename: self.filename.clone(),
            object: self.object.clone(),
            purpose: self.purpose.clone(),
        }
    }
}

/// A file in the registry: what is known about it, and its bytes.
#[derive(Debug)]
pub struct StoredFile {
    pub meta: FileObject,
    pub content: Vec<u8>,
}

pub ghost struct StoredFileView {
    pub meta: FileObjectView,
    pub content: Seq<u8>,
}

impl View for StoredFile {
    type V = StoredFileView;

    open spec fn view(&self) -> StoredFileView {
        StoredFileView { meta: self.meta@, content: self.content@ }
    }
}

/// Why an operation of the registry failed.
#[derive(Debug)]
pub enum FileError {
    /// No file has this identifier.
    NotFound { id: String },
    /// The file's name ends in an extension that is not served.
    UnsupportedExtension { extension: String },
    /// The file could not be stored.
    Storage { reason: String },
}

pub ghost enum FileErrorView {
    NotFound { id: Seq<char> },
    UnsupportedExtension { extension: Seq<char> },
    Storage { reason: Seq<char> },
}

impl View for FileError {
    type V = FileErrorView;

    open spec fn view(&self) -> FileErrorView {
        match self {
            FileError::NotFound { id } => FileErrorView::NotFound { id: id@ },
            FileError::UnsupportedExtension { extension } => FileErrorView::UnsupportedExtension {
                extension: extension@,
            },
            FileError::Storage { reason } => FileErrorView::Storage { reason: reason@ },
        }
    }
}

/// The text of an error, as it is shown to the client.
pub open spec fn file_error_text(e: FileErrorView) -> Seq<char> {
    match e {
        FileErrorView::NotFound { id } => "File not found."@,
        FileErrorView::UnsupportedExtension { extension } => "Unsupported file extension: "@
            + extension,
        FileErrorView::Storage { reason } => "Failed to store the file. "@ + reason,
    }
}

impl FileError {
    /// The text of the error.
    pub fn message(&self) -> (r: String)
        ensures
            r@ == file_error_text(self@),
    {
        match self {
            FileError::NotFound { id } => "File not found.".to_owned(),
            FileError::UnsupportedExtension { extension } => join(
                "Unsupported file extension: ",
                extension.as_str(),
            ),
            FileError::Storage { reason } => join("Failed to store the file. ", reason.as_str()),
        }
    }
}

/// A file as it is handed out for download.
#[derive(Debug)]
pub struct Download {
    pub filename: String,
    pub content_type: String,
    pub content: Vec<u8>,
}

/// The part of a file's name behind its last `.`; the whole name where it
/// holds none.
pub open spec fn extension_of(filename: Seq<char>) -> Seq<char> {
    split_on(filename, '.').last()
}

/// The content type under which a file with this extension is served.
pub open spec fn content_type_of(extension: Seq<char>) -> Option<Seq<char>> {
    if extension == "txt"@ {
        Some("text/plain"@)
    } else if extension == "json"@ {
        Some("application/json"@)
    } else if extension == "png"@ {
        Some("image/png"@)
    } else if extension == "jpg"@ {
        Some("image/jpeg"@)
    } else if extension == "jpeg"@ {
        Some("image/jpeg"@)
    } else if extension == "wav"@ {
        Some("audio/wav"@)
    } else if extension == "mp3"@ {
        Some("audio/mpeg"@)
    } else if extension == "mp4"@ {
        Some("video/mp4"@)
    } else if extension == "md"@ {
        Some("text/markdown"@)
    } else {
        None
    }
}

/// The extension of a file's name.
pub fn extension(filename: &str) -> (r: String)
    ensures
        r@ == extension_of(filename@),
{
    let mut pieces = split(filename, '.');
    proof {
        crate::text::lemma_split_nonempty(filename@, '.');
        assert(views(pieces@).len() == pieces@.len());
        assert(views(pieces@).last() == pieces@.last()@);
    }
    let last = pieces.pop();
    match last {
        Some(piece) => piece,
        None => String::new(),
    }
}

/// The content type for an extension of the list that is served.
pub fn content_type(extension: &str) -> (r: Option<String>)
    ensures
        match content_type_of(extension@) {
            Some(t) => r.is_some() && r.unwrap()@ == t,
            None => r.is_none(),
        },
{
    if same(extension, "txt") {
        Some("text/plain".to_owned())
    } else if same(extension, "json") {
        Some("application/json".to_owned())
    } else if same(extension, "png") {
        Some("image/png".to_owned())
    } else if same(extension, "jpg") {
        Some("image/jpeg".to_owned())
    } else if same(extension, "jpeg") {
        Some("image/jpeg".to_owned())
    } else if same(extension, "wav") {
        Some("audio/wav".to_owned())
    } else if same(extension, "mp3") {
        Some("audio/mpeg".to_owned())
    } else if same(extension, "mp4") {
        Some("video/mp4".to_owned())
    } else if same(extension, "md") {
        Some("text/markdown".to_owned())
    } else {
        None
    }
}

/// Whether `c` is a digit of lower-case hexadecimal.
pub open spec fn is_hex(c: char) -> bool {
    ('0' <= c && c <= '9') || ('a' <= c && c <= 'f')
}

/// Whether `s` has the shape of a random identifier in its hyphenated form:
/// 36 characters, hyphens at four fixed places, hexadecimal digits elsewhere.
pub open spec fn is_uuid_text(s: Seq<char>) -> bool {
    s.len() == 36 && forall|i: int|
        0 <= i < 36 ==> if i == 8 || i == 13 || i == 18 || i == 23 {
            s[i] == '-'
        } else {
            is_hex(#[trigger] s[i])
        }
}

/// Whether `s` is a file identifier: `file_` and a random part.
pub open spec fn is_file_id(s: Seq<char>) -> bool {
    "file_"@.is_prefix_of(s) && is_uuid_text(s.skip(5))
}

/// Draws a random identifier with `uuid::Uuid::new_v4` and writes it with
/// `to_string`. Whatever is drawn, the text is the hyphenated lower-case
/// form; nothing is claimed of which identifier comes.
#[verifier::external_body]
pub(crate) fn random_uuid_text() -> (r: String)
    ensures
        is_uuid_text(r@),
{
    uuid::Uuid::new_v4().to_string()
}

/// A fresh identifier for a file.
pub fn mint_file_id() -> (r: String)
    ensures
        is_file_id(r@),
{
    let random = random_uuid_text();
    let id = join("file_", random.as_str());
    proof {
        reveal_strlit("file_");
        assert(id@.skip(5) =~= random@);
        assert("file_"@ =~= id@.subrange(0, 5));
    }
    id
}

/// The model of a registry: the stored files in the order of their creation.
pub type Store = Seq<StoredFileView>;

/// Whether a file with this identifier is stored.
pub open spec fn holds(store: Store, id: Seq<char>) -> bool {
    exists|i: int| 0 <= i < store.len() && (#[trigger] store[i]).meta.id == id
}

/// The position of the first file with this identifier, or the length of
/// the store where there is none.
pub open spec fn position(store: Store, id: Seq<char>) -> int
    decreases store.len(),
{
    if store.len() == 0 {
        0
    } else if store[0].meta.id == id {
        0
    } else {
        1 + position(store.skip(1), id)
    }
}

/// The stored file that `create` adds.
pub open spec fn new_entry(
    id: Seq<char>,
    filename: Seq<char>,
    content: Seq<u8>,
    created_at: u64,
) -> StoredFileView {
    StoredFileView {
        meta: FileObjectView {
            id,
            bytes: content.len() as u64,
            created_at,
            filename,
            object: "file"@,
            purpose: "assistants"@,
        },
        content,
    }
}

/// The store with one more file at its end.
pub open spec fn added(store: Store, entry: StoredFileView) -> Store {
    store.push(entry)
}

/// The store without the file of this identifier; the store itself where
/// it holds none.
pub open spec fn removed(store: Store, id: Seq<char>) -> Store {
    if holds(store, id) {
        store.remove(position(store, id))
    } else {
        store
    }
}

/// What is known about the file of this identifier.
pub open spec fn metadata_of(store: Store, id: Seq<char>) -> Option<FileObjectView> {
    if holds(store, id) {
        Some(store[position(store, id)].meta)
    } else {
        None
    }
}

/// The bytes of the file of this identifier.
pub open spec fn content_of(store: Store, id: Seq<char>) -> Option<Seq<u8>> {
    if holds(store, id) {
        Some(store[position(store, id)].content)
    } else {
        None
    }
}

/// What is known about each stored file, in the order of the store.
pub open spec fn listing(store: Store) -> Seq<FileObjectView> {
    Seq::new(store.len(), |i: int| store[i].meta)
}

/// The views of a sequence of file objects.
pub open spec fn object_views(v: Seq<FileObject>) -> Seq<FileObjectView> {
    Seq::new(v.len(), |i: int| v[i]@)
}

/// Whether a stored file is described as every file is: its size is that
/// of its content, its object type is `file`, its purpose `assistants`.
pub open spec fn described(file: StoredFileView) -> bool {
    &&& file.meta.bytes == file.content.len()
    &&& file.meta.object == "file"@
    &&& file.meta.purpose == "assistants"@
}

/// No identifier occurs twice, and each file is described as every file is.
pub open spec fn well_formed(store: Store) -> bool {
    &&& forall|i: int, j: int|
        0 <= i < j < store.len() ==> (#[trigger] store[i]).meta.id != (#[trigger] store[j]).meta.id
    &&& forall|i: int| 0 <= i < store.len() ==> described(#[trigger] store[i])
}

/// The listing of a valid store holds each identifier once, and each
/// listed object has the object type `file`, the purpose `assistants` and
/// the size of the stored content.
pub proof fn law_listing_of_a_valid_store(store: Store)
    requires
        well_formed(store),
    ensures
        listing(store).len() == store.len(),
        forall|i: int, j: int|
            0 <= i < j < store.len() ==> (#[trigger] listing(store)[i]).id != (
            #[trigger] listing(store)[j]).id,
        forall|i: int|
            0 <= i < store.len() ==> {
                &&& holds(store, (#[trigger] listing(store)[i]).id)
                &&& listing(store)[i].object == "file"@
                &&& listing(store)[i].purpose == "assistants"@
                &&& listing(store)[i].bytes == store[i].content.len()
                &&& content_of(store, listing(store)[i].id) == Some(store[i].content)
            },
        forall|id: Seq<char>|
            holds(store, id) ==> listing(store)[position(store, id)].id == id,
{
    assert forall|i: int| 0 <= i < store.len() implies {
        &&& holds(store, (#[trigger] listing(store)[i]).id)
        &&& listing(store)[i].object == "file"@
        &&& listing(store)[i].purpose == "assistants"@
        &&& listing(store)[i].bytes == store[i].content.len()
        &&& content_of(store, listing(store)[i].id) == Some(store[i].content)
    } by {
        assert(described(store[i]));
        let id = store[i].meta.id;
        lemma_position(store, id);
        let p = position(store, id);
        if p < i {
            assert(store[p].meta.id != store[i].meta.id);
        }
    }
    assert forall|id: Seq<char>| holds(store, id) implies listing(store)[position(store, id)].id
        == id by {
        lemma_position(store, id);
    }
    assert forall|i: int, j: int| 0 <= i < j < store.len() implies (#[trigger] listing(
        store,
    )[i]).id != (#[trigger] listing(store)[j]).id by {
        assert(store[i].meta.id != store[j].meta.id);
    }
}

pub proof fn lemma_position(store: Store, id: Seq<char>)
    ensures
        0 <= position(store, id) <= store.len(),
        position(store, id) < store.len() <==> holds(store, id),
        position(store, id) < store.len() ==> store[position(store, id)].meta.id == id,
        forall|j: int| 0 <= j < position(store, id) ==> (#[trigger] store[j]).meta.id != id,
    decreases store.len(),
{
    if store.len() > 0 && store[0].meta.id != id {
        let t = store.skip(1);
        lemma_position(t, id);
        assert forall|j: int| 0 <= j < position(store, id) implies (#[trigger] store[j]).meta.id
            != id by {
            if j > 0 {
                assert(t[j - 1] == store[j]);
            }
        }
        if holds(store, id) {
            let i = choose|i: int| 0 <= i < store.len() && (#[trigger] store[i]).meta.id == id;
            assert(t[i - 1] == store[i]);
        }
        if position(t, id) < t.len() {
            assert(t[position(t, id)] == store[position(t, id) + 1]);
        }
    } else if store.len() > 0 {
        assert(store[0].meta.id == id);
    }
}

/// A position that holds the identifier, with none before it, is the first.
pub proof fn lemma_position_is(store: Store, id: Seq<char>, i: int)
    requires
        0 <= i <= store.len(),
        forall|j: int| 0 <= j < i ==> (#[trigger] store[j]).meta.id != id,
        i < store.len() ==> store[i].meta.id == id,
    ensures
        position(store, id) == i,
        holds(store, id) == (i < store.len()),
{
    lemma_position(store, id);
}

/// A file that was just added under an unused identifier is the one found
/// under that identifier.
pub proof fn lemma_added_position(store: Store, entry: StoredFileView)
    requires
        !holds(store, entry.meta.id),
    ensures
        holds(added(store, entry), entry.meta.id),
        position(added(store, entry), entry.meta.id) == store.len(),
        forall|id: Seq<char>|
            id != entry.meta.id ==> holds(added(store, entry), id) == holds(store, id)
                && position(added(store, entry), id) == if holds(store, id) {
                position(store, id)
            } else {
                store.len() as int + 1
            },
{
    let after = added(store, entry);
    assert forall|j: int| 0 <= j < store.len() implies (#[trigger] after[j]).meta.id
        != entry.meta.id by {
        assert(store[j] == after[j]);
    }
    assert(after[store.len() as int] == entry);
    lemma_position_is(after, entry.meta.id, store.len() as int);
    assert forall|id: Seq<char>| id != entry.meta.id implies holds(after, id) == holds(store, id)
        && position(after, id) == if holds(store, id) {
        position(store, id)
    } else {
        store.len() as int + 1
    } by {
        lemma_position(store, id);
        let p = position(store, id);
        assert forall|j: int| 0 <= j < p implies (#[trigger] after[j]).meta.id != id by {
            assert(store[j] == after[j]);
        }
        if p < store.len() {
            assert(after[p] == store[p]);
            lemma_position_is(after, id, p);
        } else {
            lemma_position_is(after, id, store.len() as int + 1);
        }
    }
}

/// Whatever bytes are stored under a fresh identifier, the empty sequence
/// included, are the bytes that are read back under it.
pub proof fn law_content_round_trip(
    store: Store,
    id: Seq<char>,
    filename: Seq<char>,
    content: Seq<u8>,
    created_at: u64,
)
    requires
        !holds(store, id),
    ensures
        content_of(added(store, new_entry(id, filename, content, created_at)), id) == Some(
            content,
        ),
{
    lemma_added_position(store, new_entry(id, filename, content, created_at));
}

/// Removing an identifier that no file has changes nothing, and removing
/// twice is removing once.
pub proof fn law_delete_is_idempotent(store: Store, id: Seq<char>)
    requires
        well_formed(store),
    ensures
        !holds(store, id) ==> removed(store, id) == store,
        !holds(removed(store, id), id),
        removed(removed(store, id), id) == removed(store, id),
{
    lemma_position(store, id);
    if holds(store, id) {
        let p = position(store, id);
        let after = store.remove(p);
        if holds(after, id) {
            let k = choose|k: int| 0 <= k < after.len() && (#[trigger] after[k]).meta.id == id;
            if k < p {
                assert(after[k] == store[k]);
            } else {
                assert(after[k] == store[k + 1]);
                assert(store[p].meta.id != store[k + 1].meta.id);
            }
        }
    }
}

/// A file that is stored under a fresh identifier is found under it; once
/// it is removed it is found no more, and the registry is as it was before.
pub proof fn law_upload_retrieve_delete(
    store: Store,
    id: Seq<char>,
    filename: Seq<char>,
    content: Seq<u8>,
    created_at: u64,
)
    requires
        !holds(store, id),
    ensures
        ({
            let entry = new_entry(id, filename, content, created_at);
            let uploaded = added(store, entry);
            &&& metadata_of(uploaded, id) == Some(entry.meta)
            &&& holds(uploaded, id)
            &&& removed(uploaded, id) == store
            &&& metadata_of(removed(uploaded, id), id).is_none()
            &&& content_of(removed(uploaded, id), id).is_none()
        }),
{
    let entry = new_entry(id, filename, content, created_at);
    lemma_added_position(store, entry);
    assert(added(store, entry).remove(store.len() as int) =~= store);
}

/// Whether `r` and the store `after` are what comes of storing a file
/// under the file identifier `id`: the file is added and its object
/// returned, or, where `id` is in use, an error is returned and nothing
/// changes.
pub open spec fn stored_under(
    id: Seq<char>,
    before: Store,
    filename: Seq<char>,
    content: Seq<u8>,
    created_at: u64,
    r: Result<FileObject, FileError>,
    after: Store,
) -> bool {
    &&& is_file_id(id)
    &&& if holds(before, id) {
        &&& after == before
        &&& r.is_err()
        &&& r.unwrap_err()@ == (FileErrorView::Storage {
            reason: "The identifier is in use: "@ + id,
        })
    } else {
        &&& after == added(before, new_entry(id, filename, content, created_at))
        &&& r.is_ok()
        &&& r.unwrap()@ == new_entry(id, filename, content, created_at).meta
    }
}

/// The registry of uploaded files.
#[derive(Debug)]
pub struct FileRegistry {
    files: Vec<StoredFile>,
}

impl View for FileRegistry {
    type V = Store;

    closed spec fn view(&self) -> Store {
        Seq::new(self.files@.len(), |i: int| self.files@[i]@)
    }
}

impl FileRegistry {
    /// Whether the registry keeps its invariant.
    pub open spec fn wf(&self) -> bool {
        well_formed(self@)
    }

    /// A registry without files.
    pub fn new() -> (r: FileRegistry)
        ensures
            r@ == Seq::<StoredFileView>::empty(),
            r.wf(),
    {
        let r = FileRegistry { files: Vec::new() };
        assert(r@ =~= Seq::<StoredFileView>::empty());
        r
    }

    /// The number of stored files.
    pub fn len(&self) -> (n: usize)
        ensures
            n == self@.len(),
    {
        self.files.len()
    }

    fn locate(&self, id: &str) -> (r: Option<usize>)
        ensures
            match r {
                Some(i) => i < self@.len() && position(self@, id@) == i && holds(self@, id@),
                None => !holds(self@, id@) && position(self@, id@) == self@.len(),
            },
    {
        let n = self.files.len();
        let mut i: usize = 0;
        while i < n
            invariant
                n == self.files@.len(),
                n == self@.len(),
                i <= n,
                forall|j: int| 0 <= j < i ==> (#[trigger] self@[j]).meta.id != id@,
            decreases n - i,
        {
            if same(self.files[i].meta.id.as_str(), id) {
                proof {
                    assert(self@[i as int].meta.id == id@);
                    lemma_position_is(self@, id@, i as int);
                }
                return Some(i);
            }
            i += 1;
        }
        proof {
            lemma_position_is(self@, id@, n as int);
        }
        None
    }

    /// Whether a file with this identifier is stored.
    pub fn contains(&self, id: &str) -> (r: bool)
        ensures
            r == holds(self@, id@),
    {
        self.locate(id).is_some()
    }

    /// Stores `content` under the identifier `id`, unless a file has it.
    pub fn insert(&mut self, id: String, filename: String, content: Vec<u8>, created_at: u64) -> (r:
        Result<FileObject, FileError>)
        requires
            old(self).wf(),
        ensures
            final(self).wf(),
            match r {
                Ok(meta) => {
                    &&& !holds(old(self)@, id@)
                    &&& final(self)@ == added(
                        old(self)@,
                        new_entry(id@, filename@, content@, created_at),
                    )
                    &&& meta@ == new_entry(id@, filename@, content@, created_at).meta
                },
                Err(e) => {
                    &&& holds(old(self)@, id@)
                    &&& final(self)@ == old(self)@
                    &&& e@ == (FileErrorView::Storage { reason: "The identifier is in use: "@ + id@ })
                },
            },
    {
        if self.contains(id.as_str()) {
            return Err(
                FileError::Storage { reason: join("The identifier is in use: ", id.as_str()) },
            );
        }
        let meta = FileObject {
            id,
            bytes: content.len() as u64,
            created_at,
            filename,
            object: "file".to_owned(),
            purpose: "assistants".to_owned(),
        };
        let copy = meta.duplicate();
        let ghost before = self@;
        let ghost entry = new_entry(meta.id@, meta.filename@, content@, created_at);
        self.files.push(StoredFile { meta, content });
        proof {
            assert(self@ =~= before.push(entry));
            assert forall|i: int, j: int| 0 <= i < j < self@.len() implies (#[trigger] self@[i]).meta.id
                != (#[trigger] self@[j]).meta.id by {
                if j == before.len() {
                    assert(before[i].meta.id != entry.meta.id);
                } else {
                    assert(before[i].meta.id != before[j].meta.id);
                }
            }
        }
        Ok(copy)
    }

    /// Stores `content` under a fresh identifier.
    ///
    /// The identifier is drawn at random. Whichever is drawn, the file is
    /// stored under it, unless a file already has it: then nothing is
    /// stored.
    pub fn create(&mut self, filename: String, content: Vec<u8>, created_at: u64) -> (r: Result<
        FileObject,
        FileError,
    >)
        requires
            old(self).wf(),
        ensures
            final(self).wf(),
            exists|id: Seq<char>| #[trigger]
                stored_under(id, old(self)@, filename@, content@, created_at, r, final(self)@),
    {
        let id = mint_file_id();
        let ghost drawn = id@;
        let r = self.insert(id, filename, content, created_at);
        assert(stored_under(drawn, old(self)@, filename@, content@, created_at, r, self@));
        r
    }

    /// What is known about each stored file, in the order of creation.
    pub fn list(&self) -> (r: Vec<FileObject>)
        ensures
            object_views(r@) == listing(self@),
    {
        let n = self.files.len();
        let mut out: Vec<FileObject> = Vec::new();
        let mut i: usize = 0;
        while i < n
            invariant
                n == self.files@.len(),
                n == self@.len(),
                i <= n,
                out@.len() == i,
                forall|j: int| 0 <= j < i ==> (#[trigger] out@[j])@ == self@[j].meta,
            decreases n - i,
        {
            out.push(self.files[i].meta.duplicate());
            i += 1;
        }
        assert(object_views(out@) =~= listing(self@));
        out
    }

    /// What is known about the file of this identifier.
    pub fn retrieve_metadata(&self, id: &str) -> (r: Result<FileObject, FileError>)
        ensures
            match r {
                Ok(meta) => metadata_of(self@, id@) == Some(meta@),
                Err(e) => metadata_of(self@, id@).is_none() && e@ == (FileErrorView::NotFound {
                    id: id@,
                }),
            },
    {
        match self.locate(id) {
            Some(i) => Ok(self.files[i].meta.duplicate()),
            None => Err(FileError::NotFound { id: id.to_owned() }),
        }
    }

    /// The bytes of the file of this identifier.
    pub fn retrieve_content(&self, id: &str) -> (r: Result<Vec<u8>, FileError>)
        ensures
            match r {
                Ok(content) => content_of(self@, id@) == Some(content@),
                Err(e) => content_of(self@, id@).is_none() && e@ == (FileErrorView::NotFound {
                    id: id@,
                }),
            },
    {
        match self.locate(id) {
            Some(i) => Ok(self.files[i].content.clone()),
            None => Err(FileError::NotFound { id: id.to_owned() }),
        }
    }

    /// The file of this identifier with the content type that its name's
    /// extension stands for.
    pub fn download(&self, id: &str) -> (r: Result<Download, FileError>)
        ensures
            match r {
                Ok(d) => {
                    &&& metadata_of(self@, id@).is_some()
                    &&& d.filename@ == metadata_of(self@, id@).unwrap().filename
                    &&& content_of(self@, id@) == Some(d.content@)
                    &&& content_type_of(extension_of(d.filename@)) == Some(d.content_type@)
                },
                Err(e) => match metadata_of(self@, id@) {
                    None => e@ == (FileErrorView::NotFound { id: id@ }),
                    Some(meta) => {
                        &&& content_type_of(extension_of(meta.filename)).is_none()
                        &&& e@ == (FileErrorView::UnsupportedExtension {
                            extension: extension_of(meta.filename),
                        })
                    },
                },
            },
    {
        match self.locate(id) {
            Some(i) => {
                let filename = self.files[i].meta.filename.clone();
                let ext = extension(filename.as_str());
                match content_type(ext.as_str()) {
                    Some(kind) => Ok(
                        Download {
                            filename,
                            content_type: kind,
                            content: self.files[i].content.clone(),
                        },
                    ),
                    None => Err(FileError::UnsupportedExtension { extension: ext }),
                }
            },
            None => Err(FileError::NotFound { id: id.to_owned() }),
        }
    }

    /// Removes the file of this identifier. The result says whether there
    /// was one.
    pub fn delete(&mut self, id: &str) -> (deleted: bool)
        requires
            old(self).wf(),
        ensures
            final(self).wf(),
            deleted == holds(old(self)@, id@),
            final(self)@ == removed(old(self)@, id@),
            !holds(final(self)@, id@),
    {
        match self.locate(id) {
            Some(i) => {
                let ghost before = self@;
                self.files.remove(i);
                proof {
                    lemma_position(before, id@);
                    assert(self@ =~= before.remove(i as int));
                    assert forall|k: int| 0 <= k < self@.len() implies (#[trigger] self@[k]).meta.id
                        != id@ by {
                        if k < i {
                            assert(before[k].meta.id != before[i as int].meta.id);
                        } else {
                            assert(before[i as int].meta.id != before[k + 1].meta.id);
                        }
                    }
                    assert forall|a: int, b: int| 0 <= a < b < self@.len() implies (
                    #[trigger] self@[a]).meta.id != (#[trigger] self@[b]).meta.id by {
                        let a0 = if a < i { a } else { a + 1 };
                        let b0 = if b < i { b } else { b + 1 };
                        assert(before[a0].meta.id != before[b0].meta.id);
                    }
                }
                true
            },
            None => false,
        }
    }
}

} // verus!
