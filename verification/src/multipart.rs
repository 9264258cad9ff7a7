//! The parts of a `multipart/form-data` body.
//!
//! The body is taken apart by the `multipart_2021` crate. This module reads
//! the parts off its reader one by one, in the order of their arrival, and
//! hands them on as plain values.

use multipart_2021::server::{Multipart, ReadEntry, ReadEntryResult};
use crate::text::text_view;
use std::io::{Cursor, Read};
use vstd::prelude::*;

verus! {

/// One named part of a body: inline text or an attached file.
#[derive(Debug)]
pub struct Part {
    /// The name of the form field.
    pub name: String,
    /// The name of the attached file, where the part has one.
    pub filename: Option<String>,
    /// Whether the part declares no content type, or a textual one.
    pub is_text: bool,
    /// The bytes of the part, as far as they could be read.
    pub data: Vec<u8>,
    /// Why the bytes could not be read to their end, where they could not.
    pub failure: Option<String>,
}

pub ghost struct PartView {
    pub name: Seq<char>,
    pub filename: Option<Seq<char>>,
    pub is_text: bool,
    pub data: Seq<u8>,
    pub failure: Option<Seq<char>>,
}

impl View for Part {
    type V = PartView;

    open spec fn view(&self) -> PartView {
        PartView {
            name: self.name@,
            filename: text_view(self.filename),
            is_text: self.is_text,
            data: self.data@,
            failure: text_view(self.failure),
        }
    }
}

/// The views of a sequence of parts.
pub open spec fn part_views(parts: Seq<Part>) -> Seq<PartView> {
    Seq::new(parts.len(), |i: int| parts[i]@)
}

#[verifier::external_type_specification]
#[verifier::external_body]
#[verifier::reject_recursive_types(T)]
pub struct ExCursor<T>(Cursor<T>);

#[verifier::external_type_specification]
#[verifier::external_body]
#[verifier::reject_recursive_types(R)]
pub struct ExMultipart<R>(Multipart<R>);

/// The parts that `multipart_2021` finds in `body` between the lines that
/// `boundary` marks, up to the end of the body or the first part that it
/// cannot read.
pub uninterp spec fn multipart_parts(body: Seq<u8>, boundary: Seq<char>) -> Seq<PartView>;

/// The parts that a reader has yet to hand out.
pub uninterp spec fn pending_parts(reader: Multipart<Cursor<Vec<u8>>>) -> Seq<PartView>;

/// Sets a reader of `multipart_2021` on `body` with `Multipart::with_body`.
/// What the reader will hand out is what the crate finds in the body.
#[verifier::external_body]
pub(crate) fn open_reader(body: Vec<u8>, boundary: &str) -> (reader: Multipart<Cursor<Vec<u8>>>)
    ensures
        pending_parts(reader) == multipart_parts(body@, boundary@),
{
    Multipart::with_body(Cursor::new(body), boundary)
}

/// Takes the next part off the reader with `read_entry_mut` and reads its
/// bytes to their end. The result is the first of the pending parts, and
/// `None` where none is pending: at the end of the body, and where the crate
/// reports an error in place of a part.
#[verifier::external_body]
pub(crate) fn next_part(reader: &mut Multipart<Cursor<Vec<u8>>>) -> (r: Option<Part>)
    ensures
        match r {
            Some(part) => {
                &&& pending_parts(*old(reader)).len() > 0
                &&& part@ == pending_parts(*old(reader))[0]
                &&& pending_parts(*final(reader)) == pending_parts(*old(reader)).skip(1)
            },
            None => pending_parts(*old(reader)).len() == 0,
        },
{
    match reader.read_entry_mut() {
        ReadEntryResult::Entry(mut field) => {
            let mut data = Vec::new();
            let failure = field.data.read_to_end(&mut data).err().map(|e| e.to_string());
            let is_text = field.is_text();
            let name = field.headers.name.to_string();
            Some(Part { name, filename: field.headers.filename, is_text, data, failure })
        },
        _ => None,
    }
}

} // verus!
