//! What holds of the gateway as a whole: statements that relate several of
//! its functions, each proved from their contracts.

use crate::draft::{run, size_of, step, with_file, with_text, DraftView};
use crate::fields::{
    decode_error_text, field_of, is_client_error, DecodeErrorView, Field, ResponseFormat, Variant,
};
use crate::fields::is_file_field;
use crate::files::{
    added, content_of, file_error_text, holds, lemma_added_position, lemma_position_is,
    new_entry, removed, FileErrorView, StoredFileView, Store,
};
use crate::json::{json_of_deletion, json_of_file, json_of_images, ImagesResponseView};
use crate::multipart::PartView;
use crate::number::{digit_run, is_digit, lemma_digit_run_bounds, unsigned_of};
use crate::request::{is_minted_user, settled};
use crate::response::{
    api_error_of, error_view, images_reply_view, status_of, translated, ErrorKind,
};
use crate::service::{delete_view, failure, json_or_failure, metadata_view};
use crate::text::{lemma_split_in_two, lemma_split_joined, split_on};
use vstd::prelude::*;

verus! {

/// A request that names no user runs under the minted name, which is not
/// empty, and the answer to it carries that name in the header `user`; a
/// request that names one keeps it.
pub proof fn law_user_is_echoed(
    user: Option<Seq<char>>,
    minted: Seq<char>,
    response: ImagesResponseView,
    format: Option<ResponseFormat>,
    https: bool,
    host: Seq<char>,
    prefix: Seq<char>,
)
    requires
        is_minted_user(minted),
        match translated(response, format, https, host) {
            Ok(answer) => json_of_images(answer).is_ok(),
            Err(_) => false,
        },
    ensures
        user.is_none() ==> settled(user, minted) == minted && settled(user, minted).len() > 0,
        user.is_some() ==> settled(user, minted) == user.unwrap(),
        ({
            let answer = images_reply_view(
                Ok(response),
                prefix,
                format,
                https,
                host,
                settled(user, minted),
            );
            answer.status == 200 && answer.headers.last() == ("user"@, settled(user, minted))
        }),
{
    reveal_strlit("image_");
}

/// The registry only grows while a body is decoded: the files that it held
/// stay, in their order.
pub proof fn lemma_run_keeps_files(
    variant: Variant,
    draft: DraftView,
    store: Store,
    items: Seq<(PartView, Seq<char>)>,
    now: u64,
)
    ensures
        store.is_prefix_of(run(variant, draft, store, items, now).1),
    decreases items.len(),
{
    if items.len() > 0 {
        match step(variant, draft, store, items[0].0, items[0].1, now) {
            Ok((d, s)) => {
                lemma_run_keeps_files(variant, d, s, items.skip(1), now);
                assert(store.is_prefix_of(s));
            },
            Err(e) => {},
        }
    }
}

/// A part whose name the request does not accept ends the decoding, where
/// the parts before it were accepted: the error is the client's and names
/// the field, the answer to it is a bad request, no file is stored for that
/// part or any after it, and the files of the parts before it stay in the
/// registry.
pub proof fn law_unknown_field_stops(
    variant: Variant,
    draft: DraftView,
    store: Store,
    items: Seq<(PartView, Seq<char>)>,
    now: u64,
    k: int,
)
    requires
        0 <= k < items.len(),
        field_of(variant, items[k].0.name).is_none(),
        run(variant, draft, store, items.take(k), now).0.is_ok(),
    ensures
        ({
            let before = run(variant, draft, store, items.take(k), now);
            let all = run(variant, draft, store, items, now);
            let error = DecodeErrorView::UnsupportedField { name: items[k].0.name };
            &&& all.0 == Err::<DraftView, DecodeErrorView>(error)
            &&& is_client_error(error)
            &&& api_error_of(error).kind == ErrorKind::BadRequest
            &&& status_of(api_error_of(error).kind) == 400
            &&& all.1 == before.1
            &&& store.is_prefix_of(all.1)
        }),
    decreases k,
{
    lemma_run_keeps_files(variant, draft, store, items, now);
    if k == 0 {
        assert(items.take(0) =~= Seq::empty());
    } else {
        let head = items.take(k);
        assert(head[0] == items[0]);
        assert(head.skip(1) =~= items.skip(1).take(k - 1));
        match step(variant, draft, store, items[0].0, items[0].1, now) {
            Ok((d, s)) => {
                assert(items.skip(1)[k - 1] == items[k]);
                law_unknown_field_stops(variant, d, s, items.skip(1), now, k - 1);
            },
            Err(e) => {},
        }
    }
}

/// Whether a part is a file that the request accepts, with a name and read
/// to its end.
pub open spec fn is_upload(variant: Variant, part: PartView) -> bool {
    match field_of(variant, part.name) {
        Some(field) => is_file_field(field) && part.filename.is_some() && part.failure.is_none(),
        None => false,
    }
}

/// Whether the first `k` parts are files that the request accepts.
pub open spec fn are_uploads(variant: Variant, items: Seq<(PartView, Seq<char>)>, k: int) -> bool {
    forall|i: int| 0 <= i < k ==> is_upload(variant, (#[trigger] items[i]).0)
}

/// Whether the identifiers of the first `k` parts are unused: none is in
/// the store and no two are the same.
pub open spec fn are_fresh(store: Store, items: Seq<(PartView, Seq<char>)>, k: int) -> bool {
    &&& forall|i: int| 0 <= i < k ==> !holds(store, (#[trigger] items[i]).1)
    &&& forall|i: int, j: int|
        0 <= i < j < k ==> (#[trigger] items[i]).1 != (#[trigger] items[j]).1
}

/// The stored files of the first `k` parts, in their order.
pub open spec fn uploaded(items: Seq<(PartView, Seq<char>)>, k: int, now: u64) -> Seq<
    StoredFileView,
> {
    Seq::new(
        k as nat,
        |i: int| new_entry(items[i].1, items[i].0.filename.unwrap(), items[i].0.data, now),
    )
}

/// Files that come before a field that the request does not accept are
/// stored and stay stored, where their identifiers are unused: the decoding
/// ends with the error of the unknown field, which is answered as a bad
/// request; the registry is what it was with exactly those files added,
/// each found under its identifier with the bytes of its part; nothing is
/// stored for the unknown field or for any part after it.
pub proof fn law_uploads_before_an_unknown_field_stay(
    variant: Variant,
    draft: DraftView,
    store: Store,
    items: Seq<(PartView, Seq<char>)>,
    now: u64,
    k: int,
)
    requires
        0 <= k < items.len(),
        are_uploads(variant, items, k),
        are_fresh(store, items, k),
        field_of(variant, items[k].0.name).is_none(),
    ensures
        ({
            let error = DecodeErrorView::UnsupportedField { name: items[k].0.name };
            let after = store + uploaded(items, k, now);
            &&& run(variant, draft, store, items, now) == (
                Err::<DraftView, DecodeErrorView>(error),
                after,
            )
            &&& api_error_of(error).kind == ErrorKind::BadRequest
            &&& status_of(api_error_of(error).kind) == 400
            &&& after.len() == store.len() + k
            &&& forall|i: int|
                0 <= i < k ==> holds(after, (#[trigger] items[i]).1) && content_of(
                    after,
                    items[i].1,
                ) == Some(items[i].0.data)
        }),
    decreases k,
{
    let after = store + uploaded(items, k, now);
    assert forall|i: int| 0 <= i < k implies holds(after, (#[trigger] items[i]).1) && content_of(
        after,
        items[i].1,
    ) == Some(items[i].0.data) by {
        let id = items[i].1;
        let p = store.len() + i;
        assert(after[p] == uploaded(items, k, now)[i]);
        assert forall|j: int| 0 <= j < p implies (#[trigger] after[j]).meta.id != id by {
            if j < store.len() {
                assert(after[j] == store[j]);
            } else {
                assert(after[j] == uploaded(items, k, now)[j - store.len()]);
                assert(items[j - store.len()].1 != items[i].1);
            }
        }
        lemma_position_is(after, id, p);
    }
    if k == 0 {
        assert(after =~= store);
    } else {
        let part = items[0].0;
        let id = items[0].1;
        assert(is_upload(variant, items[0].0));
        assert(!holds(store, items[0].1));
        let entry = new_entry(id, part.filename.unwrap(), part.data, now);
        let next = added(store, entry);
        let rest = items.skip(1);
        lemma_added_position(store, entry);
        assert(are_uploads(variant, rest, k - 1)) by {
            assert forall|i: int| 0 <= i < k - 1 implies is_upload(
                variant,
                (#[trigger] rest[i]).0,
            ) by {
                assert(rest[i] == items[i + 1]);
            }
        }
        assert(are_fresh(next, rest, k - 1)) by {
            assert forall|i: int| 0 <= i < k - 1 implies !holds(next, (#[trigger] rest[i]).1) by {
                assert(rest[i] == items[i + 1]);
                assert(items[0].1 != items[i + 1].1);
                assert(!holds(store, items[i + 1].1));
            }
            assert forall|i: int, j: int| 0 <= i < j < k - 1 implies (#[trigger] rest[i]).1 != (
            #[trigger] rest[j]).1 by {
                assert(rest[i] == items[i + 1]);
                assert(rest[j] == items[j + 1]);
            }
        }
        assert(rest[k - 1] == items[k]);
        let field = field_of(variant, part.name).unwrap();
        let d = with_file(draft, field, entry.meta);
        assert(step(variant, draft, store, part, id, now) == Ok::<
            (DraftView, Store),
            DecodeErrorView,
        >((d, next)));
        law_uploads_before_an_unknown_field_stay(variant, d, next, rest, now, k - 1);
        assert(next + uploaded(rest, k - 1, now) =~= after) by {
            assert forall|i: int| 0 <= i < k - 1 implies (#[trigger] uploaded(
                rest,
                k - 1,
                now,
            )[i]) == uploaded(items, k, now)[i + 1] by {
                assert(rest[i] == items[i + 1]);
            }
            assert(uploaded(items, k, now)[0] == entry);
        }
    }
}

/// The text of a size: a height and a width around an `x`.
pub open spec fn size_text(height: Seq<char>, width: Seq<char>) -> Seq<char> {
    height + seq!['x'] + width
}

/// Whether a text is an unsigned number that fits the machine's word.
pub open spec fn is_extent(s: Seq<char>) -> bool {
    unsigned_of(s, usize::MAX as int).is_ok()
}

/// The number that a text stands for.
pub open spec fn extent_of(s: Seq<char>) -> usize {
    unsigned_of(s, usize::MAX as int).unwrap() as usize
}

/// A number holds no `x`.
pub proof fn lemma_extent_has_no_x(s: Seq<char>)
    requires
        is_extent(s),
    ensures
        forall|i: int| 0 <= i < s.len() ==> s[i] != 'x',
{
    let d = if s[0] == '+' {
        s.skip(1)
    } else {
        s
    };
    lemma_digit_run_bounds(d);
    assert(digit_run(d) == d.len());
    assert forall|i: int| 0 <= i < s.len() implies s[i] != 'x' by {
        if s[0] == '+' {
            if i > 0 {
                assert(d[i - 1] == s[i]);
                assert(is_digit(d[i - 1]));
            }
        } else {
            assert(is_digit(d[i]));
        }
    }
}

/// A size of two numbers around an `x` sets the height to the first and
/// the width to the second.
pub proof fn law_size_sets_height_and_width(
    variant: Variant,
    draft: DraftView,
    height: Seq<char>,
    width: Seq<char>,
)
    requires
        variant != Variant::Variation,
        is_extent(height),
        is_extent(width),
    ensures
        size_of(size_text(height, width)) == Ok::<(usize, usize), DecodeErrorView>(
            (extent_of(height), extent_of(width)),
        ),
        with_text(variant, draft, Field::Size, size_text(height, width)) == Ok::<
            DraftView,
            DecodeErrorView,
        >(
            DraftView {
                height: Some(extent_of(height)),
                width: Some(extent_of(width)),
                ..draft
            },
        ),
{
    lemma_extent_has_no_x(height);
    lemma_extent_has_no_x(width);
    lemma_split_joined(height, width, 'x');
}

/// A size of any other shape is rejected, whatever the request, with an
/// error whose text begins with `Invalid size format`.
pub proof fn law_other_sizes_are_invalid(variant: Variant, draft: DraftView, text: Seq<char>)
    requires
        forall|height: Seq<char>, width: Seq<char>|
            text == #[trigger] size_text(height, width) ==> !(is_extent(height) && is_extent(
                width,
            )),
    ensures
        with_text(variant, draft, Field::Size, text) == Err::<DraftView, DecodeErrorView>(
            DecodeErrorView::InvalidSize { raw: text },
        ),
        is_client_error(DecodeErrorView::InvalidSize { raw: text }),
        "Invalid size format"@.is_prefix_of(
            decode_error_text(DecodeErrorView::InvalidSize { raw: text }),
        ),
{
    let pieces = split_on(text, 'x');
    if pieces.len() == 2 {
        lemma_split_in_two(text, 'x');
        assert(text == size_text(pieces[0], pieces[1]));
    }
    reveal_strlit("Invalid size format");
    reveal_strlit("Invalid size format. The correct format is `HeightxWidth`. Example: 256x256");
    let full = "Invalid size format. The correct format is `HeightxWidth`. Example: 256x256"@;
    assert("Invalid size format"@ =~= full.subrange(0, 19));
}

/// Fields are written in the order of their arrival, and the later one
/// stays: a height that comes after a size replaces the height of the size
/// and leaves its width.
pub proof fn law_height_after_size_wins(
    variant: Variant,
    draft: DraftView,
    size: Seq<char>,
    h: usize,
    w: usize,
    height: Seq<char>,
)
    requires
        variant != Variant::Variation,
        size_of(size) == Ok::<(usize, usize), DecodeErrorView>((h, w)),
        is_extent(height),
    ensures
        ({
            let sized = DraftView { height: Some(h), width: Some(w), ..draft };
            &&& with_text(variant, draft, Field::Size, size) == Ok::<DraftView, DecodeErrorView>(
                sized,
            )
            &&& with_text(variant, sized, Field::Height, height) == Ok::<
                DraftView,
                DecodeErrorView,
            >(DraftView { height: Some(extent_of(height)), ..sized })
        }),
{
}

/// Removing a file that was never stored is answered as any removal is,
/// with a status that says that nothing was deleted, not with an error; and
/// the registry stays as it was.
pub proof fn law_delete_absent_is_no_error(store: Store, id: Seq<char>)
    requires
        !holds(store, id),
    ensures
        removed(store, id) == store,
        delete_view(store, id) == json_or_failure(
            json_of_deletion(id, "file"@, false),
            "Failed to serialize the status of the file deletion operation. "@,
        ),
        json_of_deletion(id, "file"@, false).is_ok() ==> delete_view(store, id).status == 200,
{
}

/// A file that is uploaded is found under its identifier; once it is
/// removed, the registry is as it was before, and asking for the file is
/// answered with the error that it is not found.
pub proof fn law_upload_then_delete(
    store: Store,
    id: Seq<char>,
    filename: Seq<char>,
    content: Seq<u8>,
    now: u64,
)
    requires
        !holds(store, id),
    ensures
        ({
            let entry = new_entry(id, filename, content, now);
            let uploaded = added(store, entry);
            let deleted = removed(uploaded, id);
            &&& metadata_view(uploaded, id) == json_or_failure(
                json_of_file(entry.meta),
                "Failed to serialize file object. "@,
            )
            &&& delete_view(uploaded, id) == json_or_failure(
                json_of_deletion(id, "file"@, true),
                "Failed to serialize the status of the file deletion operation. "@,
            )
            &&& deleted == store
            &&& metadata_view(deleted, id) == error_view(
                failure(file_error_text(FileErrorView::NotFound { id })),
            )
            &&& metadata_view(deleted, id).status == 500
        }),
{
    let entry = new_entry(id, filename, content, now);
    lemma_added_position(store, entry);
    assert(added(store, entry).remove(store.len() as int) =~= store);
}

} // verus!
