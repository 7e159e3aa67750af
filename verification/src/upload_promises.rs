//! What can be relied on when a file is uploaded part by part.
use vstd::prelude::*;

use crate::error::{refusal, Refusal, CONFLICT, NOT_FOUND};
use crate::message::MessageDto;
use crate::parts::{every_byte_in_a_part, full_count_means_no_gap, no_overlap, overlaps};
use crate::parts::{total_bytes, well_placed_total, with_part, with_part_adds, Part};
use crate::parts::UploadedPart;
use crate::store::{write_at, Store};
use crate::text::decimal_int;
use crate::upload_cancel::UploadCancelResponse;
use crate::upload_chunk::{ChunkResponse, SentChunk};
use crate::upload_complete::parts_refusal;
use crate::upload_init::{continues, init_refusal, init_response, temp_name, InitRequest};
use crate::upload_laws::{cancel_effect, chunk_effect, chunk_keeps_uploads_sound, chunk_ok};
use crate::upload_laws::{complete_effect, holds, init_effect, session_sound, temp_paths_differ};
use crate::upload_laws::{upload_with_key, uploads_sound, with_upload, without_upload};
use crate::upload_laws::{count_right, is_new, with_recount, write_at_range};

verus! {

/// Dropping an upload leaves the others in order.
proof fn without_upload_sound(store: Store, upload_id: Seq<char>)
    requires
        uploads_sound(store),
        store.sessions.contains_key(upload_id),
    ensures
        uploads_sound(without_upload(store, upload_id)),
{
    let after = without_upload(store, upload_id);
    assert(session_sound(store, upload_id));
    assert forall|id: Seq<char>| #[trigger] after.sessions.contains_key(id) implies session_sound(
        after,
        id,
    ) by {
        assert(store.sessions.contains_key(id));
        assert(session_sound(store, id));
        if store.sessions[id].row.temp_path == store.sessions[upload_id].row.temp_path {
            temp_paths_differ(store.temp_dir, id, upload_id);
        }
        assert(after.parts_of(id) == store.parts_of(id));
    }
    assert forall|a: Seq<char>, b: Seq<char>, key: Seq<char>| #[trigger]
        after.has_key(a, key) && #[trigger] after.has_key(b, key) implies a == b by {
        assert(store.has_key(a, key));
        assert(store.has_key(b, key));
    }
}

/// A new upload with a file key of its own is in order, and so are the others.
pub proof fn with_upload_sound(store: Store, request: InitRequest, token: Seq<char>)
    requires
        uploads_sound(store),
        is_new(store, token),
        request.file_size > 0,
        forall|id: Seq<char>| !#[trigger] store.has_key(id, request.file_key),
    ensures
        uploads_sound(with_upload(store, request, token)),
{
    let after = with_upload(store, request, token);
    assert forall|id: Seq<char>| #[trigger] after.sessions.contains_key(id) implies session_sound(
        after,
        id,
    ) by {
        if id == token {
            assert(!store.parts.contains_key(token));
            assert(after.parts_of(id) =~= Seq::<Part>::empty());
        } else {
            assert(store.sessions.contains_key(id));
            assert(session_sound(store, id));
            if store.sessions[id].row.temp_path == store.temp_dir + temp_name(token) {
                temp_paths_differ(store.temp_dir, id, token);
            }
            assert(after.parts_of(id) == store.parts_of(id));
        }
    }
    assert forall|a: Seq<char>, b: Seq<char>, key: Seq<char>| #[trigger]
        after.has_key(a, key) && #[trigger] after.has_key(b, key) implies a == b by {
        if a != token {
            assert(store.has_key(a, key));
        }
        if b != token {
            assert(store.has_key(b, key));
        }
    }
}

/// Counting the received bytes of an upload anew leaves every upload in order,
/// and the count is right then.
pub proof fn recount_sound(store: Store, upload_id: Seq<char>)
    requires
        uploads_sound(store),
        store.sessions.contains_key(upload_id),
    ensures
        uploads_sound(with_recount(store, upload_id)),
        count_right(with_recount(store, upload_id), upload_id),
        forall|id: Seq<char>, file: Seq<u8>| #[trigger]
            carries(store, id, file) ==> carries(with_recount(store, upload_id), id, file),
{
    let after = with_recount(store, upload_id);
    assert(session_sound(store, upload_id));
    well_placed_total(store.parts_of(upload_id), store.sessions[upload_id].row.file_size);
    assert forall|id: Seq<char>| #[trigger] after.parts_of(id) == store.parts_of(id) by {}
    assert forall|id: Seq<char>| #[trigger] after.sessions.contains_key(id) implies session_sound(
        after,
        id,
    ) by {
        assert(session_sound(store, id));
    }
    assert forall|a: Seq<char>, b: Seq<char>, key: Seq<char>| #[trigger]
        after.has_key(a, key) && #[trigger] after.has_key(b, key) implies a == b by {
        assert(store.has_key(a, key));
        assert(store.has_key(b, key));
    }
}

proof fn none_has_key(store: Store, key: Seq<char>)
    requires
        uploads_sound(store),
    ensures
        ({
            let id = upload_with_key(store, key);
            store.has_key(id, key) ==> forall|other: Seq<char>|
                !#[trigger] without_upload(store, id).has_key(other, key)
        }),
{
    let id = upload_with_key(store, key);
    let after = without_upload(store, id);
    if store.has_key(id, key) {
        assert forall|other: Seq<char>| !#[trigger] after.has_key(other, key) by {
            if after.has_key(other, key) {
                assert(store.has_key(other, key));
            }
        }
    }
}

/// Whatever upload is begun, every upload stays in order.
pub proof fn init_keeps_uploads_sound(store: Store, request: InitRequest, token: Seq<char>)
    requires
        uploads_sound(store),
        is_new(store, token),
    ensures
        uploads_sound(init_effect(store, request, token).0),
{
    let key = request.file_key;
    if init_refusal(request) is None {
        if exists|id: Seq<char>| #[trigger] store.has_key(id, key) {
            let id = upload_with_key(store, key);
            assert(store.has_key(id, key));
            if continues(request, store.sessions[id].row) {
                recount_sound(store, id);
            } else {
                without_upload_sound(store, id);
                none_has_key(store, key);
                with_upload_sound(without_upload(store, id), request, token);
            }
        } else {
            with_upload_sound(store, request, token);
        }
    }
}

/// Whatever upload is completed, every upload stays in order.
pub proof fn complete_keeps_uploads_sound(
    store: Store,
    upload_id: Seq<char>,
    file_id: Seq<char>,
    now: Seq<char>,
)
    requires
        uploads_sound(store),
    ensures
        uploads_sound(complete_effect(store, upload_id, file_id, now).0),
{
    let (after, answer) = complete_effect(store, upload_id, file_id, now);
    if answer is Ok {
        let dropped = without_upload(store, upload_id);
        without_upload_sound(store, upload_id);
        assert forall|id: Seq<char>| #[trigger] after.sessions.contains_key(id) implies session_sound(
            after,
            id,
        ) by {
            assert(dropped.sessions.contains_key(id));
            assert(session_sound(dropped, id));
            assert(after.parts_of(id) == dropped.parts_of(id));
        }
        assert forall|a: Seq<char>, b: Seq<char>, key: Seq<char>| #[trigger]
            after.has_key(a, key) && #[trigger] after.has_key(b, key) implies a == b by {
            assert(dropped.has_key(a, key));
            assert(dropped.has_key(b, key));
        }
    }
}

/// Whatever upload is given up, every upload stays in order.
pub proof fn cancel_keeps_uploads_sound(store: Store, upload_id: Seq<char>)
    requires
        uploads_sound(store),
    ensures
        uploads_sound(cancel_effect(store, upload_id).0),
{
    if store.sessions.contains_key(upload_id) {
        without_upload_sound(store, upload_id);
    }
}

/// Beginning an upload again gives the upload that is there: the same name, every
/// part that was received. The count of the received bytes is right then, and the
/// upload carries the file that it carried.
pub proof fn upload_is_taken_up_again(
    store: Store,
    request: InitRequest,
    upload_id: Seq<char>,
    token: Seq<char>,
)
    requires
        uploads_sound(store),
        init_refusal(request) is None,
        store.has_key(upload_id, request.file_key),
        continues(request, store.sessions[upload_id].row),
    ensures
        count_right(with_recount(store, upload_id), upload_id),
        forall|file: Seq<u8>| #[trigger]
            carries(store, upload_id, file) ==> carries(
                with_recount(store, upload_id),
                upload_id,
                file,
            ),
        init_effect(store, request, token) == (
            with_recount(store, upload_id),
            Ok::<_, Refusal>(
                init_response(
                    request.file_size,
                    upload_id,
                    store.parts_of(upload_id),
                    total_bytes(store.parts_of(upload_id)) as i64,
                ),
            ),
        ),
{
    let id = upload_with_key(store, request.file_key);
    assert(store.has_key(id, request.file_key));
    assert(session_sound(store, id));
    well_placed_total(store.parts_of(id), request.file_size);
    recount_sound(store, id);
}

/// Beginning the same upload twice gives the same answer twice.
pub proof fn beginning_twice_is_beginning_once(
    store: Store,
    request: InitRequest,
    first: Seq<char>,
    second: Seq<char>,
)
    requires
        uploads_sound(store),
        is_new(store, first),
        init_effect(store, request, first).1 is Ok,
    ensures
        init_effect(init_effect(store, request, first).0, request, second) == init_effect(
            store,
            request,
            first,
        ),
{
    let (after, answer) = init_effect(store, request, first);
    let key = request.file_key;
    init_keeps_uploads_sound(store, request, first);
    let old = upload_with_key(store, key);
    if exists|id: Seq<char>| #[trigger] store.has_key(id, key) {
        assert(store.has_key(old, key));
    }
    if store.has_key(old, key) && continues(request, store.sessions[old].row) {
        assert(after.has_key(old, key));
        assert(after.parts_of(old) == store.parts_of(old));
        upload_is_taken_up_again(store, request, old, first);
        upload_is_taken_up_again(after, request, old, second);
        assert(with_recount(after, old).sessions =~= after.sessions);
    } else {
        assert(after.has_key(first, key));
        upload_is_taken_up_again(after, request, first, second);
        assert(after.parts_of(first) =~= Seq::<Part>::empty());
        assert(with_recount(after, first).sessions =~= after.sessions);
    }
}

/// An upload whose count is right can be completed exactly when every byte was
/// received; until then the answer tells how far it has come.
pub proof fn completes_when_everything_is_there(
    store: Store,
    upload_id: Seq<char>,
    file_id: Seq<char>,
    now: Seq<char>,
)
    requires
        uploads_sound(store),
        store.sessions.contains_key(upload_id),
        store.temps.contains_key(store.sessions[upload_id].row.temp_path),
        count_right(store, upload_id),
    ensures
        ({
            let size = store.sessions[upload_id].row.file_size;
            let total = total_bytes(store.parts_of(upload_id));
            let answer = complete_effect(store, upload_id, file_id, now).1;
            &&& total <= size
            &&& answer is Ok <==> total == size
            &&& total < size ==> answer == Err::<MessageDto<Seq<char>>, _>(
                refusal(
                    CONFLICT,
                    "文件尚未上传完成，已上传 "@ + decimal_int(total) + "/"@ + decimal_int(
                        size as int,
                    ),
                ),
            )
        }),
{
    assert(session_sound(store, upload_id));
    let row = store.sessions[upload_id].row;
    let parts = store.parts_of(upload_id);
    well_placed_total(parts, row.file_size);
    full_count_means_no_gap(parts, row.file_size);
}

/// A part that is taken in leaves the count of its upload right, and every other
/// count as it was.
pub proof fn chunk_keeps_counts(store: Store, chunk: SentChunk, upload_id: Seq<char>)
    requires
        uploads_sound(store),
        chunk_ok(chunk),
        store.sessions.contains_key(upload_id),
    ensures
        ({
            let after = chunk_effect(store, chunk).0;
            &&& count_right(store, upload_id) ==> count_right(after, upload_id)
            &&& after != store && upload_id == chunk.upload_id ==> count_right(after, upload_id)
        }),
{
    let after = chunk_effect(store, chunk).0;
    if after != store {
        chunk_keeps_uploads_sound(store, chunk);
        assert(after.sessions.contains_key(upload_id));
        assert(session_sound(after, upload_id));
        let row = after.sessions[upload_id].row;
        well_placed_total(after.parts_of(upload_id), row.file_size);
        assert(upload_id != chunk.upload_id ==> after.parts_of(upload_id) == store.parts_of(
            upload_id,
        ));
    }
}

/// A part that is answered with `done` is the last that was missing: the upload
/// can be completed, where its count was right before.
pub proof fn done_means_that_it_can_be_completed(
    store: Store,
    chunk: SentChunk,
    file_id: Seq<char>,
    now: Seq<char>,
)
    requires
        uploads_sound(store),
        chunk_ok(chunk),
        store.temps.contains_key(store.sessions[chunk.upload_id].row.temp_path),
        count_right(store, chunk.upload_id),
        chunk_effect(store, chunk).1 is Ok,
    ensures
        chunk_effect(store, chunk).1->Ok_0.done <==> complete_effect(
            chunk_effect(store, chunk).0,
            chunk.upload_id,
            file_id,
            now,
        ).1 is Ok,
{
    let (after, answer) = chunk_effect(store, chunk);
    let id = chunk.upload_id;
    chunk_keeps_uploads_sound(store, chunk);
    assert(session_sound(store, id));
    assert(session_sound(after, id));
    let part = UploadedPart {
        start_byte: chunk.start_byte,
        end_byte: chunk.end_byte,
        checksum: chunk.checksum,
    };
    with_part_adds(store.parts_of(id), part);
    well_placed_total(store.parts_of(id), store.sessions[id].row.file_size);
    chunk_keeps_counts(store, chunk, id);
    completes_when_everything_is_there(after, id, file_id, now);
}

/// Nothing of the upload is there: its parts are refused, it cannot be
/// completed, and there is nothing to give up.
pub open spec fn is_gone(store: Store, upload_id: Seq<char>) -> bool {
    let refused = refusal(NOT_FOUND, "上传会话不存在"@);
    &&& store.parts_of(upload_id).len() == 0
    &&& forall|chunk: SentChunk|
        chunk.upload_id == upload_id ==> (#[trigger] chunk_effect(store, chunk)) == (
            store,
            Err::<ChunkResponse, Refusal>(refused),
        )
    &&& forall|file_id: Seq<char>, now: Seq<char>|
        (#[trigger] complete_effect(store, upload_id, file_id, now)) == (
            store,
            Err::<MessageDto<Seq<char>>, Refusal>(refused),
        )
    &&& cancel_effect(store, upload_id) == (
        store,
        Ok::<UploadCancelResponse, Refusal>(UploadCancelResponse { cancelled: false }),
    )
}

/// After an upload was given up nothing of it is left, nor of its temporary
/// file.
pub proof fn cancelled_upload_is_gone(store: Store, upload_id: Seq<char>)
    requires
        uploads_sound(store),
        store.sessions.contains_key(upload_id),
    ensures
        cancel_effect(store, upload_id).1 == Ok::<UploadCancelResponse, Refusal>(
            UploadCancelResponse { cancelled: true },
        ),
        is_gone(cancel_effect(store, upload_id).0, upload_id),
        !cancel_effect(store, upload_id).0.temps.contains_key(
            store.sessions[upload_id].row.temp_path,
        ),
{
}

/// After an upload was completed nothing of it is left, nor of its temporary
/// file.
pub proof fn completed_upload_is_gone(
    store: Store,
    upload_id: Seq<char>,
    file_id: Seq<char>,
    now: Seq<char>,
)
    requires
        uploads_sound(store),
        complete_effect(store, upload_id, file_id, now).1 is Ok,
    ensures
        is_gone(complete_effect(store, upload_id, file_id, now).0, upload_id),
        !complete_effect(store, upload_id, file_id, now).0.temps.contains_key(
            store.sessions[upload_id].row.temp_path,
        ),
{
}

/// What is in the temporary file of the upload, where parts were received, is
/// what is in `file`.
pub open spec fn carries(store: Store, upload_id: Seq<char>, file: Seq<u8>) -> bool {
    let row = store.sessions[upload_id].row;
    let parts = store.parts_of(upload_id);
    &&& store.sessions.contains_key(upload_id)
    &&& store.temps.contains_key(row.temp_path)
    &&& row.file_size == file.len()
    &&& forall|i: int|
        0 <= i < parts.len() ==> store.temps[row.temp_path].subrange(
            (#[trigger] parts[i]).start_byte as int,
            parts[i].end_byte as int,
        ) == file.subrange(parts[i].start_byte as int, parts[i].end_byte as int)
}

/// An upload that was just begun carries nothing that speaks against the file.
pub proof fn new_upload_carries(
    store: Store,
    request: InitRequest,
    token: Seq<char>,
    file: Seq<u8>,
)
    requires
        uploads_sound(store),
        is_new(store, token),
        init_refusal(request) is None,
        forall|id: Seq<char>| #[trigger]
            store.has_key(id, request.file_key) ==> !continues(request, store.sessions[id].row),
        request.file_size == file.len(),
    ensures
        carries(init_effect(store, request, token).0, token, file),
{
    let after = init_effect(store, request, token).0;
    assert(!store.parts.contains_key(token));
    if exists|id: Seq<char>| #[trigger] store.has_key(id, request.file_key) {
        assert(store.has_key(upload_with_key(store, request.file_key), request.file_key));
    }
    assert(after.parts_of(token) =~= Seq::<Part>::empty());
}

/// Sending bytes of the file, from the place where they stand in it, in any
/// order, leaves the upload carrying the file.
pub proof fn chunk_of_file_carries(store: Store, chunk: SentChunk, file: Seq<u8>)
    requires
        uploads_sound(store),
        chunk_ok(chunk),
        carries(store, chunk.upload_id, file),
        chunk.end_byte <= file.len() ==> chunk.data == file.subrange(
            chunk.start_byte as int,
            chunk.end_byte as int,
        ),
    ensures
        carries(chunk_effect(store, chunk).0, chunk.upload_id, file),
{
    let after = chunk_effect(store, chunk).0;
    let id = chunk.upload_id;
    if after != store {
        let row = store.sessions[id].row;
        let parts = store.parts_of(id);
        let part = UploadedPart {
            start_byte: chunk.start_byte,
            end_byte: chunk.end_byte,
            checksum: chunk.checksum,
        };
        let content = store.temps[row.temp_path];
        assert(session_sound(store, id));
        with_part_adds(parts, part);
        no_overlap(parts, chunk.start_byte, chunk.end_byte);
        let all = after.parts_of(id);
        assert(all == with_part(parts, part));
        let written = write_at(content, chunk.start_byte as int, chunk.data);
        assert(after.temps[row.temp_path] == written);
        assert forall|i: int| 0 <= i < all.len() implies written.subrange(
            (#[trigger] all[i]).start_byte as int,
            all[i].end_byte as int,
        ) == file.subrange(all[i].start_byte as int, all[i].end_byte as int) by {
            let p = all[i];
            assert(all.contains(p));
            if p != part {
                let k = choose|k: int| 0 <= k < parts.len() && parts[k] == p;
                assert(holds(content, parts[k]));
                assert(!overlaps(parts[k], chunk.start_byte, chunk.end_byte));
                write_at_range(
                    content,
                    chunk.start_byte as int,
                    chunk.data,
                    p.start_byte as int,
                    p.end_byte as int,
                );
            } else {
                write_at_range(content, chunk.start_byte as int, chunk.data, 0, 0);
            }
        }
    }
}

/// The file that is made of an upload is, byte for byte, the file whose bytes
/// were sent.
pub proof fn completed_file_is_what_was_sent(
    store: Store,
    upload_id: Seq<char>,
    file_id: Seq<char>,
    now: Seq<char>,
    file: Seq<u8>,
)
    requires
        uploads_sound(store),
        carries(store, upload_id, file),
        complete_effect(store, upload_id, file_id, now).1 is Ok,
    ensures
        complete_effect(store, upload_id, file_id, now).0.files[file_id] == file,
{
    let row = store.sessions[upload_id].row;
    let parts = store.parts_of(upload_id);
    let content = store.temps[row.temp_path];
    assert(session_sound(store, upload_id));
    assert(parts_refusal(parts, row.file_size) is None);
    assert(parts.len() > 0);
    assert(holds(content, parts[parts.len() - 1]));
    assert(content.len() == file.len());
    assert forall|b: int| 0 <= b < file.len() implies content[b] == file[b] by {
        every_byte_in_a_part(parts, b);
        let i = choose|i: int|
            0 <= i < parts.len() && (#[trigger] parts[i]).start_byte <= b < parts[i].end_byte;
        let from = parts[i].start_byte as int;
        let to = parts[i].end_byte as int;
        assert(holds(content, parts[i]));
        assert(content.subrange(from, to)[b - from] == content[b]);
        assert(file.subrange(from, to)[b - from] == file[b]);
    }
    assert(content =~= file);
}

} // verus!
