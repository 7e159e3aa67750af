//! What each request of an upload changes, and what it is answered, told from
//! what was stored and what was sent.
use vstd::prelude::*;

use crate::error::Refusal;
use crate::headers::Headers;
use crate::parts::{contiguous, expected_start, fits_i64, full_count_means_no_gap, no_overlap};
use crate::parts::{overlap_count, overlaps, total_bytes, well_placed, well_placed_total};
use crate::parts::{total_fits, with_part, with_part_adds, with_part_well_placed, Part};
use crate::parts::UploadedPart;
use crate::request_laws::any_named_file_can_be_uploaded;
use crate::shown_laws::{rows_are_shown_as_they_are, shows};
use crate::stamp::checksum;
use crate::step::{refuses_with, Step};
use crate::store::{find_file, find_part, Store};
use crate::text::decimal_int;
use crate::text_laws::blank;
use crate::upload::{Event, SessionRow, UploadAction};
use crate::upload_chunk::{chunk_accepts, chunk_next, end_fits, sent_chunk, Chunk, ChunkResponse};
use crate::upload_chunk::SentChunk;
use crate::upload_complete::{parts_refusal, session_refusal};
use crate::upload_init::{continues, init_accepts, init_next, Init, InitRequest};
use crate::upload_laws::{cancel_runs, chunk_runs, complete_runs, found_part, init_runs, is_new};
use crate::upload_laws::{room_means_temp_file, run_cancel, run_chunk, run_complete, run_init};
use crate::upload_laws::sent_chunk_ok;
use crate::upload_laws::{session_sound, upload_with_key, uploads_sound, write_at_range};

verus! {

/// The bytes of some parts are counted by adding up their lengths.
pub proof fn bytes_are_added_up(a: Seq<Part>, b: Seq<Part>, part: Part)
    ensures
        total_bytes(seq![]) == 0,
        total_bytes(seq![part]) == part.end_byte - part.start_byte,
        total_bytes(a + b) == total_bytes(a) + total_bytes(b),
    decreases b.len(),
{
    assert(seq![part].drop_last() =~= seq![]);
    assert(total_bytes(seq![part].drop_last()) == 0);
    if b.len() == 0 {
        assert(a + b =~= a);
    } else {
        assert((a + b).drop_last() =~= a + b.drop_last());
        bytes_are_added_up(a, b.drop_last(), part);
    }
}

/// Parts of which none ends before it begins can be counted exactly if the number
/// of their bytes is an `i64`.
pub proof fn bytes_that_can_be_counted(parts: Seq<Part>)
    requires
        forall|i: int|
            0 <= i < parts.len() ==> 0 <= (#[trigger] parts[i]).start_byte <= parts[i].end_byte,
    ensures
        total_bytes(parts) >= 0,
        total_fits(parts) <==> total_bytes(parts) <= i64::MAX,
    decreases parts.len(),
{
    if parts.len() > 0 {
        let head = parts.drop_last();
        bytes_that_can_be_counted(head);
        assert(parts[parts.len() - 1] == parts.last());
        if total_bytes(parts) <= i64::MAX {
            assert forall|k: int| 0 <= k <= parts.len() implies fits_i64(
                total_bytes(#[trigger] parts.take(k)),
            ) by {
                if k < parts.len() {
                    assert(parts.take(k) =~= head.take(k));
                } else {
                    assert(parts.take(k) =~= parts);
                }
            }
        }
        if total_fits(parts) {
            assert(parts.take(parts.len() as int) =~= parts);
        }
    } else {
        assert forall|k: int| 0 <= k <= parts.len() implies fits_i64(
            total_bytes(#[trigger] parts.take(k)),
        ) by {
            assert(parts.take(k) =~= parts);
        }
    }
}

/// The refusal with that status and that message.
pub open spec fn refused(status: u16, message: Seq<char>) -> Refusal {
    Refusal { status, message }
}

/// Nothing but uploads, their parts and their temporary files differs.
pub open spec fn only_uploads_differ(before: Store, after: Store) -> bool {
    &&& after.temp_dir == before.temp_dir
    &&& after.messages == before.messages
    &&& after.last_id == before.last_id
    &&& after.ui == before.ui
    &&& after.progress == before.progress
    &&& after.files == before.files
}

/// The request to begin an upload says what is needed.
pub open spec fn is_complete(request: InitRequest) -> bool {
    !blank(request.file_key) && !blank(request.file_name) && request.file_size > 0
}

/// The upload is for the file that the request tells of, and nothing of it was
/// received yet.
pub open spec fn is_fresh(store: Store, upload_id: Seq<char>, request: InitRequest) -> bool {
    let session = store.sessions[upload_id];
    &&& store.sessions.contains_key(upload_id)
    &&& session.file_key == request.file_key
    &&& session.row.upload_id == upload_id
    &&& session.row.file_name == request.file_name
    &&& session.row.file_size == request.file_size
    &&& session.row.mime_type == request.mime_type
    &&& session.row.received_bytes == 0
    &&& session.row.status == "uploading"@
    &&& session.row.temp_path == store.temp_dir + upload_id + ".part"@
    &&& store.temps.contains_key(session.row.temp_path)
    &&& store.temps[session.row.temp_path].len() == 0
}

/// A file of any size, name and type whose key no upload has begins a new upload,
/// which holds all that the client told of the file. Nothing else changes.
pub proof fn new_file_begins_an_upload(
    store: Store,
    request: InitRequest,
    token: Seq<char>,
    now: Seq<char>,
)
    requires
        uploads_sound(store),
        is_new(store, token),
        is_complete(request),
        forall|id: Seq<char>| !#[trigger] store.has_key(id, request.file_key),
    ensures
        ({
            let (after, end) = run_init(store, request, token, now);
            &&& end matches Step::Reply(answer) && {
                &&& answer.upload_id == token
                &&& answer.chunk_size == 4 * 1024 * 1024
                &&& answer.parallel_limit == 4
                &&& answer.received_bytes == 0
                &&& answer.total_bytes == request.file_size
                &&& answer.completed_parts.len() == 0
                &&& !answer.done
            }
            &&& is_fresh(after, token, request)
            &&& after.sessions == store.sessions.insert(token, after.sessions[token])
            &&& after.parts == store.parts
            &&& after.temps == store.temps.insert(
                after.sessions[token].row.temp_path,
                Seq::empty(),
            )
            &&& only_uploads_differ(store, after)
        }),
{
    any_named_file_can_be_uploaded(request);
    init_runs(store, request, token, now);
    assert(store.temp_dir + (token + ".part"@) =~= store.temp_dir + token + ".part"@);
}

/// A file whose upload was broken off is taken up again, where the name and the
/// size are the same: the answer names the upload, every part that is there and
/// how many bytes they hold. Only the count of these bytes is stored anew.
pub proof fn same_file_goes_on(
    store: Store,
    request: InitRequest,
    id: Seq<char>,
    token: Seq<char>,
    now: Seq<char>,
)
    requires
        uploads_sound(store),
        is_new(store, token),
        is_complete(request),
        store.has_key(id, request.file_key),
        store.sessions[id].row.file_name == request.file_name,
        store.sessions[id].row.file_size == request.file_size,
    ensures
        ({
            let (after, end) = run_init(store, request, token, now);
            let received = total_bytes(store.parts_of(id));
            &&& end matches Step::Reply(answer) && {
                &&& answer.upload_id == id
                &&& answer.chunk_size == 4 * 1024 * 1024
                &&& answer.parallel_limit == 4
                &&& answer.received_bytes == received
                &&& answer.total_bytes == request.file_size
                &&& answer.completed_parts == store.parts_of(id)
                &&& answer.done <==> received == request.file_size
            }
            &&& after.sessions.dom() == store.sessions.dom()
            &&& forall|other: Seq<char>| #[trigger]
                store.sessions.contains_key(other) && other != id ==> after.sessions[other]
                    == store.sessions[other]
            &&& after.sessions[id].file_key == store.sessions[id].file_key
            &&& after.sessions[id].row == SessionRow {
                received_bytes: received as i64,
                ..store.sessions[id].row
            }
            &&& after.parts == store.parts
            &&& after.temps == store.temps
            &&& only_uploads_differ(store, after)
        }),
{
    any_named_file_can_be_uploaded(request);
    init_runs(store, request, token, now);
    let found = upload_with_key(store, request.file_key);
    assert(store.has_key(found, request.file_key));
    assert(found == id);
    assert(session_sound(store, id));
    well_placed_total(store.parts_of(id), request.file_size);
    let after = run_init(store, request, token, now).0;
    assert(after.sessions.dom() =~= store.sessions.dom());
}

/// A file of another name or size under the key of an upload takes its place: the
/// upload, its parts and its temporary file are gone, and a new one is begun.
pub proof fn another_file_takes_the_place(
    store: Store,
    request: InitRequest,
    id: Seq<char>,
    token: Seq<char>,
    now: Seq<char>,
)
    requires
        uploads_sound(store),
        is_new(store, token),
        is_complete(request),
        store.has_key(id, request.file_key),
        store.sessions[id].row.file_name != request.file_name
            || store.sessions[id].row.file_size != request.file_size,
    ensures
        ({
            let (after, end) = run_init(store, request, token, now);
            &&& end matches Step::Reply(answer) && {
                &&& answer.upload_id == token
                &&& answer.chunk_size == 4 * 1024 * 1024
                &&& answer.parallel_limit == 4
                &&& answer.received_bytes == 0
                &&& answer.total_bytes == request.file_size
                &&& answer.completed_parts.len() == 0
                &&& !answer.done
            }
            &&& is_fresh(after, token, request)
            &&& after.sessions == store.sessions.remove(id).insert(token, after.sessions[token])
            &&& after.parts == store.parts.remove(id)
            &&& after.temps == store.temps.remove(store.sessions[id].row.temp_path).insert(
                after.sessions[token].row.temp_path,
                Seq::empty(),
            )
            &&& only_uploads_differ(store, after)
        }),
{
    any_named_file_can_be_uploaded(request);
    init_runs(store, request, token, now);
    let found = upload_with_key(store, request.file_key);
    assert(store.has_key(found, request.file_key));
    assert(found == id);
    assert(!continues(request, store.sessions[id].row));
    assert(store.temp_dir + (token + ".part"@) =~= store.temp_dir + token + ".part"@);
}

/// A request that does not say what is needed changes nothing.
pub proof fn incomplete_request_changes_nothing(
    store: Store,
    request: InitRequest,
    token: Seq<char>,
    now: Seq<char>,
)
    requires
        !is_complete(request),
    ensures
        run_init(store, request, token, now).0 == store,
        run_init(store, request, token, now).1 matches Step::Refuse(refused) && refused.status
            == 400,
{
    any_named_file_can_be_uploaded(request);
}

/// Whatever the parts are that are read back, an upload that is taken up again is
/// answered with all of them and with their bytes, but never with more bytes than
/// the file has.
pub proof fn no_more_is_counted_than_the_file_has(
    request: InitRequest,
    upload_id: Seq<char>,
    parts: Seq<Part>,
    now: Seq<char>,
)
    requires
        total_fits(parts),
    ensures
        init_accepts(Init::Loading { request, upload_id }, Event::Parts(parts)),
        init_next(
            Init::Loading { request, upload_id },
            Event::Parts(parts),
            now,
        ) matches Step::Ask(state, UploadAction::SetReceived { upload_id: id, received_bytes, at })
            && id == upload_id && at == now && received_bytes <= request.file_size && (
        received_bytes == total_bytes(parts) || total_bytes(parts) >= received_bytes
            && received_bytes == request.file_size) && (init_next(
            state,
            Event::Done,
            now,
        ) matches Step::Reply(answer) && answer.upload_id == upload_id && answer.received_bytes
            == received_bytes && answer.total_bytes == request.file_size && answer.completed_parts
            == parts && (answer.done <==> received_bytes >= request.file_size)),
{
    assert(parts.take(parts.len() as int) =~= parts);
    assert(fits_i64(total_bytes(parts.take(parts.len() as int))));
}

/// Whatever the parts are that are read back, the answer to a part counts their
/// bytes.
pub proof fn the_answer_counts_the_parts(
    upload_id: Seq<char>,
    file_size: i64,
    parts: Seq<Part>,
    now: Seq<char>,
)
    requires
        total_fits(parts),
    ensures
        chunk_accepts(Chunk::Recounting { upload_id, file_size }, Event::Parts(parts)),
        chunk_accepts(Chunk::Loading { upload_id, file_size }, Event::Parts(parts)),
        chunk_next(
            Chunk::Recounting { upload_id, file_size },
            Event::Parts(parts),
            now,
        ) matches Step::Reply(answer) && answer.upload_id == upload_id && answer.received_bytes
            == total_bytes(parts) && answer.total_bytes == file_size && (answer.done
            <==> total_bytes(parts) >= file_size),
        chunk_next(
            Chunk::Loading { upload_id, file_size },
            Event::Parts(parts),
            now,
        ) matches Step::Ask(state, UploadAction::SetReceived { upload_id: id, received_bytes, at })
            && id == upload_id && at == now && received_bytes == total_bytes(parts) && (chunk_next(
            state,
            Event::Done,
            now,
        ) matches Step::Reply(answer) && answer.upload_id == upload_id && answer.received_bytes
            == total_bytes(parts) && answer.total_bytes == file_size && (answer.done
            <==> total_bytes(parts) >= file_size)),
{
    assert(parts.take(parts.len() as int) =~= parts);
    assert(fits_i64(total_bytes(parts.take(parts.len() as int))));
}

/// One of the parts begins at that byte.
pub open spec fn begins_at(parts: Seq<Part>, start_byte: int) -> bool {
    exists|i: int| 0 <= i < parts.len() && (#[trigger] parts[i]).start_byte == start_byte
}

/// One of the parts has a byte of the range.
pub open spec fn touches(parts: Seq<Part>, start_byte: int, end_byte: int) -> bool {
    exists|i: int, at: int|
        0 <= i < parts.len() && start_byte <= at < end_byte && #[trigger] has_byte(parts[i], at)
}

/// The part holds the byte.
pub open spec fn has_byte(part: Part, at: int) -> bool {
    part.start_byte <= at < part.end_byte
}

/// The part that the request brings is there: with the same bytes, by their place
/// and their checksum.
pub open spec fn is_there(parts: Seq<Part>, chunk: SentChunk) -> bool {
    parts.contains(
        UploadedPart {
            start_byte: chunk.start_byte,
            end_byte: chunk.end_byte,
            checksum: chunk.checksum,
        },
    )
}

/// The answer tells how many of the bytes of the file were received.
pub open spec fn counts<M, A>(
    end: Step<M, A, ChunkResponse, Refusal>,
    upload_id: Seq<char>,
    received: int,
    file_size: int,
) -> bool {
    end matches Step::Reply(answer) && {
        &&& answer.upload_id == upload_id
        &&& answer.received_bytes == received
        &&& answer.total_bytes == file_size
        &&& answer.done <==> received == file_size
    }
}

proof fn touched_parts(parts: Seq<Part>, start_byte: i64, end_byte: i64, file_size: int)
    requires
        start_byte < end_byte,
        well_placed(parts, file_size),
    ensures
        overlap_count(parts, start_byte, end_byte) > 0 <==> touches(
            parts,
            start_byte as int,
            end_byte as int,
        ),
        find_part(parts, start_byte) is Some <==> begins_at(parts, start_byte as int),
        begins_at(parts, start_byte as int) ==> touches(parts, start_byte as int, end_byte as int),
{
    no_overlap(parts, start_byte, end_byte);
    found_part(parts, start_byte);
    if overlap_count(parts, start_byte, end_byte) > 0 {
        let i = choose|i: int|
            0 <= i < parts.len() && overlaps(#[trigger] parts[i], start_byte, end_byte);
        let at = if parts[i].start_byte < start_byte {
            start_byte as int
        } else {
            parts[i].start_byte as int
        };
        assert(has_byte(parts[i], at));
    }
    if touches(parts, start_byte as int, end_byte as int) {
        let (i, at) = choose|i: int, at: int|
            0 <= i < parts.len() && start_byte <= at < end_byte && #[trigger] has_byte(
                parts[i],
                at,
            );
        assert(overlaps(parts[i], start_byte, end_byte));
    }
    if begins_at(parts, start_byte as int) {
        let i = choose|i: int| 0 <= i < parts.len() && (#[trigger] parts[i]).start_byte
            == start_byte;
        assert(has_byte(parts[i], start_byte as int));
    }
    if let Some(part) = find_part(parts, start_byte) {
        let i = choose|i: int| 0 <= i < parts.len() && parts[i] == part;
        assert(parts[i].start_byte == start_byte);
    }
}

/// A part that is new, lies within the file, shares no byte with another and has
/// the right checksum is taken in: its bytes stand in the temporary file at its
/// place and all others as before, it is recorded beside the others, and the count
/// grows by its bytes. Nothing else changes.
pub proof fn new_part_is_taken_in(
    store: Store,
    headers: Headers,
    body: Seq<u8>,
    now: Seq<char>,
    chunk: SentChunk,
)
    requires
        uploads_sound(store),
        end_fits(headers, body.len() as int),
        sent_chunk(headers, body) == Ok::<SentChunk, Refusal>(chunk),
        store.sessions.contains_key(chunk.upload_id),
        chunk.end_byte <= store.sessions[chunk.upload_id].row.file_size,
        !touches(
            store.parts_of(chunk.upload_id),
            chunk.start_byte as int,
            chunk.end_byte as int,
        ),
        checksum(body) == chunk.checksum,
    ensures
        ({
            let (after, end) = run_chunk(store, headers, body, now);
            let id = chunk.upload_id;
            let session = store.sessions[id];
            let path = session.row.temp_path;
            let received = total_bytes(store.parts_of(id)) + body.len();
            let written = after.temps[path];
            &&& counts(end, id, received, session.row.file_size as int)
            &&& after.sessions[id].row == SessionRow {
                received_bytes: received as i64,
                ..session.row
            }
            &&& after.sessions[id].file_key == session.file_key
            &&& after.sessions == store.sessions.insert(id, after.sessions[id])
            &&& after.parts == store.parts.insert(id, after.parts_of(id))
            &&& is_there(after.parts_of(id), chunk)
            &&& forall|part: Part| #[trigger]
                after.parts_of(id).contains(part) <==> store.parts_of(id).contains(part) || part
                    == UploadedPart {
                    start_byte: chunk.start_byte,
                    end_byte: chunk.end_byte,
                    checksum: chunk.checksum,
                }
            &&& after.temps == store.temps.insert(path, written)
            &&& written.subrange(chunk.start_byte as int, chunk.end_byte as int) == body
            &&& forall|i: int|
                0 <= i < store.temps[path].len() && !(chunk.start_byte <= i < chunk.end_byte)
                    ==> #[trigger] written[i] == store.temps[path][i]
            &&& only_uploads_differ(store, after)
        }),
{
    chunk_runs(store, headers, body, now);
    sent_chunk_ok(headers, body);
    let id = chunk.upload_id;
    let parts = store.parts_of(id);
    let row = store.sessions[id].row;
    assert(session_sound(store, id));
    touched_parts(parts, chunk.start_byte, chunk.end_byte, row.file_size as int);
    let part = UploadedPart {
        start_byte: chunk.start_byte,
        end_byte: chunk.end_byte,
        checksum: chunk.checksum,
    };
    with_part_adds(parts, part);
    room_means_temp_file(store, id, chunk.start_byte, chunk.end_byte);
    no_overlap(parts, chunk.start_byte, chunk.end_byte);
    with_part_well_placed(parts, part, row.file_size as int);
    well_placed_total(with_part(parts, part), row.file_size);
    well_placed_total(parts, row.file_size);
    write_at_range(store.temps[row.temp_path], chunk.start_byte as int, body, 0, 0);
    let after = run_chunk(store, headers, body, now).0;
    assert(after.parts_of(id) == with_part(parts, part));
}

/// A part that is there already is counted again and not stored again: nothing
/// changes.
pub proof fn known_part_is_acknowledged(
    store: Store,
    headers: Headers,
    body: Seq<u8>,
    now: Seq<char>,
    chunk: SentChunk,
)
    requires
        uploads_sound(store),
        end_fits(headers, body.len() as int),
        sent_chunk(headers, body) == Ok::<SentChunk, Refusal>(chunk),
        store.sessions.contains_key(chunk.upload_id),
        is_there(store.parts_of(chunk.upload_id), chunk),
    ensures
        ({
            let (after, end) = run_chunk(store, headers, body, now);
            let id = chunk.upload_id;
            &&& after == store
            &&& counts(
                end,
                id,
                total_bytes(store.parts_of(id)),
                store.sessions[id].row.file_size as int,
            )
        }),
{
    chunk_runs(store, headers, body, now);
    sent_chunk_ok(headers, body);
    let id = chunk.upload_id;
    let parts = store.parts_of(id);
    let row = store.sessions[id].row;
    assert(session_sound(store, id));
    let part = UploadedPart {
        start_byte: chunk.start_byte,
        end_byte: chunk.end_byte,
        checksum: chunk.checksum,
    };
    let i = choose|i: int| 0 <= i < parts.len() && parts[i] == part;
    assert(parts[i].start_byte == chunk.start_byte);
    touched_parts(parts, chunk.start_byte, chunk.end_byte, row.file_size as int);
    found_part(parts, chunk.start_byte);
    let found = find_part(parts, chunk.start_byte)->0;
    let j = choose|j: int| 0 <= j < parts.len() && parts[j] == found;
    if i < j {
        assert(parts[i].end_byte <= parts[j].start_byte);
    }
    if j < i {
        assert(parts[j].end_byte <= parts[i].start_byte);
    }
    well_placed_total(parts, row.file_size);
}

/// Every other part is refused, and nothing changes. The refusal says whether the
/// upload is unknown, the part lies outside the file, it contradicts one that is
/// there, it shares bytes with another, or its checksum is wrong.
pub proof fn other_parts_are_refused(
    store: Store,
    headers: Headers,
    body: Seq<u8>,
    now: Seq<char>,
    chunk: SentChunk,
)
    requires
        uploads_sound(store),
        end_fits(headers, body.len() as int),
        sent_chunk(headers, body) == Ok::<SentChunk, Refusal>(chunk),
    ensures
        ({
            let (after, end) = run_chunk(store, headers, body, now);
            let id = chunk.upload_id;
            let parts = store.parts_of(id);
            let known = store.sessions.contains_key(id);
            let inside = chunk.end_byte <= store.sessions[id].row.file_size;
            let begun = begins_at(parts, chunk.start_byte as int);
            let touched = touches(parts, chunk.start_byte as int, chunk.end_byte as int);
            &&& !known ==> refuses_with(end, 404, "上传会话不存在"@)
            &&& known && !inside ==> refuses_with(end, 400, "分片超出文件总大小"@)
            &&& known && inside && begun && !is_there(parts, chunk) ==> refuses_with(
                end,
                409,
                "分片校验不匹配"@,
            )
            &&& known && inside && !begun && touched ==> refuses_with(
                end,
                409,
                "分片范围与已有数据重叠"@,
            )
            &&& known && inside && !touched && checksum(body) != chunk.checksum ==> refuses_with(
                end,
                400,
                "分片校验失败"@,
            )
            &&& end is Refuse ==> after == store
        }),
{
    chunk_runs(store, headers, body, now);
    sent_chunk_ok(headers, body);
    let id = chunk.upload_id;
    if store.sessions.contains_key(id) {
        let parts = store.parts_of(id);
        let row = store.sessions[id].row;
        assert(session_sound(store, id));
        touched_parts(parts, chunk.start_byte, chunk.end_byte, row.file_size as int);
        found_part(parts, chunk.start_byte);
        if let Some(part) = find_part(parts, chunk.start_byte) {
            if part.end_byte == chunk.end_byte && part.checksum == chunk.checksum {
                assert(part == UploadedPart {
                    start_byte: chunk.start_byte,
                    end_byte: chunk.end_byte,
                    checksum: chunk.checksum,
                });
            }
        }
    }
}

/// The parts follow on each other from the first byte to the last one.
pub open spec fn without_gap(parts: Seq<Part>, file_size: int) -> bool {
    &&& parts.len() > 0
    &&& parts[0].start_byte == 0
    &&& forall|i: int|
        0 < i < parts.len() ==> (#[trigger] parts[i]).start_byte == parts[i - 1].end_byte
    &&& parts.last().end_byte == file_size
}

/// Parts can be joined to a file that is not empty exactly if each begins where the
/// one before it ends, from the first byte of the file to the last.
pub proof fn parts_without_gap_are_joined(parts: Seq<Part>, file_size: i64)
    requires
        file_size > 0,
    ensures
        parts_refusal(parts, file_size) is None <==> without_gap(parts, file_size as int),
        parts_refusal(parts, file_size) matches Some(refused) ==> refused.status == 409 && (
        refused.message == "文件分片不完整，无法合并"@ || refused.message == "文件分片尚未完整上传"@),
        parts.len() > 0 && parts[0].start_byte != 0 ==> parts_refusal(parts, file_size) == Some(
            refused(409, "文件分片不完整，无法合并"@),
        ),
        forall|i: int|
            0 < i < parts.len() && (#[trigger] parts[i]).start_byte != parts[i - 1].end_byte
                ==> parts_refusal(parts, file_size) == Some(
                refused(409, "文件分片不完整，无法合并"@),
            ),
        parts.len() == 0 || without_gap(parts, parts.last().end_byte as int)
            && parts.last().end_byte != file_size ==> parts_refusal(parts, file_size) == Some(
            refused(409, "文件分片尚未完整上传"@),
        ),
{
    if parts.len() > 0 {
        assert(expected_start(parts, parts.len() as int) == parts.last().end_byte);
        if without_gap(parts, parts.last().end_byte as int) {
            assert forall|i: int| 0 <= i < parts.len() implies (#[trigger] parts[i]).start_byte
                == expected_start(parts, i) by {}
            assert(contiguous(parts));
        }
        if contiguous(parts) {
            assert(parts[0].start_byte == expected_start(parts, 0));
            assert forall|i: int| 0 < i < parts.len() implies (#[trigger] parts[i]).start_byte
                == parts[i - 1].end_byte by {
                assert(parts[i].start_byte == expected_start(parts, i));
            }
        }
    }
}

/// An upload can be completed once as many bytes as the file has are counted. If
/// fewer are, the refusal tells both numbers.
pub proof fn unfinished_uploads_are_refused(row: SessionRow<Seq<char>>)
    ensures
        session_refusal(row) is None <==> row.status == "uploading"@ && row.received_bytes
            >= row.file_size,
        row.status != "uploading"@ ==> session_refusal(row) == Some(
            refused(409, "上传会话不可完成"@),
        ),
        row.status == "uploading"@ && row.received_bytes < row.file_size ==> session_refusal(row)
            == Some(
            refused(
                409,
                "文件尚未上传完成，已上传 "@ + decimal_int(row.received_bytes as int) + "/"@
                    + decimal_int(row.file_size as int),
            ),
        ),
{
}

/// An upload whose bytes are all there, and counted, becomes a file: the message
/// is added last, with the name, the size and the type that the upload has, the
/// file holds the bytes of the temporary file, and the upload is gone. The answer
/// shows the message. Nothing else changes.
pub proof fn complete_upload_becomes_a_file(
    store: Store,
    upload_id: Seq<char>,
    file_id: Seq<char>,
    now: Seq<char>,
)
    requires
        uploads_sound(store),
        store.has_room(),
        store.last_id >= 0,
        find_file(store.messages, file_id) is None,
        store.sessions.contains_key(upload_id),
        store.sessions[upload_id].row.received_bytes >= store.sessions[upload_id].row.file_size,
        total_bytes(store.parts_of(upload_id)) == store.sessions[upload_id].row.file_size,
        store.temps.contains_key(store.sessions[upload_id].row.temp_path),
    ensures
        ({
            let (after, end) = run_complete(store, upload_id, file_id, now);
            let session = store.sessions[upload_id].row;
            let message = after.messages.last();
            &&& after.messages == store.messages.push(message)
            &&& after.last_id == store.last_id + 1
            &&& message.id == store.last_id + 1
            &&& message.kind == "file"@
            &&& message.text_content is None
            &&& message.file_id == Some(file_id)
            &&& message.file_name == Some(session.file_name)
            &&& message.file_size == Some(session.file_size)
            &&& session.mime_type is Some ==> message.mime_type == session.mime_type
            &&& session.mime_type is None ==> message.mime_type == Some(
                "application/octet-stream"@,
            )
            &&& message.created_at == now
            &&& end matches Step::Reply(answer) && shows(answer, message)
            &&& after.files == store.files.insert(file_id, store.temps[session.temp_path])
            &&& after.sessions == store.sessions.remove(upload_id)
            &&& after.parts == store.parts.remove(upload_id)
            &&& after.temps == store.temps.remove(session.temp_path)
            &&& after.ui == store.ui
            &&& after.progress == store.progress
        }),
{
    complete_runs(store, upload_id, file_id, now);
    assert(session_sound(store, upload_id));
    let row = store.sessions[upload_id].row;
    full_count_means_no_gap(store.parts_of(upload_id), row.file_size);
    let after = run_complete(store, upload_id, file_id, now).0;
    rows_are_shown_as_they_are(after.messages.last());
}

/// An upload that is unknown, or of which bytes are missing or not counted, is not
/// completed, and nothing changes.
pub proof fn incomplete_upload_stays(
    store: Store,
    upload_id: Seq<char>,
    file_id: Seq<char>,
    now: Seq<char>,
)
    requires
        uploads_sound(store),
        store.has_room(),
        store.last_id >= 0,
        find_file(store.messages, file_id) is None,
    ensures
        ({
            let (after, end) = run_complete(store, upload_id, file_id, now);
            let row = store.sessions[upload_id].row;
            let known = store.sessions.contains_key(upload_id);
            &&& !known ==> after == store && refuses_with(end, 404, "上传会话不存在"@)
            &&& known && row.received_bytes < row.file_size ==> after == store && refuses_with(
                end,
                409,
                "文件尚未上传完成，已上传 "@ + decimal_int(row.received_bytes as int) + "/"@
                    + decimal_int(row.file_size as int),
            )
            &&& known && total_bytes(store.parts_of(upload_id)) < row.file_size ==> after == store
                && (end matches Step::Refuse(refused) && refused.status == 409)
        }),
{
    complete_runs(store, upload_id, file_id, now);
    if store.sessions.contains_key(upload_id) {
        assert(session_sound(store, upload_id));
        let row = store.sessions[upload_id].row;
        full_count_means_no_gap(store.parts_of(upload_id), row.file_size);
        unfinished_uploads_are_refused(row);
    }
}

/// An upload that is given up is gone, with its parts and its temporary file, and
/// the answer says whether there was one. Nothing else changes.
pub proof fn given_up_upload_is_gone(store: Store, upload_id: Seq<char>)
    requires
        uploads_sound(store),
    ensures
        ({
            let (after, end) = run_cancel(store, upload_id);
            let known = store.sessions.contains_key(upload_id);
            &&& end matches Step::Reply(answer) && (answer.cancelled <==> known)
            &&& !known ==> after == store
            &&& known ==> {
                &&& after.sessions == store.sessions.remove(upload_id)
                &&& after.parts == store.parts.remove(upload_id)
                &&& after.temps == store.temps.remove(store.sessions[upload_id].row.temp_path)
                &&& only_uploads_differ(store, after)
            }
        }),
{
    cancel_runs(store, upload_id);
}

} // verus!
