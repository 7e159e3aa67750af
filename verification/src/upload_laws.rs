//! What uploads keep, and what comes of them, where one request is worked off
//! after the other.
use vstd::prelude::*;

use crate::error::{refusal, Refusal, BAD_REQUEST, CONFLICT, INTERNAL_SERVER_ERROR, NOT_FOUND};
use crate::headers::Headers;
use crate::message::{shown, MessageDto, MessageRow, Row};
use crate::parts::{every_byte_in_a_part, total_fits};
use crate::parts::{no_overlap, overlap_count, overlaps, total_bytes, well_placed};
use crate::parts::{well_placed_total, with_part, with_part_adds, with_part_well_placed};
use crate::parts::{Part, UploadedPart};
use crate::stamp::checksum;
use crate::step::{accepted, ends_as, run, Step};
use crate::store::{find_file, find_part, find_row, write_at, Session, Store};
use crate::upload::{uploading, Action, Event, SessionRow, UploadAction};
use crate::upload_chunk::{chunk_accepts, chunk_next, chunk_response, chunk_start};
use crate::upload_chunk::{end_fits, sent_chunk};
use crate::upload_chunk::{Chunk, ChunkResponse, SentChunk};
use crate::upload_cancel::{cancel_accepts, cancel_next, cancel_start, Cancel};
use crate::upload_cancel::UploadCancelResponse;
use crate::upload_complete::{complete_accepts, complete_next, complete_start, mime_or_default};
use crate::upload_complete::{parts_refusal, session_refusal, Complete};
use crate::upload_init::{continues, init_accepts, init_next, init_refusal, init_response};
use crate::upload_init::{init_start, received, temp_name, Init, InitRequest, InitResponse};
use crate::upload_init::UploadInitResponse;

verus! {

/// How many actions a request may take.
pub open spec fn enough() -> nat {
    12
}

/// The file holds the bytes of the part.
pub open spec fn holds(content: Seq<u8>, part: Part) -> bool {
    &&& 0 <= part.start_byte <= part.end_byte <= content.len()
    &&& checksum(content.subrange(part.start_byte as int, part.end_byte as int)) == part.checksum
}

/// The parts and the temporary file of the upload are in order. The file may be
/// gone only if every byte was received: then it was moved, to become a stored
/// file.
pub open spec fn session_sound(store: Store, upload_id: Seq<char>) -> bool {
    let row = store.sessions[upload_id].row;
    let parts = store.parts_of(upload_id);
    &&& row.upload_id == upload_id
    &&& row.status == uploading()
    &&& row.file_size > 0
    &&& row.temp_path == store.temp_dir + temp_name(upload_id)
    &&& well_placed(parts, row.file_size as int)
    &&& if store.temps.contains_key(row.temp_path) {
        &&& store.temps[row.temp_path].len() <= row.file_size
        &&& forall|i: int|
            0 <= i < parts.len() ==> holds(store.temps[row.temp_path], #[trigger] parts[i])
    } else {
        parts_refusal(parts, row.file_size) is None
    }
}

/// Every upload is in order, and there is one for a file key. The count of
/// received bytes of an upload may lag behind its parts.
pub open spec fn uploads_sound(store: Store) -> bool {
    &&& forall|id: Seq<char>| #[trigger]
        store.sessions.contains_key(id) ==> session_sound(store, id)
    &&& forall|a: Seq<char>, b: Seq<char>, key: Seq<char>| #[trigger]
        store.has_key(a, key) && #[trigger] store.has_key(b, key) ==> a == b
}

/// The count of received bytes of the upload is that of its parts.
pub open spec fn count_right(store: Store, upload_id: Seq<char>) -> bool {
    store.sessions[upload_id].row.received_bytes == total_bytes(store.parts_of(upload_id))
}

/// No upload has the name, and none left parts under it.
pub open spec fn is_new(store: Store, token: Seq<char>) -> bool {
    !store.sessions.contains_key(token) && !store.parts.contains_key(token)
}

/// What is stored after the received bytes of the upload were counted anew.
pub open spec fn with_recount(store: Store, upload_id: Seq<char>) -> Store {
    let session = store.sessions[upload_id];
    let received_bytes = total_bytes(store.parts_of(upload_id)) as i64;
    let row = SessionRow { received_bytes, ..session.row };
    Store { sessions: store.sessions.insert(upload_id, Session { row, ..session }), ..store }
}

/// What is stored after the part was taken in.
pub open spec fn with_chunk(store: Store, chunk: SentChunk) -> Store {
    let id = chunk.upload_id;
    let session = store.sessions[id];
    let part = UploadedPart {
        start_byte: chunk.start_byte,
        end_byte: chunk.end_byte,
        checksum: chunk.checksum,
    };
    let parts = with_part(store.parts_of(id), part);
    let row = SessionRow { received_bytes: total_bytes(parts) as i64, ..session.row };
    Store {
        sessions: store.sessions.insert(id, Session { row, ..session }),
        parts: store.parts.insert(id, parts),
        temps: store.temps.insert(
            session.row.temp_path,
            write_at(store.temp(session.row.temp_path), chunk.start_byte as int, chunk.data),
        ),
        ..store
    }
}

/// What comes of a part that is sent: what is stored then, and the answer.
pub open spec fn chunk_effect(store: Store, chunk: SentChunk) -> (
    Store,
    Result<ChunkResponse, Refusal>,
) {
    let id = chunk.upload_id;
    let row = store.sessions[id].row;
    let parts = store.parts_of(id);
    if !store.sessions.contains_key(id) {
        (store, Err(refusal(NOT_FOUND, "上传会话不存在"@)))
    } else if row.status != uploading() {
        (store, Err(refusal(CONFLICT, "上传会话不可用"@)))
    } else if chunk.end_byte > row.file_size {
        (store, Err(refusal(BAD_REQUEST, "分片超出文件总大小"@)))
    } else {
        match find_part(parts, chunk.start_byte) {
            Some(part) => if part.end_byte != chunk.end_byte || part.checksum != chunk.checksum {
                (store, Err(refusal(CONFLICT, "分片校验不匹配"@)))
            } else {
                (store, Ok(chunk_response(id, total_bytes(parts) as i64, row.file_size)))
            },
            None => if overlap_count(parts, chunk.start_byte, chunk.end_byte) > 0 {
                (store, Err(refusal(CONFLICT, "分片范围与已有数据重叠"@)))
            } else if checksum(chunk.data) != chunk.checksum {
                (store, Err(refusal(BAD_REQUEST, "分片校验失败"@)))
            } else {
                let received = total_bytes(parts) + (chunk.end_byte - chunk.start_byte);
                (
                    with_chunk(store, chunk),
                    Ok(chunk_response(id, received as i64, row.file_size)),
                )
            },
        }
    }
}

/// Where a request that brings a part ends, and what is stored then.
pub open spec fn run_chunk(store: Store, headers: Headers, body: Seq<u8>, now: Seq<char>) -> (
    Store,
    Step<Chunk, Action, ChunkResponse, Refusal>,
) {
    run(
        store,
        chunk_start(headers, body),
        |store: Store, action: Action| store.perform(action),
        |state: Chunk, event: Event| chunk_next(state, event, now),
        enough(),
    )
}

/// The part fits into a file: it has bytes, and they lie where it says.
pub open spec fn chunk_ok(chunk: SentChunk) -> bool {
    &&& 0 <= chunk.start_byte < chunk.end_byte
    &&& chunk.data.len() == chunk.end_byte - chunk.start_byte
    &&& chunk.size == chunk.data.len()
}

/// A part is taken from a request only if it has bytes and they lie where the
/// request says.
pub proof fn sent_chunk_ok(headers: Headers, body: Seq<u8>)
    requires
        end_fits(headers, body.len() as int),
    ensures
        sent_chunk(headers, body) matches Ok(chunk) ==> chunk_ok(chunk) && chunk.data == body,
{
}

pub proof fn found_part(parts: Seq<Part>, start_byte: i64)
    ensures
        find_part(parts, start_byte) matches Some(part) ==> parts.contains(part)
            && part.start_byte == start_byte,
        find_part(parts, start_byte) is None ==> forall|i: int|
            0 <= i < parts.len() ==> (#[trigger] parts[i]).start_byte != start_byte,
    decreases parts.len(),
{
    if parts.len() > 0 {
        let head = parts.drop_last();
        found_part(head, start_byte);
        assert(parts[parts.len() - 1] == parts.last());
        if parts.last().start_byte != start_byte {
            match find_part(head, start_byte) {
                Some(part) => {
                    let i = choose|i: int| 0 <= i < head.len() && head[i] == part;
                    assert(parts[i] == part);
                },
                None => {
                    assert forall|i: int| 0 <= i < parts.len() implies (
                    #[trigger] parts[i]).start_byte != start_byte by {
                        if i < head.len() {
                            assert(head[i] == parts[i]);
                        }
                    }
                },
            }
        }
    }
}

pub proof fn fewer_parts_than_bytes(parts: Seq<Part>, file_size: int)
    requires
        well_placed(parts, file_size),
    ensures
        parts.len() <= total_bytes(parts),
    decreases parts.len(),
{
    if parts.len() > 0 {
        let head = parts.drop_last();
        assert(well_placed(head, file_size));
        fewer_parts_than_bytes(head, file_size);
        assert(parts[parts.len() - 1].start_byte < parts[parts.len() - 1].end_byte);
    }
}

/// An upload that has room for a part has its temporary file.
pub proof fn room_means_temp_file(
    store: Store,
    upload_id: Seq<char>,
    start_byte: i64,
    end_byte: i64,
)
    requires
        session_sound(store, upload_id),
        0 <= start_byte < end_byte <= store.sessions[upload_id].row.file_size,
        overlap_count(store.parts_of(upload_id), start_byte, end_byte) == 0,
    ensures
        store.temps.contains_key(store.sessions[upload_id].row.temp_path),
{
    let row = store.sessions[upload_id].row;
    let parts = store.parts_of(upload_id);
    if !store.temps.contains_key(row.temp_path) {
        no_overlap(parts, start_byte, end_byte);
        every_byte_in_a_part(parts, start_byte as int);
        let i = choose|i: int|
            0 <= i < parts.len() && (#[trigger] parts[i]).start_byte <= start_byte
                < parts[i].end_byte;
        assert(overlaps(parts[i], start_byte, end_byte));
    }
}

/// A part that is not there yet can be taken in, and the upload stays in order.
proof fn with_chunk_total(store: Store, chunk: SentChunk)
    requires
        uploads_sound(store),
        chunk_ok(chunk),
        store.sessions.contains_key(chunk.upload_id),
        chunk.end_byte <= store.sessions[chunk.upload_id].row.file_size,
        overlap_count(
            store.parts_of(chunk.upload_id),
            chunk.start_byte,
            chunk.end_byte,
        ) == 0,
    ensures
        ({
            let parts = store.parts_of(chunk.upload_id);
            let part = UploadedPart {
                start_byte: chunk.start_byte,
                end_byte: chunk.end_byte,
                checksum: chunk.checksum,
            };
            let file_size = store.sessions[chunk.upload_id].row.file_size;
            &&& well_placed(with_part(parts, part), file_size as int)
            &&& total_bytes(with_part(parts, part)) == total_bytes(parts) + (chunk.end_byte
                - chunk.start_byte)
            &&& total_bytes(with_part(parts, part)) <= file_size
            &&& total_fits(with_part(parts, part))
            &&& store.temps.contains_key(store.sessions[chunk.upload_id].row.temp_path)
        }),
{
    let parts = store.parts_of(chunk.upload_id);
    let part = UploadedPart {
        start_byte: chunk.start_byte,
        end_byte: chunk.end_byte,
        checksum: chunk.checksum,
    };
    let file_size = store.sessions[chunk.upload_id].row.file_size;
    assert(session_sound(store, chunk.upload_id));
    room_means_temp_file(store, chunk.upload_id, chunk.start_byte, chunk.end_byte);
    no_overlap(parts, chunk.start_byte, chunk.end_byte);
    with_part_well_placed(parts, part, file_size as int);
    with_part_adds(parts, part);
    well_placed_total(with_part(parts, part), file_size);
}

/// A request that brings a part does what `chunk_effect` says, and meets no
/// event that it does not wait for.
pub proof fn chunk_runs(store: Store, headers: Headers, body: Seq<u8>, now: Seq<char>)
    requires
        uploads_sound(store),
        end_fits(headers, body.len() as int),
    ensures
        match sent_chunk(headers, body) {
            Ok(chunk) => ends_as(
                run_chunk(store, headers, body, now),
                chunk_effect(store, chunk),
            ),
            Err(refused) => ends_as(
                run_chunk(store, headers, body, now),
                (store, Err(refused)),
            ),
        },
        accepted(
            store,
            chunk_start(headers, body),
            |store: Store, action: Action| store.perform(action),
            |state: Chunk, event: Event| chunk_next(state, event, now),
            |state: Chunk, event: Event| chunk_accepts(state, event),
            enough(),
        ),
{
    reveal_with_fuel(run, 13);
    reveal_with_fuel(accepted, 13);
    match sent_chunk(headers, body) {
        Ok(chunk) => {
            sent_chunk_ok(headers, body);
            let id = chunk.upload_id;
            if store.sessions.contains_key(id) {
                assert(session_sound(store, id));
                let row = store.sessions[id].row;
                let parts = store.parts_of(id);
                well_placed_total(parts, row.file_size);
                fewer_parts_than_bytes(parts, row.file_size as int);
                no_overlap(parts, chunk.start_byte, chunk.end_byte);
                if chunk.end_byte <= row.file_size && overlap_count(
                    parts,
                    chunk.start_byte,
                    chunk.end_byte,
                ) == 0 {
                    with_chunk_total(store, chunk);
                }
            }
        },
        Err(refused) => {},
    }
}

/// What lies outside the written range stays as it was, and the range holds what
/// was written.
pub proof fn write_at_range(content: Seq<u8>, start: int, data: Seq<u8>, from: int, to: int)
    requires
        0 <= start,
        0 <= from <= to,
    ensures
        write_at(content, start, data).subrange(start, start + data.len()) == data,
        to <= content.len() && (to <= start || start + data.len() <= from) ==> write_at(
            content,
            start,
            data,
        ).subrange(from, to) == content.subrange(from, to),
        write_at(content, start, data).len() == if content.len() < start + data.len() {
            start + data.len()
        } else {
            content.len() as int
        },
{
    let written = write_at(content, start, data);
    assert(written.subrange(start, start + data.len()) =~= data);
    if to <= content.len() && (to <= start || start + data.len() <= from) {
        assert(written.subrange(from, to) =~= content.subrange(from, to));
    }
}

/// Two uploads never share a temporary file.
pub proof fn temp_paths_differ(temp_dir: Seq<char>, a: Seq<char>, b: Seq<char>)
    requires
        temp_dir + temp_name(a) == temp_dir + temp_name(b),
    ensures
        a == b,
{
    let p = temp_dir + temp_name(a);
    let q = temp_dir + temp_name(b);
    assert(p.len() == temp_dir.len() + a.len() + ".part"@.len());
    assert(q.len() == temp_dir.len() + b.len() + ".part"@.len());
    assert forall|i: int| 0 <= i < a.len() implies a[i] == b[i] by {
        assert(p[temp_dir.len() + i] == a[i]);
        assert(q[temp_dir.len() + i] == b[i]);
    }
    assert(a =~= b);
}

/// Whatever part is sent, every upload stays in order: no two parts of a file
/// share a byte, each lies within the file, and the temporary file holds the
/// bytes that the checksums vouch for.
pub proof fn chunk_keeps_uploads_sound(store: Store, chunk: SentChunk)
    requires
        uploads_sound(store),
        chunk_ok(chunk),
    ensures
        uploads_sound(chunk_effect(store, chunk).0),
{
    let after = chunk_effect(store, chunk).0;
    let id = chunk.upload_id;
    if after != store {
        let row = store.sessions[id].row;
        let parts = store.parts_of(id);
        let part = UploadedPart {
            start_byte: chunk.start_byte,
            end_byte: chunk.end_byte,
            checksum: chunk.checksum,
        };
        let content = store.temps[row.temp_path];
        assert(session_sound(store, id));
        with_chunk_total(store, chunk);
        with_part_adds(parts, part);
        no_overlap(parts, chunk.start_byte, chunk.end_byte);
        assert(after.parts_of(id) == with_part(parts, part));
        write_at_range(content, chunk.start_byte as int, chunk.data, 0, 0);
        let written = write_at(content, chunk.start_byte as int, chunk.data);
        assert(after.temps[row.temp_path] == written);
        assert forall|i: int| 0 <= i < after.parts_of(id).len() implies holds(
            written,
            #[trigger] after.parts_of(id)[i],
        ) by {
            let p = after.parts_of(id)[i];
            assert(after.parts_of(id).contains(p));
            if p != part {
                let k = choose|k: int| 0 <= k < parts.len() && parts[k] == p;
                assert(holds(content, parts[k]));
                assert(!overlaps(parts[k], chunk.start_byte, chunk.end_byte));
                write_at_range(
                    content,
                    chunk.start_byte as int,
                    chunk.data,
                    p.start_byte as int,
                    p.end_byte as int,
                );
            }
        }
        assert forall|other: Seq<char>| #[trigger] after.sessions.contains_key(other) implies
            session_sound(after, other) by {
            if other != id {
                assert(store.sessions.contains_key(other));
                assert(session_sound(store, other));
                if store.sessions[other].row.temp_path == row.temp_path {
                    temp_paths_differ(store.temp_dir, other, id);
                }
                assert(after.parts_of(other) == store.parts_of(other));
            }
        }
        assert forall|a: Seq<char>, b: Seq<char>, key: Seq<char>| #[trigger]
            after.has_key(a, key) && #[trigger] after.has_key(b, key) implies a == b by {
            assert(store.has_key(a, key));
            assert(store.has_key(b, key));
        }
    }
}

/// Sending a part again that was taken in changes nothing and is answered the
/// same way.
pub proof fn resending_is_harmless(store: Store, chunk: SentChunk)
    requires
        uploads_sound(store),
        chunk_ok(chunk),
        chunk_effect(store, chunk).1 is Ok,
    ensures
        chunk_effect(chunk_effect(store, chunk).0, chunk) == chunk_effect(store, chunk),
{
    let (after, answer) = chunk_effect(store, chunk);
    let id = chunk.upload_id;
    if after != store {
        let parts = store.parts_of(id);
        let part = UploadedPart {
            start_byte: chunk.start_byte,
            end_byte: chunk.end_byte,
            checksum: chunk.checksum,
        };
        assert(session_sound(store, id));
        with_chunk_total(store, chunk);
        with_part_adds(parts, part);
        chunk_keeps_uploads_sound(store, chunk);
        assert(after.sessions.contains_key(id));
        assert(session_sound(after, id));
        let all = after.parts_of(id);
        assert(all == with_part(parts, part));
        assert(all.contains(part));
        let i = choose|i: int| 0 <= i < all.len() && all[i] == part;
        found_part(all, chunk.start_byte);
        match find_part(all, chunk.start_byte) {
            Some(found) => {
                let j = choose|j: int| 0 <= j < all.len() && all[j] == found;
                if j < i {
                    assert(all[j].end_byte <= all[i].start_byte);
                }
                if i < j {
                    assert(all[i].end_byte <= all[j].start_byte);
                }
            },
            None => {
                assert(all[i].start_byte != chunk.start_byte);
            },
        }
    }
}

/// What is stored after everything of the upload was dropped.
pub open spec fn without_upload(store: Store, upload_id: Seq<char>) -> Store {
    Store {
        sessions: store.sessions.remove(upload_id),
        parts: store.parts.remove(upload_id),
        temps: store.temps.remove(store.sessions[upload_id].row.temp_path),
        ..store
    }
}

/// The message for the file that is made of the upload.
pub open spec fn completed_row(
    store: Store,
    upload_id: Seq<char>,
    file_id: Seq<char>,
    now: Seq<char>,
) -> Row {
    let row = store.sessions[upload_id].row;
    MessageRow {
        id: store.next_id(),
        kind: "file"@,
        text_content: None,
        file_id: Some(file_id),
        file_name: Some(row.file_name),
        file_size: Some(row.file_size),
        mime_type: Some(mime_or_default(row.mime_type)),
        created_at: now,
    }
}

/// The refusal where the temporary file is gone. What the storage tells of it is
/// left out.
pub open spec fn nothing_to_move() -> Refusal {
    let detail = Seq::<char>::empty();
    refusal(
        INTERNAL_SERVER_ERROR,
        "搬运文件失败: "@ + detail + "; copy fallback failed: "@ + detail,
    )
}

/// What comes of the request to complete the upload: what is stored then, and
/// the answer.
pub open spec fn complete_effect(
    store: Store,
    upload_id: Seq<char>,
    file_id: Seq<char>,
    now: Seq<char>,
) -> (Store, Result<MessageDto<Seq<char>>, Refusal>) {
    let row = store.sessions[upload_id].row;
    if !store.sessions.contains_key(upload_id) {
        (store, Err(refusal(NOT_FOUND, "上传会话不存在"@)))
    } else {
        match session_refusal(row) {
            Some(refused) => (store, Err(refused)),
            None => match parts_refusal(store.parts_of(upload_id), row.file_size) {
                Some(refused) => (store, Err(refused)),
                None => if !store.temps.contains_key(row.temp_path) {
                    (store, Err(nothing_to_move()))
                } else {
                    let message = completed_row(store, upload_id, file_id, now);
                    (
                        Store {
                            files: store.files.insert(file_id, store.temps[row.temp_path]),
                            ..without_upload(store, upload_id).with_message(message)
                        },
                        Ok(shown(message)),
                    )
                },
            },
        }
    }
}

/// Where a request that completes an upload ends, and what is stored then.
pub open spec fn run_complete(
    store: Store,
    upload_id: Seq<char>,
    file_id: Seq<char>,
    now: Seq<char>,
) -> (Store, Step<Complete, Action, MessageDto<Seq<char>>, Refusal>) {
    run(
        store,
        complete_start(upload_id, file_id),
        |store: Store, action: Action| store.perform(action),
        |state: Complete, event: Event| complete_next(state, event, now),
        enough(),
    )
}

/// A request that completes an upload does what `complete_effect` says, and
/// meets no event that it does not wait for. The file gets a name that no other
/// has.
pub proof fn complete_runs(
    store: Store,
    upload_id: Seq<char>,
    file_id: Seq<char>,
    now: Seq<char>,
)
    requires
        uploads_sound(store),
        store.has_room(),
        store.last_id >= 0,
        find_file(store.messages, file_id) is None,
    ensures
        ends_as(
            run_complete(store, upload_id, file_id, now),
            complete_effect(store, upload_id, file_id, now),
        ),
        accepted(
            store,
            complete_start(upload_id, file_id),
            |store: Store, action: Action| store.perform(action),
            |state: Complete, event: Event| complete_next(state, event, now),
            |state: Complete, event: Event| complete_accepts(state, event),
            enough(),
        ),
{
    reveal_with_fuel(run, 13);
    reveal_with_fuel(accepted, 13);
    if store.sessions.contains_key(upload_id) {
        assert(session_sound(store, upload_id));
        let message = completed_row(store, upload_id, file_id, now);
        assert(find_row(store.messages.push(message), message.id) == Some(message));
    }
}

/// What comes of the request to give up the upload: what is stored then, and
/// the answer.
pub open spec fn cancel_effect(store: Store, upload_id: Seq<char>) -> (
    Store,
    Result<UploadCancelResponse, Refusal>,
) {
    if store.sessions.contains_key(upload_id) {
        (without_upload(store, upload_id), Ok(UploadCancelResponse { cancelled: true }))
    } else {
        (store, Ok(UploadCancelResponse { cancelled: false }))
    }
}

/// Where a request that gives up an upload ends, and what is stored then.
pub open spec fn run_cancel(store: Store, upload_id: Seq<char>) -> (
    Store,
    Step<Cancel, Action, UploadCancelResponse, Refusal>,
) {
    run(
        store,
        cancel_start(upload_id),
        |store: Store, action: Action| store.perform(action),
        |state: Cancel, event: Event| cancel_next(state, event),
        enough(),
    )
}

/// A request that gives up an upload does what `cancel_effect` says, and meets
/// no event that it does not wait for.
pub proof fn cancel_runs(store: Store, upload_id: Seq<char>)
    requires
        uploads_sound(store),
    ensures
        ends_as(run_cancel(store, upload_id), cancel_effect(store, upload_id)),
        accepted(
            store,
            cancel_start(upload_id),
            |store: Store, action: Action| store.perform(action),
            |state: Cancel, event: Event| cancel_next(state, event),
            |state: Cancel, event: Event| cancel_accepts(state, event),
            enough(),
        ),
{
    reveal_with_fuel(run, 13);
    reveal_with_fuel(accepted, 13);
    if store.sessions.contains_key(upload_id) {
        assert(session_sound(store, upload_id));
        let path = store.sessions[upload_id].row.temp_path;
        assert(!store.temps.contains_key(path) ==> store.temps.remove(path) =~= store.temps);
    }
}

/// What is stored after a new upload was begun.
pub open spec fn with_upload(store: Store, request: InitRequest, token: Seq<char>) -> Store {
    let temp_path = store.temp_dir + temp_name(token);
    let row = SessionRow {
        upload_id: token,
        file_name: request.file_name,
        file_size: request.file_size,
        mime_type: request.mime_type,
        received_bytes: 0,
        temp_path,
        status: uploading(),
    };
    Store {
        sessions: store.sessions.insert(token, Session { file_key: request.file_key, row }),
        temps: store.temps.insert(temp_path, Seq::empty()),
        ..store
    }
}

/// The answer for a new upload.
pub open spec fn new_response(request: InitRequest, token: Seq<char>) -> InitResponse {
    UploadInitResponse {
        done: false,
        ..init_response(request.file_size, token, Seq::empty(), 0)
    }
}

/// The upload that has the file key.
pub open spec fn upload_with_key(store: Store, file_key: Seq<char>) -> Seq<char> {
    choose|id: Seq<char>| #[trigger] store.has_key(id, file_key)
}

/// What comes of the request to begin an upload: what is stored then, and the
/// answer. An upload of the same file is taken up again; one of another file
/// under the same key gives way.
pub open spec fn init_effect(store: Store, request: InitRequest, token: Seq<char>) -> (
    Store,
    Result<InitResponse, Refusal>,
) {
    let key = request.file_key;
    match init_refusal(request) {
        Some(refused) => (store, Err(refused)),
        None => if exists|id: Seq<char>| #[trigger] store.has_key(id, key) {
            let id = upload_with_key(store, key);
            if continues(request, store.sessions[id].row) {
                let parts = store.parts_of(id);
                (
                    with_recount(store, id),
                    Ok(
                        init_response(
                            request.file_size,
                            id,
                            parts,
                            received(parts, request.file_size),
                        ),
                    ),
                )
            } else {
                (
                    with_upload(without_upload(store, id), request, token),
                    Ok(new_response(request, token)),
                )
            }
        } else {
            (with_upload(store, request, token), Ok(new_response(request, token)))
        },
    }
}

/// Where a request that begins an upload ends, and what is stored then.
pub open spec fn run_init(
    store: Store,
    request: InitRequest,
    token: Seq<char>,
    now: Seq<char>,
) -> (Store, Step<Init, Action, InitResponse, Refusal>) {
    run(
        store,
        init_start(request, token),
        |store: Store, action: Action| store.perform(action),
        |state: Init, event: Event| init_next(state, event, now),
        enough(),
    )
}

/// A request that begins an upload does what `init_effect` says, and meets no
/// event that it does not wait for. A new upload gets a name that no other has.
pub proof fn init_runs(store: Store, request: InitRequest, token: Seq<char>, now: Seq<char>)
    requires
        uploads_sound(store),
        is_new(store, token),
    ensures
        ends_as(run_init(store, request, token, now), init_effect(store, request, token)),
        accepted(
            store,
            init_start(request, token),
            |store: Store, action: Action| store.perform(action),
            |state: Init, event: Event| init_next(state, event, now),
            |state: Init, event: Event| init_accepts(state, event),
            enough(),
        ),
{
    reveal_with_fuel(run, 13);
    reveal_with_fuel(accepted, 13);
    let key = request.file_key;
    if init_refusal(request) is None {
        if exists|id: Seq<char>| #[trigger] store.has_key(id, key) {
            let id = upload_with_key(store, key);
            assert(store.has_key(id, key));
            assert(session_sound(store, id));
            let row = store.sessions[id].row;
            let parts = store.parts_of(id);
            well_placed_total(parts, row.file_size);
            if !continues(request, row) {
                let path = row.temp_path;
                assert(!store.temps.contains_key(path) ==> store.temps.remove(path)
                    =~= store.temps);
                let dropped = without_upload(store, id);
                let (created, _) = dropped.perform(
                    UploadAction::CreateTemp { file_name: temp_name(token) },
                );
                assert forall|other: Seq<char>| !#[trigger] created.has_key(other, key) by {
                    if created.has_key(other, key) {
                        assert(store.has_key(other, key));
                    }
                }
            }
        } else {
            let (created, _) = store.perform(
                UploadAction::CreateTemp { file_name: temp_name(token) },
            );
            assert forall|other: Seq<char>| !#[trigger] created.has_key(other, key) by {
                if created.has_key(other, key) {
                    assert(store.has_key(other, key));
                }
            }
        }
    }
}

} // verus!
