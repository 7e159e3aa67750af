//! What holds when several parts of files are brought at the same time.
use vstd::prelude::*;

use crate::error::Refusal;
use crate::headers::Headers;
use crate::parts::{no_overlap, overlap_count, overlaps, total_fits, well_placed_total};
use crate::parts::{with_part, with_part_adds, with_part_well_placed, Part};
use crate::stamp::checksum;
use crate::step::Step;
use crate::store::{find_part, write_at, Store};
use crate::upload::{Action, UploadAction};
use crate::upload_chunk::{chunk_accepts, chunk_next, chunk_start, end_fits, sent_chunk, Chunk};
use crate::upload_chunk::{ChunkResponse, ChunkState, SentChunk};
use crate::upload_laws::{chunk_ok, fewer_parts_than_bytes, found_part, holds, sent_chunk_ok};
use crate::upload_laws::{room_means_temp_file, session_sound, temp_paths_differ, uploads_sound};
use crate::upload_laws::write_at_range;
use crate::upload_promises::carries;

verus! {

/// A step of a request that brings a part, as a mathematical value.
pub type ChunkStepModel = Step<Chunk, Action, ChunkResponse, Refusal>;

/// Requests that bring parts, each at its own step, and what is stored.
pub struct Parallel {
    pub store: Store,
    pub steps: Seq<ChunkStepModel>,
}

/// Bytes of the file of an upload.
pub struct Claim {
    pub upload_id: Seq<char>,
    pub start_byte: i64,
    pub end_byte: i64,
}

/// The bytes that a request is about to store, if it has not done so yet.
pub open spec fn claim(step: ChunkStepModel) -> Option<Claim> {
    match step {
        Step::Ask(state, action) => match state {
            ChunkState::Opening { request } => Some(claim_of(request)),
            ChunkState::FindingSession { request } => Some(claim_of(request)),
            ChunkState::FindingPart { request, .. } => Some(claim_of(request)),
            ChunkState::CountingOverlaps { request, .. } => Some(claim_of(request)),
            ChunkState::Writing { upload_id, part, .. } => Some(
                Claim { upload_id, start_byte: part.start_byte, end_byte: part.end_byte },
            ),
            ChunkState::Recording { upload_id, .. } => match action {
                UploadAction::InsertPart { part, .. } => Some(
                    Claim { upload_id, start_byte: part.start_byte, end_byte: part.end_byte },
                ),
                _ => None,
            },
            _ => None,
        },
        _ => None,
    }
}

/// The bytes that the request brings.
pub open spec fn claim_of(request: SentChunk) -> Claim {
    Claim {
        upload_id: request.upload_id,
        start_byte: request.start_byte,
        end_byte: request.end_byte,
    }
}

/// The two share no byte.
pub open spec fn apart(a: Claim, b: Claim) -> bool {
    a.upload_id != b.upload_id || a.end_byte <= b.start_byte || b.end_byte <= a.start_byte
}

/// The upload is there, for a file of that size, with that temporary file.
pub open spec fn session_is(
    store: Store,
    upload_id: Seq<char>,
    file_size: i64,
    temp_path: Seq<char>,
) -> bool {
    &&& store.sessions.contains_key(upload_id)
    &&& store.sessions[upload_id].row.file_size == file_size
    &&& store.sessions[upload_id].row.temp_path == temp_path
}

/// The part can be taken in: it lies in the file, and no part that is there
/// shares a byte with it.
pub open spec fn fits_in(store: Store, upload_id: Seq<char>, part: Part, file_size: i64) -> bool {
    &&& 0 <= part.start_byte < part.end_byte <= file_size
    &&& overlap_count(store.parts_of(upload_id), part.start_byte, part.end_byte) == 0
}

/// The request stands where it says: what it learned of the storage still holds.
pub open spec fn step_ok(store: Store, step: ChunkStepModel) -> bool {
    match step {
        Step::Ask(state, action) => match state {
            ChunkState::Opening { request } => chunk_ok(request)
                && action == UploadAction::<Seq<char>, Seq<u8>>::OpenStore,
            ChunkState::FindingSession { request } => chunk_ok(request) && action
                == UploadAction::<Seq<char>, Seq<u8>>::FindSession {
                upload_id: request.upload_id,
            },
            ChunkState::FindingPart { request, file_size, temp_path } => {
                &&& chunk_ok(request)
                &&& request.end_byte <= file_size
                &&& session_is(store, request.upload_id, file_size, temp_path)
                &&& action == UploadAction::<Seq<char>, Seq<u8>>::FindPart {
                    upload_id: request.upload_id,
                    start_byte: request.start_byte,
                }
            },
            ChunkState::CountingOverlaps { request, file_size, temp_path } => {
                &&& chunk_ok(request)
                &&& request.end_byte <= file_size
                &&& session_is(store, request.upload_id, file_size, temp_path)
                &&& action == UploadAction::<Seq<char>, Seq<u8>>::CountOverlaps {
                    upload_id: request.upload_id,
                    start_byte: request.start_byte,
                    end_byte: request.end_byte,
                }
            },
            ChunkState::Writing { upload_id, part, size, file_size } => {
                &&& action matches UploadAction::WriteTemp { temp_path, start_byte, data }
                &&& session_is(store, upload_id, file_size, temp_path)
                &&& fits_in(store, upload_id, part, file_size)
                &&& start_byte == part.start_byte
                &&& data.len() == part.end_byte - part.start_byte
                &&& checksum(data) == part.checksum
            },
            ChunkState::Recording { upload_id, file_size } => {
                &&& action matches UploadAction::InsertPart { upload_id: id, part, .. }
                &&& id == upload_id
                &&& store.sessions.contains_key(upload_id)
                &&& store.sessions[upload_id].row.file_size == file_size
                &&& fits_in(store, upload_id, part, file_size)
                &&& store.temps.contains_key(store.sessions[upload_id].row.temp_path)
                &&& holds(store.temps[store.sessions[upload_id].row.temp_path], part)
            },
            ChunkState::Recounting { upload_id, .. } | ChunkState::Loading { upload_id, .. } => {
                &&& store.sessions.contains_key(upload_id)
                &&& action == UploadAction::<Seq<char>, Seq<u8>>::LoadParts { upload_id }
            },
            ChunkState::Updating { upload_id, .. } => {
                &&& store.sessions.contains_key(upload_id)
                &&& action matches UploadAction::SetReceived { upload_id: id, .. } && id
                    == upload_id
            },
        },
        _ => true,
    }
}

/// The uploads are sound, every request stands where it says, and no two
/// requests are about to store the same byte.
pub open spec fn parallel_ok(p: Parallel) -> bool {
    &&& uploads_sound(p.store)
    &&& forall|i: int| 0 <= i < p.steps.len() ==> step_ok(p.store, #[trigger] p.steps[i])
    &&& forall|i: int, j: int|
        0 <= i < p.steps.len() && 0 <= j < p.steps.len() && i != j ==> (claim(
            #[trigger] p.steps[i],
        ) matches Some(a) ==> claim(#[trigger] p.steps[j]) matches Some(b) ==> apart(a, b))
}

/// What is there after the request `k` had its action performed, at the time
/// `now`.
pub open spec fn advance(p: Parallel, k: int, now: Seq<char>) -> Parallel {
    match p.steps[k] {
        Step::Ask(state, action) => {
            let (store, event) = p.store.perform(action);
            Parallel { store, steps: p.steps.update(k, chunk_next(state, event, now)) }
        },
        _ => p,
    }
}

/// A request that brings bytes which no other request is about to store can be
/// worked off beside them.
pub proof fn request_joins(p: Parallel, headers: Headers, body: Seq<u8>)
    requires
        parallel_ok(p),
        end_fits(headers, body.len() as int),
        sent_chunk(headers, body) matches Ok(chunk) ==> forall|i: int|
            0 <= i < p.steps.len() ==> (claim(#[trigger] p.steps[i]) matches Some(a) ==> apart(
                a,
                claim_of(chunk),
            )),
    ensures
        parallel_ok(Parallel { steps: p.steps.push(chunk_start(headers, body)), ..p }),
{
    sent_chunk_ok(headers, body);
}

/// The parts of a sound upload can be counted.
proof fn parts_can_be_counted(store: Store, upload_id: Seq<char>)
    requires
        uploads_sound(store),
        store.sessions.contains_key(upload_id),
    ensures
        session_sound(store, upload_id),
        total_fits(store.parts_of(upload_id)),
        store.parts_of(upload_id).len() <= i64::MAX,
{
    let row = store.sessions[upload_id].row;
    assert(session_sound(store, upload_id));
    well_placed_total(store.parts_of(upload_id), row.file_size);
    fewer_parts_than_bytes(store.parts_of(upload_id), row.file_size as int);
}

/// An action that only reads leaves the request where it may be.
proof fn reading_step(store: Store, state: Chunk, action: Action, now: Seq<char>)
    requires
        uploads_sound(store),
        step_ok(store, Step::Ask(state, action)),
        !(state is Writing),
        !(state is Recording),
        !(state is Updating),
    ensures
        ({
            let (after, event) = store.perform(action);
            let next = chunk_next(state, event, now);
            &&& after == store
            &&& chunk_accepts(state, event)
            &&& step_ok(store, next)
            &&& claim(next) is None || claim(next) == claim(Step::Ask(state, action))
        }),
{
    match state {
        ChunkState::FindingSession { request } => {
            if store.sessions.contains_key(request.upload_id) {
                parts_can_be_counted(store, request.upload_id);
            }
        },
        ChunkState::CountingOverlaps { request, file_size, temp_path } => {
            parts_can_be_counted(store, request.upload_id);
            no_overlap(store.parts_of(request.upload_id), request.start_byte, request.end_byte);
        },
        ChunkState::Recounting { upload_id, .. } => {
            parts_can_be_counted(store, upload_id);
        },
        ChunkState::Loading { upload_id, .. } => {
            parts_can_be_counted(store, upload_id);
        },
        _ => {},
    }
}

/// What is stored once the bytes are written into the temporary file of the
/// upload.
spec fn written(store: Store, upload_id: Seq<char>, start: int, data: Seq<u8>) -> Store {
    let temp_path = store.sessions[upload_id].row.temp_path;
    Store {
        temps: store.temps.insert(temp_path, write_at(store.temp(temp_path), start, data)),
        ..store
    }
}

/// Writing bytes that no part claims leaves the uploads sound.
proof fn writing_leaves(store: Store, upload_id: Seq<char>, part: Part, data: Seq<u8>)
    requires
        uploads_sound(store),
        store.sessions.contains_key(upload_id),
        fits_in(store, upload_id, part, store.sessions[upload_id].row.file_size),
        data.len() == part.end_byte - part.start_byte,
    ensures
        ({
            let after = written(store, upload_id, part.start_byte as int, data);
            let content = after.temps[store.sessions[upload_id].row.temp_path];
            &&& uploads_sound(after)
            &&& content.len() >= part.end_byte
            &&& content.subrange(part.start_byte as int, part.end_byte as int) == data
        }),
{
    let after = written(store, upload_id, part.start_byte as int, data);
    let row = store.sessions[upload_id].row;
    let parts = store.parts_of(upload_id);
    let content = store.temps[row.temp_path];
    assert(session_sound(store, upload_id));
    room_means_temp_file(store, upload_id, part.start_byte, part.end_byte);
    no_overlap(parts, part.start_byte, part.end_byte);
    write_at_range(content, part.start_byte as int, data, 0, 0);
    assert forall|i: int| 0 <= i < parts.len() implies holds(
        after.temps[row.temp_path],
        #[trigger] parts[i],
    ) by {
        assert(holds(content, parts[i]));
        assert(!overlaps(parts[i], part.start_byte, part.end_byte));
        write_at_range(
            content,
            part.start_byte as int,
            data,
            parts[i].start_byte as int,
            parts[i].end_byte as int,
        );
    }
    assert forall|other: Seq<char>| #[trigger] after.sessions.contains_key(other) implies
        session_sound(after, other) by {
        assert(session_sound(store, other));
        assert(after.parts_of(other) == store.parts_of(other));
        if other != upload_id && store.sessions[other].row.temp_path == row.temp_path {
            temp_paths_differ(store.temp_dir, other, upload_id);
        }
    }
    assert forall|a: Seq<char>, b: Seq<char>, key: Seq<char>| #[trigger]
        after.has_key(a, key) && #[trigger] after.has_key(b, key) implies a == b by {
        assert(store.has_key(a, key));
        assert(store.has_key(b, key));
    }
}

proof fn others_after_writing(
    store: Store,
    upload_id: Seq<char>,
    part: Part,
    data: Seq<u8>,
    other: ChunkStepModel,
)
    requires
        uploads_sound(store),
        store.sessions.contains_key(upload_id),
        fits_in(store, upload_id, part, store.sessions[upload_id].row.file_size),
        data.len() == part.end_byte - part.start_byte,
        step_ok(store, other),
        claim(other) matches Some(a) ==> apart(
            a,
            Claim { upload_id, start_byte: part.start_byte, end_byte: part.end_byte },
        ),
    ensures
        step_ok(written(store, upload_id, part.start_byte as int, data), other),
{
    let after = written(store, upload_id, part.start_byte as int, data);
    assert forall|id: Seq<char>| #[trigger] after.parts_of(id) == store.parts_of(id) by {}
    if let Step::Ask(ChunkState::Recording { upload_id: id, file_size }, action) = other {
        if let UploadAction::InsertPart { part: mine, .. } = action {
            parts_can_be_counted(store, upload_id);
            parts_can_be_counted(store, id);
            let path = store.sessions[id].row.temp_path;
            if id == upload_id {
                write_at_range(
                    store.temps[path],
                    part.start_byte as int,
                    data,
                    mine.start_byte as int,
                    mine.end_byte as int,
                );
            } else if path == store.sessions[upload_id].row.temp_path {
                temp_paths_differ(store.temp_dir, id, upload_id);
            }
        }
    }
}

/// What is stored after the part was recorded.
spec fn with_recorded(store: Store, upload_id: Seq<char>, part: Part) -> Store {
    Store {
        parts: store.parts.insert(upload_id, with_part(store.parts_of(upload_id), part)),
        ..store
    }
}

/// Recording a part whose bytes are written leaves the uploads sound.
proof fn recording_leaves(store: Store, upload_id: Seq<char>, part: Part)
    requires
        uploads_sound(store),
        store.sessions.contains_key(upload_id),
        fits_in(store, upload_id, part, store.sessions[upload_id].row.file_size),
        store.temps.contains_key(store.sessions[upload_id].row.temp_path),
        holds(store.temps[store.sessions[upload_id].row.temp_path], part),
    ensures
        uploads_sound(with_recorded(store, upload_id, part)),
        find_part(store.parts_of(upload_id), part.start_byte) is None,
{
    let after = with_recorded(store, upload_id, part);
    let parts = store.parts_of(upload_id);
    let row = store.sessions[upload_id].row;
    let content = store.temps[row.temp_path];
    assert(session_sound(store, upload_id));
    no_overlap(parts, part.start_byte, part.end_byte);
    found_part(parts, part.start_byte);
    if let Some(found) = find_part(parts, part.start_byte) {
        let i = choose|i: int| 0 <= i < parts.len() && parts[i] == found;
        assert(overlaps(parts[i], part.start_byte, part.end_byte));
    }
    with_part_adds(parts, part);
    with_part_well_placed(parts, part, row.file_size as int);
    let all = after.parts_of(upload_id);
    assert forall|i: int| 0 <= i < all.len() implies holds(content, #[trigger] all[i]) by {
        assert(all.contains(all[i]));
        if all[i] != part {
            let j = choose|j: int| 0 <= j < parts.len() && parts[j] == all[i];
            assert(holds(content, parts[j]));
        }
    }
    assert forall|other: Seq<char>| #[trigger] after.sessions.contains_key(other) implies
        session_sound(after, other) by {
        assert(session_sound(store, other));
        assert(other != upload_id ==> after.parts_of(other) == store.parts_of(other));
    }
    assert forall|a: Seq<char>, b: Seq<char>, key: Seq<char>| #[trigger]
        after.has_key(a, key) && #[trigger] after.has_key(b, key) implies a == b by {
        assert(store.has_key(a, key));
        assert(store.has_key(b, key));
    }
}

proof fn others_after_recording(
    store: Store,
    upload_id: Seq<char>,
    part: Part,
    other: ChunkStepModel,
)
    requires
        step_ok(store, other),
        claim(other) matches Some(a) ==> apart(
            a,
            Claim { upload_id, start_byte: part.start_byte, end_byte: part.end_byte },
        ),
    ensures
        step_ok(with_recorded(store, upload_id, part), other),
{
    let after = with_recorded(store, upload_id, part);
    if let Some(mine) = claim(other) {
        let before = store.parts_of(mine.upload_id);
        let now = after.parts_of(mine.upload_id);
        if mine.upload_id == upload_id {
            with_part_adds(before, part);
            no_overlap(before, mine.start_byte, mine.end_byte);
            no_overlap(now, mine.start_byte, mine.end_byte);
            if overlap_count(before, mine.start_byte, mine.end_byte) == 0 {
                assert forall|i: int| 0 <= i < now.len() implies !overlaps(
                    #[trigger] now[i],
                    mine.start_byte,
                    mine.end_byte,
                ) by {
                    assert(now.contains(now[i]));
                    if now[i] != part {
                        let j = choose|j: int| 0 <= j < before.len() && before[j] == now[i];
                        assert(!overlaps(before[j], mine.start_byte, mine.end_byte));
                    }
                }
            }
        } else {
            assert(now == before);
        }
    }
}

/// Counting the received bytes anew leaves the uploads sound, and every request
/// where it was.
pub proof fn counting_leaves(store: Store, upload_id: Seq<char>, received_bytes: i64, at: Seq<char>)
    requires
        uploads_sound(store),
        store.sessions.contains_key(upload_id),
    ensures
        ({
            let action = UploadAction::SetReceived { upload_id, received_bytes, at };
            let after = store.perform(action).0;
            &&& uploads_sound(after)
            &&& after.parts == store.parts
            &&& forall|other: ChunkStepModel| #[trigger]
                step_ok(store, other) ==> step_ok(after, other)
        }),
{
    let action = UploadAction::SetReceived { upload_id, received_bytes, at };
    let after = store.perform(action).0;
    assert forall|id: Seq<char>| #[trigger] after.parts_of(id) == store.parts_of(id) by {}
    assert forall|id: Seq<char>| #[trigger] after.sessions.contains_key(id) implies session_sound(
        after,
        id,
    ) by {
        assert(session_sound(store, id));
    }
    assert forall|a: Seq<char>, b: Seq<char>, key: Seq<char>| #[trigger]
        after.has_key(a, key) && #[trigger] after.has_key(b, key) implies a == b by {
        assert(store.has_key(a, key));
        assert(store.has_key(b, key));
    }
    assert forall|other: ChunkStepModel| #[trigger] step_ok(store, other) implies step_ok(
        after,
        other,
    ) by {}
}

/// The messages and the stored files are the same.
pub open spec fn same_messages(before: Store, after: Store) -> bool {
    &&& after.messages == before.messages
    &&& after.last_id == before.last_id
    &&& after.files == before.files
}

/// Whichever of the requests goes on, the uploads stay sound, every request stays
/// where it may be, no part is lost, and a part that was recorded is there.
pub proof fn parallel_requests_do_no_harm(p: Parallel, k: int, now: Seq<char>)
    requires
        parallel_ok(p),
        0 <= k < p.steps.len(),
    ensures
        parallel_ok(advance(p, k, now)),
        p.steps[k] matches Step::Ask(state, action) ==> chunk_accepts(
            state,
            p.store.perform(action).1,
        ),
        forall|id: Seq<char>, part: Part| #[trigger]
            p.store.parts_of(id).contains(part) ==> advance(p, k, now).store.parts_of(
                id,
            ).contains(part),
        p.steps[k] matches Step::Ask(
            state,
            UploadAction::InsertPart { upload_id, part, .. },
        ) ==> advance(p, k, now).store.parts_of(upload_id).contains(part),
        same_messages(p.store, advance(p, k, now).store),
{
    if let Step::Ask(state, action) = p.steps[k] {
        let store = p.store;
        let after = advance(p, k, now);
        assert(step_ok(store, p.steps[k]));
        match state {
            ChunkState::Writing { upload_id, part, size, file_size } => {
                if let UploadAction::WriteTemp { temp_path, start_byte, data } = action {
                    writing_leaves(store, upload_id, part, data);
                    assert(after.store == written(store, upload_id, start_byte as int, data));
                    assert forall|id: Seq<char>| #[trigger]
                        after.store.parts_of(id) == store.parts_of(id) by {}
                    assert forall|i: int| 0 <= i < p.steps.len() implies step_ok(
                        after.store,
                        #[trigger] after.steps[i],
                    ) by {
                        if i != k {
                            others_after_writing(store, upload_id, part, data, p.steps[i]);
                        }
                    }
                }
            },
            ChunkState::Recording { upload_id, file_size } => {
                if let UploadAction::InsertPart { part, .. } = action {
                    recording_leaves(store, upload_id, part);
                    with_part_adds(store.parts_of(upload_id), part);
                    assert(after.store == with_recorded(store, upload_id, part));
                    assert forall|i: int| 0 <= i < p.steps.len() implies step_ok(
                        after.store,
                        #[trigger] after.steps[i],
                    ) by {
                        if i != k {
                            others_after_recording(store, upload_id, part, p.steps[i]);
                        }
                    }
                }
            },
            ChunkState::Updating { upload_id, .. } => {
                if let UploadAction::SetReceived { received_bytes, at, .. } = action {
                    counting_leaves(store, upload_id, received_bytes, at);
                    assert forall|i: int| 0 <= i < p.steps.len() implies step_ok(
                        after.store,
                        #[trigger] after.steps[i],
                    ) by {
                        if i != k {
                            assert(step_ok(store, p.steps[i]));
                        }
                    }
                }
            },
            _ => {
                reading_step(store, state, action, now);
                assert forall|i: int| 0 <= i < p.steps.len() implies step_ok(
                    after.store,
                    #[trigger] after.steps[i],
                ) by {
                    if i != k {
                        assert(step_ok(store, p.steps[i]));
                    }
                }
            },
        }
        let next = after.steps[k];
        assert(claim(next) is None || claim(next) == claim(p.steps[k]));
        assert forall|i: int, j: int|
            0 <= i < after.steps.len() && 0 <= j < after.steps.len() && i != j implies (claim(
            #[trigger] after.steps[i],
        ) matches Some(a) ==> claim(#[trigger] after.steps[j]) matches Some(b) ==> apart(a, b)) by {
            assert(claim(after.steps[i]) is None || claim(after.steps[i]) == claim(p.steps[i]));
            assert(claim(after.steps[j]) is None || claim(after.steps[j]) == claim(p.steps[j]));
        }
    }
}

/// What the request has still to write or to record of the upload are bytes of
/// the file, at the place where they stand in it.
pub open spec fn brings(
    store: Store,
    step: ChunkStepModel,
    upload_id: Seq<char>,
    file: Seq<u8>,
) -> bool {
    match step {
        Step::Ask(state, action) => match state {
            ChunkState::Opening { request } => is_of(request, upload_id, file),
            ChunkState::FindingSession { request } => is_of(request, upload_id, file),
            ChunkState::FindingPart { request, .. } => is_of(request, upload_id, file),
            ChunkState::CountingOverlaps { request, .. } => is_of(request, upload_id, file),
            ChunkState::Writing { upload_id: id, part, .. } => id == upload_id ==> {
                &&& action matches UploadAction::WriteTemp { data, .. }
                &&& data == file.subrange(part.start_byte as int, part.end_byte as int)
            },
            ChunkState::Recording { upload_id: id, .. } => id == upload_id ==> {
                &&& action matches UploadAction::InsertPart { part, .. }
                &&& store.temps[store.sessions[upload_id].row.temp_path].subrange(
                    part.start_byte as int,
                    part.end_byte as int,
                ) == file.subrange(part.start_byte as int, part.end_byte as int)
            },
            _ => true,
        },
        _ => true,
    }
}

/// If the request is for the upload and within the file, it holds bytes of the
/// file.
pub open spec fn is_of(request: SentChunk, upload_id: Seq<char>, file: Seq<u8>) -> bool {
    request.upload_id == upload_id && request.end_byte <= file.len() ==> request.data
        == file.subrange(request.start_byte as int, request.end_byte as int)
}

/// A request that holds bytes of the file brings them.
pub proof fn request_brings_the_file(
    store: Store,
    headers: Headers,
    body: Seq<u8>,
    upload_id: Seq<char>,
    file: Seq<u8>,
)
    requires
        sent_chunk(headers, body) matches Ok(chunk) ==> is_of(chunk, upload_id, file),
    ensures
        brings(store, chunk_start(headers, body), upload_id, file),
{
}

/// Writing bytes of the file leaves an upload carrying it, and the others as they
/// are.
proof fn writing_carries(
    store: Store,
    id: Seq<char>,
    part: Part,
    data: Seq<u8>,
    upload_id: Seq<char>,
    file: Seq<u8>,
)
    requires
        uploads_sound(store),
        store.sessions.contains_key(id),
        fits_in(store, id, part, store.sessions[id].row.file_size),
        data.len() == part.end_byte - part.start_byte,
        carries(store, upload_id, file),
    ensures
        carries(written(store, id, part.start_byte as int, data), upload_id, file),
{
    let after = written(store, id, part.start_byte as int, data);
    let row = store.sessions[upload_id].row;
    let parts = store.parts_of(upload_id);
    assert(after.parts_of(upload_id) == parts);
    assert(session_sound(store, id));
    assert(session_sound(store, upload_id));
    if id == upload_id {
        let content = store.temps[row.temp_path];
        no_overlap(parts, part.start_byte, part.end_byte);
        assert forall|i: int| 0 <= i < parts.len() implies after.temps[row.temp_path].subrange(
            (#[trigger] parts[i]).start_byte as int,
            parts[i].end_byte as int,
        ) == file.subrange(parts[i].start_byte as int, parts[i].end_byte as int) by {
            assert(holds(content, parts[i]));
            assert(!overlaps(parts[i], part.start_byte, part.end_byte));
            write_at_range(
                content,
                part.start_byte as int,
                data,
                parts[i].start_byte as int,
                parts[i].end_byte as int,
            );
        }
    } else if row.temp_path == store.sessions[id].row.temp_path {
        temp_paths_differ(store.temp_dir, upload_id, id);
    }
}

proof fn others_bring_after_writing(
    store: Store,
    id: Seq<char>,
    part: Part,
    data: Seq<u8>,
    other: ChunkStepModel,
    upload_id: Seq<char>,
    file: Seq<u8>,
)
    requires
        uploads_sound(store),
        store.sessions.contains_key(id),
        fits_in(store, id, part, store.sessions[id].row.file_size),
        data.len() == part.end_byte - part.start_byte,
        step_ok(store, other),
        claim(other) matches Some(a) ==> apart(
            a,
            Claim { upload_id: id, start_byte: part.start_byte, end_byte: part.end_byte },
        ),
        brings(store, other, upload_id, file),
    ensures
        brings(written(store, id, part.start_byte as int, data), other, upload_id, file),
{
    if let Step::Ask(ChunkState::Recording { upload_id: mine, file_size }, action) = other {
        if mine == upload_id {
            if let UploadAction::InsertPart { part: theirs, .. } = action {
                assert(session_sound(store, id));
                assert(session_sound(store, upload_id));
                let path = store.sessions[upload_id].row.temp_path;
                if id == upload_id {
                    write_at_range(
                        store.temps[path],
                        part.start_byte as int,
                        data,
                        theirs.start_byte as int,
                        theirs.end_byte as int,
                    );
                } else if path == store.sessions[id].row.temp_path {
                    temp_paths_differ(store.temp_dir, upload_id, id);
                }
            }
        }
    }
}

/// Recording a part of the file leaves an upload carrying it.
proof fn recording_carries(
    store: Store,
    id: Seq<char>,
    part: Part,
    upload_id: Seq<char>,
    file: Seq<u8>,
)
    requires
        carries(store, upload_id, file),
        id == upload_id ==> store.temps[store.sessions[upload_id].row.temp_path].subrange(
            part.start_byte as int,
            part.end_byte as int,
        ) == file.subrange(part.start_byte as int, part.end_byte as int),
    ensures
        carries(with_recorded(store, id, part), upload_id, file),
{
    let after = with_recorded(store, id, part);
    let parts = store.parts_of(upload_id);
    let all = after.parts_of(upload_id);
    let content = store.temps[store.sessions[upload_id].row.temp_path];
    if id == upload_id {
        with_part_adds(parts, part);
        assert forall|i: int| 0 <= i < all.len() implies content.subrange(
            (#[trigger] all[i]).start_byte as int,
            all[i].end_byte as int,
        ) == file.subrange(all[i].start_byte as int, all[i].end_byte as int) by {
            assert(all.contains(all[i]));
            if all[i] != part {
                let j = choose|j: int| 0 <= j < parts.len() && parts[j] == all[i];
                assert(content.subrange(
                    parts[j].start_byte as int,
                    parts[j].end_byte as int,
                ) == file.subrange(parts[j].start_byte as int, parts[j].end_byte as int));
            }
        }
    } else {
        assert(all == parts);
    }
}

/// Requests that bring parts of a file at the same time leave the upload carrying
/// the file, whichever of them goes on.
pub proof fn parallel_parts_of_a_file(
    p: Parallel,
    k: int,
    now: Seq<char>,
    upload_id: Seq<char>,
    file: Seq<u8>,
)
    requires
        parallel_ok(p),
        0 <= k < p.steps.len(),
        carries(p.store, upload_id, file),
        forall|i: int|
            0 <= i < p.steps.len() ==> brings(p.store, #[trigger] p.steps[i], upload_id, file),
    ensures
        carries(advance(p, k, now).store, upload_id, file),
        forall|i: int|
            0 <= i < p.steps.len() ==> brings(
                advance(p, k, now).store,
                #[trigger] advance(p, k, now).steps[i],
                upload_id,
                file,
            ),
{
    let after = advance(p, k, now);
    let store = p.store;
    if let Step::Ask(state, action) = p.steps[k] {
        assert(step_ok(store, p.steps[k]));
        assert(brings(store, p.steps[k], upload_id, file));
        match state {
            ChunkState::Writing { upload_id: id, part, size, file_size } => {
                if let UploadAction::WriteTemp { temp_path, start_byte, data } = action {
                    writing_leaves(store, id, part, data);
                    writing_carries(store, id, part, data, upload_id, file);
                    assert(after.store == written(store, id, start_byte as int, data));
                    assert forall|i: int| 0 <= i < p.steps.len() implies brings(
                        after.store,
                        #[trigger] after.steps[i],
                        upload_id,
                        file,
                    ) by {
                        if i != k {
                            assert(step_ok(store, p.steps[i]));
                            others_bring_after_writing(
                                store,
                                id,
                                part,
                                data,
                                p.steps[i],
                                upload_id,
                                file,
                            );
                        }
                    }
                }
            },
            ChunkState::Recording { upload_id: id, file_size } => {
                if let UploadAction::InsertPart { part, .. } = action {
                    recording_leaves(store, id, part);
                    recording_carries(store, id, part, upload_id, file);
                    assert(after.store == with_recorded(store, id, part));
                    assert forall|i: int| 0 <= i < p.steps.len() implies brings(
                        after.store,
                        #[trigger] after.steps[i],
                        upload_id,
                        file,
                    ) by {
                        if i != k {
                            assert(brings(store, p.steps[i], upload_id, file));
                        }
                    }
                }
            },
            ChunkState::Updating { upload_id: id, .. } => {
                assert(after.store.parts_of(upload_id) == store.parts_of(upload_id));
                assert forall|i: int| 0 <= i < p.steps.len() implies brings(
                    after.store,
                    #[trigger] after.steps[i],
                    upload_id,
                    file,
                ) by {
                    if i != k {
                        assert(brings(store, p.steps[i], upload_id, file));
                    }
                }
            },
            _ => {
                reading_step(store, state, action, now);
                assert forall|i: int| 0 <= i < p.steps.len() implies brings(
                    after.store,
                    #[trigger] after.steps[i],
                    upload_id,
                    file,
                ) by {
                    if i != k {
                        assert(brings(store, p.steps[i], upload_id, file));
                    }
                }
            },
        }
    }
}

} // verus!
