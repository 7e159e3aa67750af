//! What a client tells of a file when it begins an upload is what the message of
//! the file tells in the end.
use vstd::prelude::*;

use crate::history::{after_all, all_possible, changed, every_change_keeps_the_store_ok};
use crate::history::{possible, store_ok, Change};
use crate::download::asked;
use crate::download_laws::{run_download, Reading};
use crate::error::Refusal;
use crate::headers::{header_text, Headers};
use crate::message::MessageDto;
use crate::outside::{hex_digit, sha256};
use crate::parts::{total_bytes, UploadedPart};
use crate::request_laws::{bytes_of_a_file_are_sent, ChunkGoes, InitGoes};
use crate::step::{run, Step};
use crate::store::{find_file, Store};
use crate::text::decimal;
use crate::upload::{Action, Event, UploadAction};
use crate::served_laws::{brings_all, whole_file_is_sent};
use crate::session_laws::ascii_bytes;
use crate::shown_laws::rows_are_shown_as_they_are;
use crate::stamp::checksum;
use crate::upload_answers::{another_file_takes_the_place, is_complete, is_fresh};
use crate::upload_answers::{counts, new_file_begins_an_upload, new_part_is_taken_in};
use crate::upload_answers::{same_file_goes_on, touches};
use crate::upload_cancel::{cancel_next, cancel_start, Cancel, UploadCancelResponse};
use crate::upload_chunk::{chunk_next, chunk_start, sent_chunk, Chunk};
use crate::upload_complete::{complete_next, complete_start, Complete};
use crate::upload_init::{init_next, init_start, Init, InitRequest};
use crate::upload_laws::{complete_effect, complete_runs, init_runs, is_new, run_complete};
use crate::upload_laws::{run_init, session_sound, uploads_sound};
use crate::upload_laws::{chunk_runs, run_chunk, upload_with_key};
use crate::upload_promises::{carries, chunk_of_file_carries, completed_file_is_what_was_sent};

verus! {

/// The upload has the name, the size and the type that the client told.
pub open spec fn tells(store: Store, upload_id: Seq<char>, request: InitRequest) -> bool {
    &&& store.sessions.contains_key(upload_id)
    &&& store.sessions[upload_id].file_key == request.file_key
    &&& store.sessions[upload_id].row.file_name == request.file_name
    &&& store.sessions[upload_id].row.file_size == request.file_size
    &&& store.sessions[upload_id].row.mime_type == request.mime_type
}

/// An upload that is there afterwards was there before, for the same file.
spec fn not_retold(before: Store, after: Store, upload_id: Seq<char>) -> bool {
    after.sessions.contains_key(upload_id) ==> forall|request: InitRequest| #[trigger]
        tells(before, upload_id, request) ==> tells(after, upload_id, request)
}

/// The action makes no upload of that name.
spec fn makes_no(action: Action, upload_id: Seq<char>) -> bool {
    action matches UploadAction::InsertSession { upload_id: made, .. } ==> made != upload_id
}

proof fn actions_do_not_retell(store: Store, action: Action, upload_id: Seq<char>)
    requires
        makes_no(action, upload_id),
    ensures
        not_retold(store, store.perform(action).0, upload_id),
        store.perform(action).0.sessions.contains_key(upload_id) ==> store.sessions.contains_key(
            upload_id,
        ),
{
}

/// The state belongs to the action, and no upload of the name `upload_id` is made.
spec fn init_goes(step: InitGoes, upload_id: Seq<char>) -> bool {
    step matches Step::Ask(state, action) ==> makes_no(action, upload_id) && match state {
        Init::Opening { token, .. } => action is OpenStore && token != upload_id,
        Init::Finding { token, .. } => action is FindSessionByKey && token != upload_id,
        Init::Loading { .. } => action is LoadParts,
        Init::Updating { .. } => action is SetReceived,
        Init::DroppingSession { token, .. } => action is DeleteSession && token != upload_id,
        Init::DroppingParts { token, .. } => action is DeleteParts && token != upload_id,
        Init::DroppingTemp { token, .. } => action is RemoveTemp && token != upload_id,
        Init::Creating { token, .. } => action is CreateTemp && token != upload_id,
        Init::Inserting { .. } => action is InsertSession,
    }
}

proof fn init_does_not_retell(
    store: Store,
    step: InitGoes,
    now: Seq<char>,
    actions: nat,
    upload_id: Seq<char>,
)
    requires
        init_goes(step, upload_id),
    ensures
        ({
            let after = run(
                store,
                step,
                |store: Store, action: Action| store.perform(action),
                |state: Init, event: Event| init_next(state, event, now),
                actions,
            ).0;
            &&& not_retold(store, after, upload_id)
            &&& after.sessions.contains_key(upload_id) ==> store.sessions.contains_key(upload_id)
        }),
    decreases actions,
{
    if let Step::Ask(state, action) = step {
        if actions > 0 {
            actions_do_not_retell(store, action, upload_id);
            let (after, event) = store.perform(action);
            init_does_not_retell(
                after,
                init_next(state, event, now),
                now,
                (actions - 1) as nat,
                upload_id,
            );
        }
    }
}

spec fn chunk_goes(step: ChunkGoes) -> bool {
    step matches Step::Ask(state, action) ==> match state {
        Chunk::Opening { .. } => action is OpenStore,
        Chunk::FindingSession { .. } => action is FindSession,
        Chunk::FindingPart { .. } => action is FindPart,
        Chunk::Recounting { .. } => action is LoadParts,
        Chunk::CountingOverlaps { .. } => action is CountOverlaps,
        Chunk::Writing { .. } => action is WriteTemp,
        Chunk::Recording { .. } => action is InsertPart,
        Chunk::Loading { .. } => action is LoadParts,
        Chunk::Updating { .. } => action is SetReceived,
    }
}

proof fn chunk_does_not_retell(
    store: Store,
    step: ChunkGoes,
    now: Seq<char>,
    actions: nat,
    upload_id: Seq<char>,
)
    requires
        chunk_goes(step),
    ensures
        ({
            let after = run(
                store,
                step,
                |store: Store, action: Action| store.perform(action),
                |state: Chunk, event: Event| chunk_next(state, event, now),
                actions,
            ).0;
            &&& not_retold(store, after, upload_id)
            &&& after.sessions.contains_key(upload_id) ==> store.sessions.contains_key(upload_id)
        }),
    decreases actions,
{
    if let Step::Ask(state, action) = step {
        if actions > 0 {
            actions_do_not_retell(store, action, upload_id);
            let (after, event) = store.perform(action);
            chunk_does_not_retell(
                after,
                chunk_next(state, event, now),
                now,
                (actions - 1) as nat,
                upload_id,
            );
        }
    }
}

/// How a request that completes an upload goes on.
pub type CompleteGoes = Step<Complete, Action, MessageDto<Seq<char>>, Refusal>;

/// How a request that gives up an upload goes on.
pub type CancelGoes = Step<Cancel, Action, UploadCancelResponse, Refusal>;

spec fn complete_goes(step: CompleteGoes) -> bool {
    step matches Step::Ask(state, action) ==> match state {
        Complete::Opening { .. } => action is OpenStore,
        Complete::FindingSession { .. } => action is FindSession,
        Complete::Loading { .. } => action is LoadParts,
        Complete::Renaming { .. } => action is RenameTemp,
        Complete::Copying { .. } => action is CopyTemp,
        Complete::Discarding { .. } => action is RemoveTemp,
        Complete::Inserting { .. } => action is InsertFile,
        Complete::DroppingSession { .. } => action is DeleteSession,
        Complete::DroppingParts { .. } => action is DeleteParts,
        Complete::Showing => action is FindMessage,
    }
}

proof fn complete_does_not_retell(
    store: Store,
    step: CompleteGoes,
    now: Seq<char>,
    actions: nat,
    upload_id: Seq<char>,
)
    requires
        complete_goes(step),
    ensures
        ({
            let after = run(
                store,
                step,
                |store: Store, action: Action| store.perform(action),
                |state: Complete, event: Event| complete_next(state, event, now),
                actions,
            ).0;
            &&& not_retold(store, after, upload_id)
            &&& after.sessions.contains_key(upload_id) ==> store.sessions.contains_key(upload_id)
        }),
    decreases actions,
{
    if let Step::Ask(state, action) = step {
        if actions > 0 {
            actions_do_not_retell(store, action, upload_id);
            let (after, event) = store.perform(action);
            complete_does_not_retell(
                after,
                complete_next(state, event, now),
                now,
                (actions - 1) as nat,
                upload_id,
            );
        }
    }
}

spec fn cancel_goes(step: CancelGoes) -> bool {
    step matches Step::Ask(state, action) ==> !(action is InsertSession)
}

proof fn cancel_does_not_retell(
    store: Store,
    step: CancelGoes,
    actions: nat,
    upload_id: Seq<char>,
)
    requires
        cancel_goes(step),
    ensures
        ({
            let after = run(
                store,
                step,
                |store: Store, action: Action| store.perform(action),
                |state: Cancel, event: Event| cancel_next(state, event),
                actions,
            ).0;
            &&& not_retold(store, after, upload_id)
            &&& after.sessions.contains_key(upload_id) ==> store.sessions.contains_key(upload_id)
        }),
    decreases actions,
{
    if let Step::Ask(state, action) = step {
        if actions > 0 {
            actions_do_not_retell(store, action, upload_id);
            let (after, event) = store.perform(action);
            cancel_does_not_retell(
                after,
                cancel_next(state, event),
                (actions - 1) as nat,
                upload_id,
            );
        }
    }
}

/// Whatever is asked for, and wherever a request is broken off: as long as an
/// upload is there, it has the key, the name, the size and the type that it began
/// with.
pub proof fn what_was_told_lasts(
    store: Store,
    change: Change,
    upload_id: Seq<char>,
    request: InitRequest,
)
    requires
        uploads_sound(store),
        possible(store, change),
        tells(store, upload_id, request),
        changed(store, change).sessions.contains_key(upload_id),
    ensures
        tells(changed(store, change), upload_id, request),
{
    match change {
        Change::BrokenOffInit { request: begun, token, now, actions } => {
            let step = init_start(begun, token);
            init_does_not_retell(store, step, now, actions, upload_id);
        },
        Change::BrokenOffChunk { headers, body, now, actions } => {
            chunk_does_not_retell(store, chunk_start(headers, body), now, actions, upload_id);
        },
        Change::BrokenOffComplete { upload_id: id, file_id, now, actions } => {
            complete_does_not_retell(store, complete_start(id, file_id), now, actions, upload_id);
        },
        Change::BrokenOffCancel { upload_id: id, actions } => {
            cancel_does_not_retell(store, cancel_start(id), actions, upload_id);
        },
        _ => {},
    }
}

/// The upload is there, all the time while the requests are worked off.
pub open spec fn stays_open(store: Store, changes: Seq<Change>, upload_id: Seq<char>) -> bool
    decreases changes.len(),
{
    &&& after_all(store, changes).sessions.contains_key(upload_id)
    &&& changes.len() > 0 ==> stays_open(store, changes.drop_last(), upload_id)
}

/// However many requests are worked off or broken off while an upload is open, it
/// has what the client told when it began it.
pub proof fn what_was_told_lasts_through(
    store: Store,
    changes: Seq<Change>,
    upload_id: Seq<char>,
    request: InitRequest,
)
    requires
        store_ok(store),
        all_possible(store, changes),
        tells(store, upload_id, request),
        stays_open(store, changes, upload_id),
    ensures
        tells(after_all(store, changes), upload_id, request),
        store_ok(after_all(store, changes)),
    decreases changes.len(),
{
    if changes.len() > 0 {
        let head = changes.drop_last();
        what_was_told_lasts_through(store, head, upload_id, request);
        what_was_told_lasts(after_all(store, head), changes.last(), upload_id, request);
        every_change_keeps_the_store_ok(after_all(store, head), changes.last());
    }
}

/// The message of an uploaded file has the name, the size and the type that the
/// client told when it began the upload, whatever they are and whatever happened
/// in between. Only where no type was told it is `application/octet-stream`. So
/// has the answer to the request that completes the upload.
pub proof fn message_tells_what_the_client_told(
    store: Store,
    request: InitRequest,
    upload_id: Seq<char>,
    begun: Seq<char>,
    changes: Seq<Change>,
    file_id: Seq<char>,
    now: Seq<char>,
)
    requires
        store_ok(store),
        is_complete(request),
        is_new(store, upload_id),
        run_init(store, request, upload_id, begun).1 matches Step::Reply(answer)
            && answer.upload_id == upload_id,
        ({
            let start = run_init(store, request, upload_id, begun).0;
            let before = after_all(start, changes);
            &&& all_possible(start, changes)
            &&& stays_open(start, changes, upload_id)
            &&& before.has_room()
            &&& find_file(before.messages, file_id) is None
            &&& run_complete(before, upload_id, file_id, now).1 is Reply
        }),
    ensures
        ({
            let start = run_init(store, request, upload_id, begun).0;
            let before = after_all(start, changes);
            let (after, end) = run_complete(before, upload_id, file_id, now);
            let row = after.messages.last();
            let answer = end->Reply_0;
            &&& after.messages == before.messages.push(row)
            &&& row.file_id == Some(file_id) && answer.file_id == Some(file_id)
            &&& row.file_name == Some(request.file_name)
            &&& answer.file_name == Some(request.file_name)
            &&& row.file_size == Some(request.file_size)
            &&& answer.file_size == Some(request.file_size)
            &&& request.mime_type is Some ==> row.mime_type == request.mime_type
                && answer.mime_type == request.mime_type
            &&& request.mime_type is None ==> row.mime_type == Some("application/octet-stream"@)
                && answer.mime_type == Some("application/octet-stream"@)
        }),
{
    let start = run_init(store, request, upload_id, begun).0;
    init_runs(store, request, upload_id, begun);
    let change = Change::Init { request, token: upload_id };
    assert(changed(store, change) == start);
    every_change_keeps_the_store_ok(store, change);
    if exists|id: Seq<char>| #[trigger] store.has_key(id, request.file_key) {
        let id = upload_with_key(store, request.file_key);
        assert(store.has_key(id, request.file_key));
        if store.sessions[id].row.file_name == request.file_name && store.sessions[id].row.file_size
            == request.file_size {
            same_file_goes_on(store, request, id, upload_id, begun);
        } else {
            another_file_takes_the_place(store, request, id, upload_id, begun);
        }
    } else {
        new_file_begins_an_upload(store, request, upload_id, begun);
    }
    assert(is_fresh(start, upload_id, request));
    assert(tells(start, upload_id, request));
    what_was_told_lasts_through(start, changes, upload_id, request);
    let before = after_all(start, changes);
    complete_runs(before, upload_id, file_id, now);
    assert(complete_effect(before, upload_id, file_id, now).1 is Ok);
    let after = run_complete(before, upload_id, file_id, now).0;
    rows_are_shown_as_they_are(after.messages.last());
}

proof fn checksums_are_visible(data: Seq<u8>)
    ensures
        forall|i: int|
            0 <= i < checksum(data).len() ==> ' ' <= #[trigger] checksum(data)[i] <= '~',
{
    let digest = sha256(data);
    assert forall|i: int| 0 <= i < checksum(data).len() implies ' ' <= #[trigger] checksum(data)[i]
        <= '~' by {
        let half = if i % 2 == 0 {
            digest[i / 2] / 16
        } else {
            digest[i / 2] % 16
        };
        assert(checksum(data)[i] == hex_digit(half as nat));
    }
}

/// A client that sends the bytes `a..b` of its file, the place `a` in decimal and
/// their checksum adds just these bytes to the upload, wherever they lie and
/// however many they are, where none of them was received yet: they stand in the
/// temporary file at their place, and the answer counts them.
pub proof fn sent_bytes_are_taken_in(
    store: Store,
    headers: Headers,
    upload_id: Seq<char>,
    file: Seq<u8>,
    a: int,
    b: int,
    now: Seq<char>,
)
    requires
        uploads_sound(store),
        carries(store, upload_id, file),
        forall|i: int| 0 <= i < upload_id.len() ==> ' ' <= #[trigger] upload_id[i] <= '~',
        headers.upload_id == Some(ascii_bytes(upload_id)),
        headers.start_byte == Some(ascii_bytes(decimal(a as nat))),
        headers.chunk_sha256 == Some(ascii_bytes(checksum(file.subrange(a, b)))),
        0 <= a < b <= file.len(),
        !touches(store.parts_of(upload_id), a, b),
    ensures
        ({
            let (after, end) = run_chunk(store, headers, file.subrange(a, b), now);
            let path = store.sessions[upload_id].row.temp_path;
            &&& counts(
                end,
                upload_id,
                total_bytes(store.parts_of(upload_id)) + (b - a),
                file.len() as int,
            )
            &&& after.temps[path].subrange(a, b) == file.subrange(a, b)
            &&& after.parts_of(upload_id).contains(
                UploadedPart {
                    start_byte: a as i64,
                    end_byte: b as i64,
                    checksum: checksum(file.subrange(a, b)),
                },
            )
            &&& carries(after, upload_id, file)
        }),
{
    let body = file.subrange(a, b);
    assert(session_sound(store, upload_id));
    checksums_are_visible(body);
    bytes_of_a_file_are_sent(headers, upload_id, checksum(body), file, a, b);
    let chunk = sent_chunk(headers, body)->Ok_0;
    new_part_is_taken_in(store, headers, body, now, chunk);
    chunk_runs(store, headers, body, now);
    chunk_of_file_carries(store, chunk, file);
}

/// A file that was uploaded is handed out by its link byte for byte, with the type
/// and under the name that the client told when it began the upload.
pub proof fn uploaded_file_is_served_as_it_was_told(
    reading: Reading,
    request: InitRequest,
    upload_id: Seq<char>,
    file_id: Seq<char>,
    now: Seq<char>,
    file: Seq<u8>,
    headers: Headers,
    download: Option<Seq<char>>,
)
    requires
        store_ok(reading.store),
        reading.store.has_room(),
        find_file(reading.store.messages, file_id) is None,
        tells(reading.store, upload_id, request),
        carries(reading.store, upload_id, file),
        run_complete(reading.store, upload_id, file_id, now).1 is Reply,
        header_text(headers.range) is None,
    ensures
        ({
            let store = run_complete(reading.store, upload_id, file_id, now).0;
            let row = store.messages.last();
            let end = run_download(
                Reading { store, ..reading },
                asked(file_id, headers, download),
            );
            &&& row.file_name == Some(request.file_name)
            &&& row.mime_type == Some(
                match request.mime_type {
                    Some(mime_type) => mime_type,
                    None => "application/octet-stream"@,
                },
            )
            &&& brings_all(end, file, row, download)
        }),
{
    complete_runs(reading.store, upload_id, file_id, now);
    completed_file_is_what_was_sent(reading.store, upload_id, file_id, now, file);
    let store = run_complete(reading.store, upload_id, file_id, now).0;
    let row = store.messages.last();
    assert(find_file(store.messages, file_id) == Some(row));
    whole_file_is_sent(Reading { store, ..reading }, file_id, headers, download, row, file);
}

} // verus!
