//! What is left of an upload when a request is broken off on its way.
use vstd::prelude::*;

use crate::error::Refusal;
use crate::headers::Headers;
use crate::message::MessageDto;
use crate::message_laws::{file_keeps_messages_ok, messages_ok};
use crate::parallel::{advance, brings, is_of, parallel_parts_of_a_file, step_ok};
use crate::parallel::{counting_leaves, same_messages, ChunkStepModel, Parallel};
use crate::parallel::{parallel_requests_do_no_harm, request_brings_the_file};
use crate::parts::Part;
use crate::post::IncomingFile;
use crate::step::{run, Step};
use crate::store::{find_file, Store};
use crate::upload::{Action, Event, SessionRow, UploadAction};
use crate::upload_cancel::{cancel_next, cancel_start, Cancel, CancelState, UploadCancelResponse};
use crate::upload_chunk::{chunk_next, chunk_start, end_fits, sent_chunk, Chunk};
use crate::upload_complete::{complete_next, complete_start, parts_refusal, Complete};
use crate::upload_complete::CompleteState;
use crate::upload_init::{continues, init_next, init_refusal, init_start, temp_name, Init};
use crate::upload_init::{InitRequest, InitResponse, InitState, UploadInitRequest};
use crate::upload_laws::{is_new, sent_chunk_ok, session_sound, temp_paths_differ, uploads_sound};
use crate::upload_laws::with_upload;
use crate::upload_promises::{carries, with_upload_sound};

verus! {

/// What is stored after `actions` actions of a request that brings a part.
pub open spec fn broken_off_chunk(
    store: Store,
    headers: Headers,
    body: Seq<u8>,
    now: Seq<char>,
    actions: nat,
) -> Store {
    run(
        store,
        chunk_start(headers, body),
        |store: Store, action: Action| store.perform(action),
        |state: Chunk, event: Event| chunk_next(state, event, now),
        actions,
    ).0
}

/// A request that brings a part leaves the uploads sound, however far it goes.
proof fn chunk_on_its_way(
    store: Store,
    step: ChunkStepModel,
    now: Seq<char>,
    actions: nat,
    upload_id: Seq<char>,
    file: Seq<u8>,
)
    requires
        uploads_sound(store),
        step_ok(store, step),
    ensures
        ({
            let after = run(
                store,
                step,
                |store: Store, action: Action| store.perform(action),
                |state: Chunk, event: Event| chunk_next(state, event, now),
                actions,
            ).0;
            &&& uploads_sound(after)
            &&& same_messages(store, after)
            &&& forall|id: Seq<char>, part: Part| #[trigger]
                store.parts_of(id).contains(part) ==> after.parts_of(id).contains(part)
            &&& carries(store, upload_id, file) && brings(store, step, upload_id, file)
                ==> carries(after, upload_id, file)
        }),
    decreases actions,
{
    if step is Ask && actions > 0 {
        let p = Parallel { store, steps: seq![step] };
        assert(p.steps[0] == step);
        parallel_requests_do_no_harm(p, 0, now);
        let next = advance(p, 0, now);
        if carries(store, upload_id, file) && brings(store, step, upload_id, file) {
            parallel_parts_of_a_file(p, 0, now, upload_id, file);
            assert(brings(next.store, next.steps[0], upload_id, file));
        }
        assert(step_ok(next.store, next.steps[0]));
        chunk_on_its_way(next.store, next.steps[0], now, (actions - 1) as nat, upload_id, file);
        assert forall|id: Seq<char>, part: Part| #[trigger]
            store.parts_of(id).contains(part) implies next.store.parts_of(id).contains(part) by {
            assert(p.store.parts_of(id).contains(part));
        }
    }
}

/// However early a request that brings a part is broken off, every upload stays
/// sound: what is recorded as received is stored, and nothing that was received
/// before is lost.
pub proof fn broken_off_chunk_leaves_uploads_sound(
    store: Store,
    headers: Headers,
    body: Seq<u8>,
    now: Seq<char>,
    actions: nat,
)
    requires
        uploads_sound(store),
        end_fits(headers, body.len() as int),
    ensures
        uploads_sound(broken_off_chunk(store, headers, body, now, actions)),
        same_messages(store, broken_off_chunk(store, headers, body, now, actions)),
        forall|id: Seq<char>, part: Part| #[trigger]
            store.parts_of(id).contains(part) ==> broken_off_chunk(
                store,
                headers,
                body,
                now,
                actions,
            ).parts_of(id).contains(part),
{
    sent_chunk_ok(headers, body);
    let step = chunk_start(headers, body);
    chunk_on_its_way(store, step, now, actions, Seq::empty(), Seq::empty());
}

/// However early a request that brings bytes of the file is broken off, the
/// upload carries the file as before; and so does every other upload.
pub proof fn broken_off_chunk_carries(
    store: Store,
    headers: Headers,
    body: Seq<u8>,
    now: Seq<char>,
    actions: nat,
    upload_id: Seq<char>,
    file: Seq<u8>,
)
    requires
        uploads_sound(store),
        end_fits(headers, body.len() as int),
        carries(store, upload_id, file),
        sent_chunk(headers, body) matches Ok(chunk) ==> is_of(chunk, upload_id, file),
    ensures
        carries(broken_off_chunk(store, headers, body, now, actions), upload_id, file),
{
    sent_chunk_ok(headers, body);
    let step = chunk_start(headers, body);
    request_brings_the_file(store, headers, body, upload_id, file);
    chunk_on_its_way(store, step, now, actions, upload_id, file);
}

/// The upload is the same, but for the count of its received bytes.
pub open spec fn same_upload(before: Store, after: Store, id: Seq<char>) -> bool {
    let old = before.sessions[id];
    let new = after.sessions[id];
    &&& before.sessions.contains_key(id)
    &&& new.file_key == old.file_key
    &&& new.row.upload_id == old.row.upload_id
    &&& new.row.file_size == old.row.file_size
    &&& new.row.temp_path == old.row.temp_path
    &&& new.row.status == old.row.status
    &&& after.parts_of(id) == before.parts_of(id)
    &&& after.temps.contains_key(old.row.temp_path) == before.temps.contains_key(old.row.temp_path)
    &&& after.temps[old.row.temp_path] == before.temps[old.row.temp_path]
}

/// Where every upload that is there afterwards is the same as before, the uploads
/// stay sound, and carry what they carried.
pub proof fn same_uploads_stay_sound(before: Store, after: Store)
    requires
        uploads_sound(before),
        after.temp_dir == before.temp_dir,
        forall|id: Seq<char>| #[trigger]
            after.sessions.contains_key(id) ==> same_upload(before, after, id),
    ensures
        uploads_sound(after),
        forall|id: Seq<char>, file: Seq<u8>| #[trigger]
            carries(before, id, file) && after.sessions.contains_key(id) ==> carries(
                after,
                id,
                file,
            ),
{
    assert forall|id: Seq<char>| #[trigger] after.sessions.contains_key(id) implies session_sound(
        after,
        id,
    ) by {
        assert(same_upload(before, after, id));
        assert(session_sound(before, id));
    }
    assert forall|a: Seq<char>, b: Seq<char>, key: Seq<char>| #[trigger]
        after.has_key(a, key) && #[trigger] after.has_key(b, key) implies a == b by {
        assert(same_upload(before, after, a));
        assert(same_upload(before, after, b));
        assert(before.has_key(a, key));
        assert(before.has_key(b, key));
    }
}

/// A step of a request that begins an upload, as a mathematical value.
pub type InitStepModel = Step<Init, Action, InitResponse, Refusal>;

/// No upload has the file key.
pub open spec fn key_is_free(store: Store, file_key: Seq<char>) -> bool {
    forall|id: Seq<char>| !#[trigger] store.has_key(id, file_key)
}

/// No upload has the temporary file.
pub open spec fn path_is_free(store: Store, temp_path: Seq<char>) -> bool {
    forall|id: Seq<char>| #[trigger]
        store.sessions.contains_key(id) ==> store.sessions[id].row.temp_path != temp_path
}

/// The request that begins an upload stands where it says, and it does not drop
/// the upload `spared`.
spec fn init_stands(store: Store, step: InitStepModel, spared: Seq<char>) -> bool {
    match step {
        Step::Ask(state, action) => match state {
            InitState::Opening { request, token } => {
                &&& action == UploadAction::<Seq<char>, Seq<u8>>::OpenStore
                &&& request.file_size > 0
                &&& is_new(store, token)
                &&& store.has_key(spared, request.file_key) ==> continues(
                    request,
                    store.sessions[spared].row,
                )
            },
            InitState::Finding { request, token } => {
                &&& action == UploadAction::<Seq<char>, Seq<u8>>::FindSessionByKey {
                    file_key: request.file_key,
                }
                &&& request.file_size > 0
                &&& is_new(store, token)
                &&& store.has_key(spared, request.file_key) ==> continues(
                    request,
                    store.sessions[spared].row,
                )
            },
            InitState::Loading { request, upload_id } => {
                &&& action == UploadAction::<Seq<char>, Seq<u8>>::LoadParts { upload_id }
                &&& store.sessions.contains_key(upload_id)
            },
            InitState::Updating { request, upload_id, .. } => {
                &&& action matches UploadAction::SetReceived { upload_id: id, .. }
                &&& id == upload_id
                &&& store.sessions.contains_key(upload_id)
            },
            InitState::DroppingSession { request, token, old_id, old_path } => {
                &&& action == UploadAction::<Seq<char>, Seq<u8>>::DeleteSession {
                    upload_id: old_id,
                }
                &&& request.file_size > 0
                &&& is_new(store, token)
                &&& store.has_key(old_id, request.file_key)
                &&& store.sessions[old_id].row.temp_path == old_path
                &&& old_id != spared
            },
            InitState::DroppingParts { request, token, old_path } => {
                &&& action matches UploadAction::DeleteParts { upload_id }
                &&& !store.sessions.contains_key(upload_id)
                &&& request.file_size > 0
                &&& is_new(store, token)
                &&& key_is_free(store, request.file_key)
                &&& path_is_free(store, old_path)
            },
            InitState::DroppingTemp { request, token } => {
                &&& action matches UploadAction::RemoveTemp { temp_path }
                &&& path_is_free(store, temp_path)
                &&& request.file_size > 0
                &&& is_new(store, token)
                &&& key_is_free(store, request.file_key)
            },
            InitState::Creating { request, token } => {
                &&& action == UploadAction::<Seq<char>, Seq<u8>>::CreateTemp {
                    file_name: temp_name(token),
                }
                &&& request.file_size > 0
                &&& is_new(store, token)
                &&& key_is_free(store, request.file_key)
            },
            InitState::Inserting { file_size, token } => {
                &&& action matches UploadAction::InsertSession {
                    upload_id,
                    file_key,
                    file_size: size,
                    temp_path,
                    ..
                }
                &&& upload_id == token
                &&& size > 0
                &&& is_new(store, token)
                &&& key_is_free(store, file_key)
                &&& temp_path == store.temp_dir + temp_name(token)
                &&& store.temps.contains_key(temp_path)
                &&& store.temps[temp_path] == Seq::<u8>::empty()
            },
        },
        _ => true,
    }
}

/// No upload has a temporary file under a name that is new.
proof fn path_of_a_new_name_is_free(store: Store, token: Seq<char>)
    requires
        uploads_sound(store),
        !store.sessions.contains_key(token),
    ensures
        path_is_free(store, store.temp_dir + temp_name(token)),
{
    assert forall|id: Seq<char>| #[trigger]
        store.sessions.contains_key(id) implies store.sessions[id].row.temp_path != store.temp_dir
        + temp_name(token) by {
        assert(session_sound(store, id));
        if store.sessions[id].row.temp_path == store.temp_dir + temp_name(token) {
            temp_paths_differ(store.temp_dir, id, token);
        }
    }
}

/// One action of a request that begins an upload.
proof fn init_goes_on(
    store: Store,
    state: Init,
    action: Action,
    now: Seq<char>,
    spared: Seq<char>,
    file: Seq<u8>,
)
    requires
        uploads_sound(store),
        init_stands(store, Step::Ask(state, action), spared),
    ensures
        ({
            let (after, event) = store.perform(action);
            &&& uploads_sound(after)
            &&& same_messages(store, after)
            &&& init_stands(after, init_next(state, event, now), spared)
            &&& carries(store, spared, file) ==> carries(after, spared, file)
        }),
{
    let (after, event) = store.perform(action);
    match state {
        InitState::Updating { request, upload_id, .. } => {
            if let UploadAction::SetReceived { received_bytes, at, .. } = action {
                counting_leaves(store, upload_id, received_bytes, at);
                assert(after.parts_of(spared) == store.parts_of(spared));
            }
        },
        InitState::Finding { request, token } => {
            if exists|id: Seq<char>| #[trigger] store.has_key(id, request.file_key) {
                let id = choose|id: Seq<char>| #[trigger] store.has_key(id, request.file_key);
                assert(session_sound(store, id));
            }
        },
        InitState::DroppingSession { request, token, old_id, old_path } => {
            assert(session_sound(store, old_id));
            assert forall|id: Seq<char>| #[trigger] after.sessions.contains_key(id) implies
                same_upload(store, after, id) by {
                assert(after.parts_of(id) == store.parts_of(id));
            }
            same_uploads_stay_sound(store, after);
            assert(key_is_free(after, request.file_key)) by {
                assert forall|id: Seq<char>| !#[trigger] after.has_key(id, request.file_key) by {
                    if after.has_key(id, request.file_key) {
                        assert(store.has_key(id, request.file_key));
                    }
                }
            }
            path_of_a_new_name_is_free(after, old_id);
        },
        InitState::DroppingParts { request, token, old_path } => {
            assert forall|id: Seq<char>| #[trigger] after.sessions.contains_key(id) implies
                same_upload(store, after, id) by {
                assert(after.parts_of(id) == store.parts_of(id));
            }
            same_uploads_stay_sound(store, after);
            assert(key_is_free(after, request.file_key)) by {
                assert forall|id: Seq<char>| !#[trigger] after.has_key(id, request.file_key) by {
                    assert(!store.has_key(id, request.file_key));
                }
            }
        },
        InitState::DroppingTemp { request, token } => {
            assert forall|id: Seq<char>| #[trigger] after.sessions.contains_key(id) implies
                same_upload(store, after, id) by {
                assert(store.sessions.contains_key(id));
                assert(after.parts_of(id) == store.parts_of(id));
            }
            same_uploads_stay_sound(store, after);
            assert(key_is_free(after, request.file_key)) by {
                assert forall|id: Seq<char>| !#[trigger] after.has_key(id, request.file_key) by {
                    assert(!store.has_key(id, request.file_key));
                }
            }
        },
        InitState::Creating { request, token } => {
            path_of_a_new_name_is_free(store, token);
            assert forall|id: Seq<char>| #[trigger] after.sessions.contains_key(id) implies
                same_upload(store, after, id) by {
                assert(store.sessions.contains_key(id));
                assert(after.parts_of(id) == store.parts_of(id));
            }
            same_uploads_stay_sound(store, after);
            assert(key_is_free(after, request.file_key)) by {
                assert forall|id: Seq<char>| !#[trigger] after.has_key(id, request.file_key) by {
                    assert(!store.has_key(id, request.file_key));
                }
            }
        },
        InitState::Inserting { file_size, token } => {
            if let UploadAction::InsertSession {
                upload_id,
                file_key,
                file_name,
                file_size: size,
                mime_type,
                temp_path,
                at,
            } = action {
                let request = UploadInitRequest {
                    file_key,
                    file_name,
                    file_size: size,
                    mime_type,
                };
                with_upload_sound(store, request, token);
                assert(with_upload(store, request, token).temps =~= after.temps);
                assert(with_upload(store, request, token) =~= after);
                assert(after.parts_of(spared) == store.parts_of(spared));
            }
        },
        _ => {},
    }
}

proof fn init_on_its_way(
    store: Store,
    step: InitStepModel,
    now: Seq<char>,
    actions: nat,
    spared: Seq<char>,
    file: Seq<u8>,
)
    requires
        uploads_sound(store),
        init_stands(store, step, spared),
    ensures
        ({
            let after = run(
                store,
                step,
                |store: Store, action: Action| store.perform(action),
                |state: Init, event: Event| init_next(state, event, now),
                actions,
            ).0;
            &&& uploads_sound(after)
            &&& same_messages(store, after)
            &&& carries(store, spared, file) ==> carries(after, spared, file)
        }),
    decreases actions,
{
    if let Step::Ask(state, action) = step {
        if actions > 0 {
            let (after, event) = store.perform(action);
            init_goes_on(store, state, action, now, spared, file);
            let next = init_next(state, event, now);
            init_on_its_way(after, next, now, (actions - 1) as nat, spared, file);
        }
    }
}

/// What is stored after `actions` actions of a request that begins an upload.
pub open spec fn broken_off_init(
    store: Store,
    request: InitRequest,
    token: Seq<char>,
    now: Seq<char>,
    actions: nat,
) -> Store {
    run(
        store,
        init_start(request, token),
        |store: Store, action: Action| store.perform(action),
        |state: Init, event: Event| init_next(state, event, now),
        actions,
    ).0
}

/// However early a request that begins an upload is broken off, every upload
/// stays sound, and carries the file that it carried, but for the one that gives
/// way to the new one.
pub proof fn broken_off_init_does_no_harm(
    store: Store,
    request: InitRequest,
    token: Seq<char>,
    now: Seq<char>,
    actions: nat,
    upload_id: Seq<char>,
    file: Seq<u8>,
)
    requires
        uploads_sound(store),
        is_new(store, token),
    ensures
        ({
            let after = broken_off_init(store, request, token, now, actions);
            let stays = store.has_key(upload_id, request.file_key) ==> continues(
                request,
                store.sessions[upload_id].row,
            );
            &&& uploads_sound(after)
            &&& same_messages(store, after)
            &&& carries(store, upload_id, file) && stays ==> carries(after, upload_id, file)
        }),
{
    let step = init_start(request, token);
    if init_refusal(request) is None {
        let stays = store.has_key(upload_id, request.file_key) ==> continues(
            request,
            store.sessions[upload_id].row,
        );
        // A name that no upload has is never dropped.
        let spared = if stays {
            upload_id
        } else {
            token
        };
        init_on_its_way(store, step, now, actions, spared, file);
    }
}

/// A step of a request that gives up an upload, as a mathematical value.
pub type CancelStepModel = Step<Cancel, Action, UploadCancelResponse, Refusal>;

/// The request that gives up an upload stands where it says, and it does not drop
/// the upload `spared`.
spec fn cancel_stands(store: Store, step: CancelStepModel, spared: Seq<char>) -> bool {
    match step {
        Step::Ask(state, action) => match state {
            CancelState::Opening { upload_id } => {
                &&& action == UploadAction::<Seq<char>, Seq<u8>>::OpenStore
                &&& upload_id != spared
            },
            CancelState::FindingSession { upload_id } => {
                &&& action == UploadAction::<Seq<char>, Seq<u8>>::FindSession { upload_id }
                &&& upload_id != spared
            },
            CancelState::DroppingSession { upload_id, temp_path } => {
                &&& action == UploadAction::<Seq<char>, Seq<u8>>::DeleteSession { upload_id }
                &&& upload_id != spared
                &&& store.sessions.contains_key(upload_id)
                &&& store.sessions[upload_id].row.temp_path == temp_path
            },
            CancelState::DroppingParts { temp_path } => {
                &&& action matches UploadAction::DeleteParts { upload_id }
                &&& !store.sessions.contains_key(upload_id)
                &&& path_is_free(store, temp_path)
            },
            CancelState::Discarding => {
                &&& action matches UploadAction::RemoveTemp { temp_path }
                &&& path_is_free(store, temp_path)
            },
        },
        _ => true,
    }
}

proof fn cancel_on_its_way(
    store: Store,
    step: CancelStepModel,
    actions: nat,
    spared: Seq<char>,
    file: Seq<u8>,
)
    requires
        uploads_sound(store),
        cancel_stands(store, step, spared),
    ensures
        ({
            let after = run(
                store,
                step,
                |store: Store, action: Action| store.perform(action),
                |state: Cancel, event: Event| cancel_next(state, event),
                actions,
            ).0;
            &&& uploads_sound(after)
            &&& same_messages(store, after)
            &&& carries(store, spared, file) ==> carries(after, spared, file)
        }),
    decreases actions,
{
    if let Step::Ask(state, action) = step {
        if actions > 0 {
            let (after, event) = store.perform(action);
            if let CancelState::DroppingSession { upload_id, temp_path } = state {
                assert(session_sound(store, upload_id));
            }
            assert forall|id: Seq<char>| #[trigger] after.sessions.contains_key(id) implies
                same_upload(store, after, id) by {
                assert(store.sessions.contains_key(id));
                assert(after.parts_of(id) == store.parts_of(id));
            }
            same_uploads_stay_sound(store, after);
            if let CancelState::DroppingSession { upload_id, temp_path } = state {
                path_of_a_new_name_is_free(after, upload_id);
            }
            cancel_on_its_way(
                after,
                cancel_next(state, event),
                (actions - 1) as nat,
                spared,
                file,
            );
        }
    }
}

/// What is stored after `actions` actions of a request that gives up an upload.
pub open spec fn broken_off_cancel(store: Store, upload_id: Seq<char>, actions: nat) -> Store {
    run(
        store,
        cancel_start(upload_id),
        |store: Store, action: Action| store.perform(action),
        |state: Cancel, event: Event| cancel_next(state, event),
        actions,
    ).0
}

/// However early a request that gives up an upload is broken off, every upload
/// that is left stays sound, and every other one carries the file that it carried.
pub proof fn broken_off_cancel_does_no_harm(
    store: Store,
    cancelled: Seq<char>,
    actions: nat,
    upload_id: Seq<char>,
    file: Seq<u8>,
)
    requires
        uploads_sound(store),
    ensures
        ({
            let after = broken_off_cancel(store, cancelled, actions);
            &&& uploads_sound(after)
            &&& same_messages(store, after)
            &&& carries(store, upload_id, file) && upload_id != cancelled ==> carries(
                after,
                upload_id,
                file,
            )
        }),
{
    // Any name but the cancelled one will do where nothing is to be shown of it.
    let spared = if upload_id != cancelled {
        upload_id
    } else {
        cancelled.push('x')
    };
    assert(cancelled.push('x').len() != cancelled.len());
    cancel_on_its_way(store, cancel_start(cancelled), actions, spared, file);
}

/// A step of a request that completes an upload, as a mathematical value.
pub type CompleteStepModel = Step<Complete, Action, MessageDto<Seq<char>>, Refusal>;

/// The upload is there as the request found it, and every byte was received.
spec fn is_whole(store: Store, upload_id: Seq<char>, session: SessionRow<Seq<char>>) -> bool {
    &&& store.sessions.contains_key(upload_id)
    &&& store.sessions[upload_id].row == session
    &&& parts_refusal(store.parts_of(upload_id), session.file_size) is None
}

/// The file can get a message: it has none, and there is a number for one more.
spec fn can_get_message(store: Store, file_id: Seq<char>) -> bool {
    store.has_room() && find_file(store.messages, file_id) is None
}

/// The request that completes an upload stands where it says, and it does not
/// drop the upload `spared`. The file gets the name `name`.
spec fn complete_stands(
    store: Store,
    step: CompleteStepModel,
    spared: Seq<char>,
    name: Seq<char>,
) -> bool {
    match step {
        Step::Ask(state, action) => match state {
            CompleteState::Opening { upload_id, file_id } => {
                &&& action == UploadAction::<Seq<char>, Seq<u8>>::OpenStore
                &&& upload_id != spared
                &&& file_id == name
                &&& can_get_message(store, name)
            },
            CompleteState::FindingSession { upload_id, file_id } => {
                &&& action == UploadAction::<Seq<char>, Seq<u8>>::FindSession { upload_id }
                &&& upload_id != spared
                &&& file_id == name
                &&& can_get_message(store, name)
            },
            CompleteState::Loading { upload_id, file_id, session } => {
                &&& action == UploadAction::<Seq<char>, Seq<u8>>::LoadParts { upload_id }
                &&& upload_id != spared
                &&& file_id == name
                &&& can_get_message(store, name)
                &&& store.sessions.contains_key(upload_id)
                &&& store.sessions[upload_id].row == session
            },
            CompleteState::Renaming { upload_id, file_id, session } => {
                &&& action == UploadAction::<Seq<char>, Seq<u8>>::RenameTemp {
                    temp_path: session.temp_path,
                    file_id: name,
                }
                &&& upload_id != spared
                &&& file_id == name
                &&& can_get_message(store, name)
                &&& is_whole(store, upload_id, session)
            },
            CompleteState::Copying { upload_id, file_id, session, .. } => {
                &&& action == UploadAction::<Seq<char>, Seq<u8>>::CopyTemp {
                    temp_path: session.temp_path,
                    file_id: name,
                }
                &&& upload_id != spared
                &&& file_id == name
                &&& can_get_message(store, name)
                &&& is_whole(store, upload_id, session)
            },
            CompleteState::Discarding { upload_id, file_id, session } => {
                &&& action == UploadAction::<Seq<char>, Seq<u8>>::RemoveTemp {
                    temp_path: session.temp_path,
                }
                &&& upload_id != spared
                &&& file_id == name
                &&& can_get_message(store, name)
                &&& is_whole(store, upload_id, session)
                &&& store.files.contains_key(name)
            },
            CompleteState::Inserting { upload_id } => {
                &&& action matches UploadAction::InsertFile { file_id, .. }
                &&& file_id == name
                &&& upload_id != spared
                &&& can_get_message(store, name)
                &&& store.files.contains_key(name)
            },
            CompleteState::DroppingSession { upload_id, .. } => {
                &&& action == UploadAction::<Seq<char>, Seq<u8>>::DeleteSession { upload_id }
                &&& upload_id != spared
            },
            CompleteState::DroppingParts { .. } => {
                &&& action matches UploadAction::DeleteParts { upload_id }
                &&& !store.sessions.contains_key(upload_id)
            },
            CompleteState::Showing => action is FindMessage,
        },
        _ => true,
    }
}

/// The messages that were there are there in their places, those that were added
/// are for the file `name`, and every other file is stored as it was.
pub open spec fn adds_at_most(before: Store, after: Store, name: Seq<char>) -> bool {
    &&& before.messages.len() <= after.messages.len()
    &&& forall|i: int|
        0 <= i < before.messages.len() ==> (#[trigger] after.messages[i]) == before.messages[i]
    &&& forall|i: int|
        before.messages.len() <= i < after.messages.len() ==> (
        #[trigger] after.messages[i]).file_id == Some(name)
    &&& forall|id: Seq<char>|
        id != name ==> (#[trigger] after.files.contains_key(id)) == before.files.contains_key(id)
    &&& forall|id: Seq<char>|
        id != name && after.files.contains_key(id) ==> (#[trigger] after.files[id])
            == before.files[id]
}

/// Taking away the temporary file of an upload of which every byte was received
/// leaves the uploads sound.
proof fn taking_the_file_leaves(
    before: Store,
    after: Store,
    upload_id: Seq<char>,
    session: SessionRow<Seq<char>>,
    spared: Seq<char>,
    file: Seq<u8>,
)
    requires
        uploads_sound(before),
        is_whole(before, upload_id, session),
        after.temp_dir == before.temp_dir,
        after.sessions == before.sessions,
        after.parts == before.parts,
        after.temps == before.temps.remove(session.temp_path),
        upload_id != spared,
    ensures
        uploads_sound(after),
        carries(before, spared, file) ==> carries(after, spared, file),
{
    assert(session_sound(before, upload_id));
    assert forall|id: Seq<char>| #[trigger] after.parts_of(id) == before.parts_of(id) by {}
    assert forall|id: Seq<char>| #[trigger]
        before.sessions.contains_key(id) && id != upload_id implies before.sessions[id].row.temp_path
        != session.temp_path by {
        assert(session_sound(before, id));
        if before.sessions[id].row.temp_path == session.temp_path {
            temp_paths_differ(before.temp_dir, id, upload_id);
        }
    }
    assert forall|id: Seq<char>| #[trigger] after.sessions.contains_key(id) implies session_sound(
        after,
        id,
    ) by {
        assert(session_sound(before, id));
    }
    assert forall|a: Seq<char>, b: Seq<char>, key: Seq<char>| #[trigger]
        after.has_key(a, key) && #[trigger] after.has_key(b, key) implies a == b by {
        assert(before.has_key(a, key));
        assert(before.has_key(b, key));
    }
}

/// One action of a request that completes an upload.
proof fn complete_goes_on(
    store: Store,
    state: Complete,
    action: Action,
    now: Seq<char>,
    spared: Seq<char>,
    file: Seq<u8>,
    name: Seq<char>,
)
    requires
        uploads_sound(store),
        messages_ok(store),
        complete_stands(store, Step::Ask(state, action), spared, name),
    ensures
        ({
            let (after, event) = store.perform(action);
            &&& uploads_sound(after)
            &&& messages_ok(after)
            &&& adds_at_most(store, after, name)
            &&& complete_stands(after, complete_next(state, event, now), spared, name)
            &&& carries(store, spared, file) ==> carries(after, spared, file)
        }),
{
    let (after, event) = store.perform(action);
    match state {
        CompleteState::Renaming { upload_id, session, .. } => {
            if store.temps.contains_key(session.temp_path) {
                taking_the_file_leaves(store, after, upload_id, session, spared, file);
            }
        },
        CompleteState::Discarding { upload_id, session, .. } => {
            if store.temps.contains_key(session.temp_path) {
                taking_the_file_leaves(store, after, upload_id, session, spared, file);
            }
        },
        CompleteState::FindingSession { upload_id, .. } => {
            if store.sessions.contains_key(upload_id) {
                assert(session_sound(store, upload_id));
            }
        },
        _ => {
            if let UploadAction::InsertFile {
                file_id,
                file_name,
                file_size,
                mime_type,
                at,
            } = action {
                let incoming = IncomingFile { file_id, file_name, file_size, mime_type };
                file_keeps_messages_ok(store, incoming, store.files[file_id], at);
                assert(store.files.insert(file_id, store.files[file_id]) =~= store.files);
            }
            assert forall|id: Seq<char>| #[trigger] after.sessions.contains_key(id) implies
                same_upload(store, after, id) by {
                assert(after.parts_of(id) == store.parts_of(id));
            }
            same_uploads_stay_sound(store, after);
        },
    }
}

proof fn complete_on_its_way(
    store: Store,
    step: CompleteStepModel,
    now: Seq<char>,
    actions: nat,
    spared: Seq<char>,
    file: Seq<u8>,
    name: Seq<char>,
)
    requires
        uploads_sound(store),
        messages_ok(store),
        complete_stands(store, step, spared, name),
    ensures
        ({
            let after = run(
                store,
                step,
                |store: Store, action: Action| store.perform(action),
                |state: Complete, event: Event| complete_next(state, event, now),
                actions,
            ).0;
            &&& uploads_sound(after)
            &&& messages_ok(after)
            &&& adds_at_most(store, after, name)
            &&& carries(store, spared, file) ==> carries(after, spared, file)
        }),
    decreases actions,
{
    if let Step::Ask(state, action) = step {
        if actions > 0 {
            let (after, event) = store.perform(action);
            complete_goes_on(store, state, action, now, spared, file, name);
            let next = complete_next(state, event, now);
            complete_on_its_way(after, next, now, (actions - 1) as nat, spared, file, name);
        }
    }
}

/// What is stored after `actions` actions of a request that completes an upload.
pub open spec fn broken_off_complete(
    store: Store,
    upload_id: Seq<char>,
    file_id: Seq<char>,
    now: Seq<char>,
    actions: nat,
) -> Store {
    run(
        store,
        complete_start(upload_id, file_id),
        |store: Store, action: Action| store.perform(action),
        |state: Complete, event: Event| complete_next(state, event, now),
        actions,
    ).0
}

/// However early a request that completes an upload is broken off, the uploads
/// stay sound and the messages in order, every other upload carries the file that
/// it carried, and every other file is stored as it was.
pub proof fn broken_off_complete_does_no_harm(
    store: Store,
    completed: Seq<char>,
    file_id: Seq<char>,
    now: Seq<char>,
    actions: nat,
    upload_id: Seq<char>,
    file: Seq<u8>,
)
    requires
        uploads_sound(store),
        messages_ok(store),
        store.has_room(),
        find_file(store.messages, file_id) is None,
    ensures
        ({
            let after = broken_off_complete(store, completed, file_id, now, actions);
            &&& uploads_sound(after)
            &&& messages_ok(after)
            &&& adds_at_most(store, after, file_id)
            &&& carries(store, upload_id, file) && upload_id != completed ==> carries(
                after,
                upload_id,
                file,
            )
        }),
{
    // Any name but the completed one will do where nothing is to be shown of it.
    let spared = if upload_id != completed {
        upload_id
    } else {
        completed.push('x')
    };
    assert(completed.push('x').len() != completed.len());
    let step = complete_start(completed, file_id);
    complete_on_its_way(store, step, now, actions, spared, file, file_id);
}

} // verus!
