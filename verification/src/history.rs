//! What holds of everything that is stored, whatever was asked for before.
use vstd::prelude::*;

use crate::broken_off::{broken_off_cancel, broken_off_cancel_does_no_harm, broken_off_chunk};
use crate::broken_off::{broken_off_chunk_carries, broken_off_chunk_leaves_uploads_sound};
use crate::broken_off::{broken_off_complete, broken_off_complete_does_no_harm, broken_off_init};
use crate::broken_off::{broken_off_init_does_no_harm, same_uploads_stay_sound};
use crate::delete_laws::{delete_effect, delete_keeps_messages_ok, deleted_messages_are_gone};
use crate::delete_laws::{file_is_not_found, files_of_deleted_messages_are_gone, other_files_stay};
use crate::download::asked;
use crate::download_laws::{complete_keeps_messages_ok, file_of_a_message_is_found, is_linked};
use crate::download_laws::{file_of_a_message_is_linked, linked_file_is_served, refuses};
use crate::download_laws::{run_download, serves, unlinked_file_is_not_found, Reading};
use crate::error::{refusal, NOT_FOUND, OK};
use crate::headers::Headers;
use crate::message::Row;
use crate::message_laws::{file_keeps_messages_ok, file_row, found_file_is_there, messages_ok};
use crate::message_laws::{text_keeps_messages_ok, text_row, with_file};
use crate::parallel::is_of;
use crate::parts::Part;
use crate::post::IncomingFile;
use crate::store::{find_file, Session, Store};
use crate::upload_chunk::{end_fits, sent_chunk, SentChunk};
use crate::upload_init::{continues, temp_name, InitRequest};
use crate::upload_laws::{cancel_effect, chunk_effect, chunk_keeps_uploads_sound, chunk_ok};
use crate::upload_laws::{complete_effect, completed_row, count_right, init_effect, is_new};
use crate::upload_laws::session_sound;
use crate::upload_laws::{temp_paths_differ, upload_with_key, uploads_sound, with_recount};
use crate::upload_promises::{cancel_keeps_uploads_sound, carries, chunk_keeps_counts};
use crate::upload_promises::{chunk_of_file_carries, complete_keeps_uploads_sound};
use crate::upload_promises::{init_keeps_uploads_sound, recount_sound};

verus! {

/// What changes the storage: a request that was worked off, or one that was broken
/// off after some of its actions.
pub enum Change {
    Init { request: InitRequest, token: Seq<char> },
    Chunk { chunk: SentChunk },
    Complete { upload_id: Seq<char>, file_id: Seq<char>, now: Seq<char> },
    Cancel { upload_id: Seq<char> },
    Text { text: Seq<char>, now: Seq<char> },
    File { file: IncomingFile<Seq<char>>, content: Seq<u8>, now: Seq<char> },
    Delete { ids: Seq<i64> },
    Heights { ui: Map<Seq<char>, Seq<char>> },
    Progress { file_id: Seq<char> },
    BrokenOffInit { request: InitRequest, token: Seq<char>, now: Seq<char>, actions: nat },
    BrokenOffChunk { headers: Headers, body: Seq<u8>, now: Seq<char>, actions: nat },
    BrokenOffComplete {
        upload_id: Seq<char>,
        file_id: Seq<char>,
        now: Seq<char>,
        actions: nat,
    },
    BrokenOffCancel { upload_id: Seq<char>, actions: nat },
}

/// The request can come to be worked off: the names that are made for it are
/// new, a part lies where it says, and there is a number for one more message.
pub open spec fn possible(store: Store, change: Change) -> bool {
    match change {
        Change::Init { token, .. } => is_new(store, token),
        Change::Chunk { chunk } => chunk_ok(chunk),
        Change::Complete { file_id, .. } => store.has_room() && find_file(
            store.messages,
            file_id,
        ) is None,
        Change::Text { .. } => store.has_room(),
        Change::File { file, .. } => store.has_room() && find_file(
            store.messages,
            file.file_id,
        ) is None,
        Change::BrokenOffInit { token, .. } => is_new(store, token),
        Change::BrokenOffChunk { headers, body, .. } => end_fits(headers, body.len() as int),
        Change::BrokenOffComplete { file_id, .. } => store.has_room() && find_file(
            store.messages,
            file_id,
        ) is None,
        Change::Cancel { .. } | Change::BrokenOffCancel { .. } => true,
        Change::Delete { .. } | Change::Heights { .. } | Change::Progress { .. } => true,
    }
}

/// What is stored after the request.
pub open spec fn changed(store: Store, change: Change) -> Store {
    match change {
        Change::Init { request, token } => init_effect(store, request, token).0,
        Change::Chunk { chunk } => chunk_effect(store, chunk).0,
        Change::Complete { upload_id, file_id, now } => complete_effect(
            store,
            upload_id,
            file_id,
            now,
        ).0,
        Change::Cancel { upload_id } => cancel_effect(store, upload_id).0,
        Change::Text { text, now } => store.with_message(text_row(store, text, now)),
        Change::File { file, content, now } => with_file(store, file, content, now),
        Change::Delete { ids } => delete_effect(store, ids).0,
        Change::Heights { ui } => Store { ui, ..store },
        Change::Progress { file_id } => Store {
            progress: store.progress.insert(file_id),
            ..store
        },
        Change::BrokenOffInit { request, token, now, actions } => broken_off_init(
            store,
            request,
            token,
            now,
            actions,
        ),
        Change::BrokenOffChunk { headers, body, now, actions } => broken_off_chunk(
            store,
            headers,
            body,
            now,
            actions,
        ),
        Change::BrokenOffComplete { upload_id, file_id, now, actions } => broken_off_complete(
            store,
            upload_id,
            file_id,
            now,
            actions,
        ),
        Change::BrokenOffCancel { upload_id, actions } => broken_off_cancel(
            store,
            upload_id,
            actions,
        ),
    }
}

/// The uploads and the messages are in order.
pub open spec fn store_ok(store: Store) -> bool {
    uploads_sound(store) && messages_ok(store)
}

/// Where nothing was stored yet, everything is in order.
pub proof fn empty_store_is_ok(store: Store)
    requires
        store.sessions == Map::<Seq<char>, Session>::empty(),
        store.messages == Seq::<Row>::empty(),
        store.last_id == 0,
    ensures
        store_ok(store),
{
}

/// What does not touch the uploads leaves them in order.
proof fn same_uploads(before: Store, after: Store)
    requires
        uploads_sound(before),
        after.temp_dir == before.temp_dir,
        after.sessions == before.sessions,
        after.parts == before.parts,
        after.temps == before.temps,
    ensures
        uploads_sound(after),
        forall|id: Seq<char>| #[trigger] after.parts_of(id) == before.parts_of(id),
        forall|id: Seq<char>, file: Seq<u8>| #[trigger]
            carries(before, id, file) ==> carries(after, id, file),
{
    assert forall|id: Seq<char>| #[trigger] after.parts_of(id) == before.parts_of(id) by {}
    same_uploads_stay_sound(before, after);
}

/// Whatever is asked for, and wherever an upload is broken off, everything that is
/// stored stays in order.
pub proof fn every_change_keeps_the_store_ok(store: Store, change: Change)
    requires
        store_ok(store),
        possible(store, change),
    ensures
        store_ok(changed(store, change)),
{
    let after = changed(store, change);
    let none = Seq::<char>::empty();
    let nothing = Seq::<u8>::empty();
    match change {
        Change::Init { request, token } => {
            init_keeps_uploads_sound(store, request, token);
        },
        Change::Chunk { chunk } => {
            chunk_keeps_uploads_sound(store, chunk);
        },
        Change::Complete { upload_id, file_id, now } => {
            complete_keeps_uploads_sound(store, upload_id, file_id, now);
            complete_keeps_messages_ok(store, upload_id, file_id, now);
        },
        Change::Cancel { upload_id } => {
            cancel_keeps_uploads_sound(store, upload_id);
        },
        Change::Text { text, now } => {
            text_keeps_messages_ok(store, text, now);
            same_uploads(store, after);
        },
        Change::File { file, content, now } => {
            file_keeps_messages_ok(store, file, content, now);
            same_uploads(store, after);
        },
        Change::Delete { ids } => {
            delete_keeps_messages_ok(store, ids);
            same_uploads(store, after);
        },
        Change::Heights { .. } => {
            same_uploads(store, after);
        },
        Change::Progress { .. } => {
            same_uploads(store, after);
        },
        Change::BrokenOffInit { request, token, now, actions } => {
            broken_off_init_does_no_harm(store, request, token, now, actions, none, nothing);
        },
        Change::BrokenOffChunk { headers, body, now, actions } => {
            broken_off_chunk_leaves_uploads_sound(store, headers, body, now, actions);
        },
        Change::BrokenOffComplete { upload_id, file_id, now, actions } => {
            broken_off_complete_does_no_harm(
                store,
                upload_id,
                file_id,
                now,
                actions,
                none,
                nothing,
            );
        },
        Change::BrokenOffCancel { upload_id, actions } => {
            broken_off_cancel_does_no_harm(store, upload_id, actions, none, nothing);
        },
    }
}

/// The link of a message stays good, and leads to the same bytes, whatever is
/// asked for, unless the message is deleted.
pub proof fn links_last(store: Store, change: Change, row: Row, file_id: Seq<char>)
    requires
        messages_ok(store),
        change is BrokenOffInit || change is BrokenOffChunk || change is BrokenOffComplete
            || change is BrokenOffCancel ==> uploads_sound(store),
        possible(store, change),
        store.messages.contains(row),
        row.file_id == Some(file_id),
        store.files[file_id].len() <= u64::MAX,
        change matches Change::Delete { ids } ==> !ids.contains(row.id),
    ensures
        is_linked(changed(store, change), file_id),
        changed(store, change).files[file_id] == store.files[file_id],
        changed(store, change).messages.contains(row),
{
    let after = changed(store, change);
    let none = Seq::<char>::empty();
    let nothing = Seq::<u8>::empty();
    let i = choose|i: int| 0 <= i < store.messages.len() && store.messages[i] == row;
    file_of_a_message_is_found(store.messages, row, file_id);
    assert(store.files.contains_key(file_id));
    match change {
        Change::Delete { ids } => {
            other_files_stay(store, ids, row, file_id);
            deleted_messages_are_gone(store, ids);
        },
        Change::BrokenOffInit { request, token, now, actions } => {
            broken_off_init_does_no_harm(store, request, token, now, actions, none, nothing);
        },
        Change::BrokenOffChunk { headers, body, now, actions } => {
            broken_off_chunk_leaves_uploads_sound(store, headers, body, now, actions);
        },
        Change::BrokenOffComplete { upload_id, file_id: name, now, actions } => {
            broken_off_complete_does_no_harm(
                store,
                upload_id,
                name,
                now,
                actions,
                none,
                nothing,
            );
            assert(after.messages[i] == row);
        },
        Change::BrokenOffCancel { upload_id, actions } => {
            broken_off_cancel_does_no_harm(store, upload_id, actions, none, nothing);
        },
        _ => {
            assert(after.messages[i] == row);
        },
    }
    assert(after.messages.contains(row));
    file_of_a_message_is_found(after.messages, row, file_id);
}

/// The request is about the upload: it brings other bytes than those of the file,
/// ends it, or begins another one in its place.
pub open spec fn concerns(
    store: Store,
    change: Change,
    upload_id: Seq<char>,
    file: Seq<u8>,
) -> bool {
    match change {
        Change::Init { request, .. } | Change::BrokenOffInit { request, .. } => store.has_key(
            upload_id,
            request.file_key,
        ) && !continues(request, store.sessions[upload_id].row),
        Change::Chunk { chunk } => !is_of(chunk, upload_id, file),
        Change::BrokenOffChunk { headers, body, .. } => sent_chunk(headers, body) matches Ok(chunk)
            && !is_of(chunk, upload_id, file),
        Change::Complete { upload_id: id, .. } => id == upload_id,
        Change::BrokenOffComplete { upload_id: id, .. } => id == upload_id,
        Change::Cancel { upload_id: id } => id == upload_id,
        Change::BrokenOffCancel { upload_id: id, .. } => id == upload_id,
        _ => false,
    }
}

/// An upload carries its file, whatever else is asked for, and however often a
/// request is broken off.
pub proof fn uploads_last(store: Store, change: Change, upload_id: Seq<char>, file: Seq<u8>)
    requires
        store_ok(store),
        possible(store, change),
        carries(store, upload_id, file),
        !concerns(store, change, upload_id, file),
    ensures
        carries(changed(store, change), upload_id, file),
{
    let after = changed(store, change);
    assert(session_sound(store, upload_id));
    match change {
        Change::Chunk { chunk } => {
            if chunk.upload_id == upload_id {
                chunk_of_file_carries(store, chunk, file);
            } else if store.sessions.contains_key(chunk.upload_id) {
                other_paths_differ(store, chunk.upload_id, upload_id);
                assert(after.parts_of(upload_id) == store.parts_of(upload_id));
            }
        },
        Change::Init { request, token } => {
            let old = upload_with_key(store, request.file_key);
            if exists|id: Seq<char>| #[trigger] store.has_key(id, request.file_key) {
                assert(store.has_key(old, request.file_key));
                if old != upload_id {
                    other_paths_differ(store, old, upload_id);
                }
            }
            new_path_differs(store, token, upload_id);
            assert(after.parts_of(upload_id) == store.parts_of(upload_id));
        },
        Change::Complete { upload_id: id, .. } => {
            if store.sessions.contains_key(id) {
                other_paths_differ(store, id, upload_id);
            }
            assert(after.parts_of(upload_id) == store.parts_of(upload_id));
        },
        Change::Cancel { upload_id: id } => {
            if store.sessions.contains_key(id) {
                other_paths_differ(store, id, upload_id);
            }
            assert(after.parts_of(upload_id) == store.parts_of(upload_id));
        },
        Change::BrokenOffInit { request, token, now, actions } => {
            broken_off_init_does_no_harm(store, request, token, now, actions, upload_id, file);
        },
        Change::BrokenOffChunk { headers, body, now, actions } => {
            broken_off_chunk_carries(store, headers, body, now, actions, upload_id, file);
        },
        Change::BrokenOffComplete { upload_id: id, file_id, now, actions } => {
            broken_off_complete_does_no_harm(
                store,
                id,
                file_id,
                now,
                actions,
                upload_id,
                file,
            );
        },
        Change::BrokenOffCancel { upload_id: id, actions } => {
            broken_off_cancel_does_no_harm(store, id, actions, upload_id, file);
        },
        _ => {
            same_uploads(store, after);
        },
    }
}

/// Two uploads have two temporary files.
proof fn other_paths_differ(store: Store, a: Seq<char>, b: Seq<char>)
    requires
        uploads_sound(store),
        store.sessions.contains_key(a),
        store.sessions.contains_key(b),
        a != b,
    ensures
        store.sessions[a].row.temp_path != store.sessions[b].row.temp_path,
{
    assert(session_sound(store, a));
    assert(session_sound(store, b));
    if store.sessions[a].row.temp_path == store.sessions[b].row.temp_path {
        temp_paths_differ(store.temp_dir, a, b);
    }
}

/// A new upload has a temporary file of its own.
proof fn new_path_differs(store: Store, token: Seq<char>, id: Seq<char>)
    requires
        uploads_sound(store),
        !store.sessions.contains_key(token),
        store.sessions.contains_key(id),
    ensures
        store.temp_dir + temp_name(token) != store.sessions[id].row.temp_path,
{
    assert(session_sound(store, id));
    if store.temp_dir + temp_name(token) == store.sessions[id].row.temp_path {
        temp_paths_differ(store.temp_dir, token, id);
    }
}

/// The request was worked off to its end.
pub open spec fn worked_off(change: Change) -> bool {
    !(change is BrokenOffInit || change is BrokenOffChunk || change is BrokenOffComplete || change
        is BrokenOffCancel)
}

/// Requests that are worked off, one after the other, leave the count of received
/// bytes of every upload right.
pub proof fn counts_stay_right(store: Store, change: Change, upload_id: Seq<char>)
    requires
        store_ok(store),
        possible(store, change),
        worked_off(change),
        store.sessions.contains_key(upload_id) ==> count_right(store, upload_id),
        changed(store, change).sessions.contains_key(upload_id),
    ensures
        count_right(changed(store, change), upload_id),
{
    let after = changed(store, change);
    match change {
        Change::Chunk { chunk } => {
            chunk_keeps_counts(store, chunk, upload_id);
        },
        Change::Init { request, token } => {
            let old = upload_with_key(store, request.file_key);
            if exists|id: Seq<char>| #[trigger] store.has_key(id, request.file_key) {
                assert(store.has_key(old, request.file_key));
                recount_sound(store, old);
                assert(with_recount(store, old).parts_of(upload_id) == store.parts_of(upload_id));
            }
            assert(upload_id != token ==> after.parts_of(upload_id) == store.parts_of(upload_id));
            if upload_id == token {
                assert(after.parts_of(token) =~= Seq::<Part>::empty());
            }
        },
        _ => {
            assert(after.parts_of(upload_id) == store.parts_of(upload_id));
        },
    }
}

/// The request makes a stored file of that name.
pub open spec fn makes_file(change: Change, file_id: Seq<char>) -> bool {
    match change {
        Change::Complete { file_id: name, .. } => name == file_id,
        Change::BrokenOffComplete { file_id: name, .. } => name == file_id,
        Change::File { file, .. } => file.file_id == file_id,
        _ => false,
    }
}

/// A link that leads nowhere stays so, whatever is asked for, unless a file of that
/// very name is made.
pub proof fn deleted_link_stays_gone(store: Store, change: Change, file_id: Seq<char>)
    requires
        store_ok(store),
        possible(store, change),
        find_file(store.messages, file_id) is None,
        !makes_file(change, file_id),
    ensures
        find_file(changed(store, change).messages, file_id) is None,
{
    let after = changed(store, change);
    let none = Seq::<char>::empty();
    let nothing = Seq::<u8>::empty();
    found_file_is_there(store.messages, file_id);
    match change {
        Change::Delete { ids } => {
            deleted_messages_are_gone(store, ids);
            assert forall|k: int| 0 <= k < after.messages.len() implies (
            #[trigger] after.messages[k]).file_id != Some(file_id) by {
                assert(after.messages.contains(after.messages[k]));
                let i = choose|i: int|
                    0 <= i < store.messages.len() && store.messages[i] == after.messages[k];
                assert(store.messages[i].file_id != Some(file_id));
            }
        },
        Change::BrokenOffInit { request, token, now, actions } => {
            broken_off_init_does_no_harm(store, request, token, now, actions, none, nothing);
        },
        Change::BrokenOffChunk { headers, body, now, actions } => {
            broken_off_chunk_leaves_uploads_sound(store, headers, body, now, actions);
        },
        Change::BrokenOffComplete { upload_id, file_id: name, now, actions } => {
            broken_off_complete_does_no_harm(
                store,
                upload_id,
                name,
                now,
                actions,
                none,
                nothing,
            );
            assert forall|k: int| 0 <= k < after.messages.len() implies (
            #[trigger] after.messages[k]).file_id != Some(file_id) by {
                if k < store.messages.len() {
                    assert(after.messages[k] == store.messages[k]);
                }
            }
        },
        Change::BrokenOffCancel { upload_id, actions } => {
            broken_off_cancel_does_no_harm(store, upload_id, actions, none, nothing);
        },
        _ => {
            assert forall|k: int| 0 <= k < after.messages.len() implies (
            #[trigger] after.messages[k]).file_id != Some(file_id) by {
                if k < store.messages.len() {
                    assert(after.messages[k] == store.messages[k]);
                }
            }
        },
    }
    file_is_not_found(after.messages, file_id);
}

/// What is stored after the requests, one after the other.
pub open spec fn after_all(store: Store, changes: Seq<Change>) -> Store
    decreases changes.len(),
{
    if changes.len() == 0 {
        store
    } else {
        changed(after_all(store, changes.drop_last()), changes.last())
    }
}

/// Each of the requests can come to be worked off, once those before it were.
pub open spec fn all_possible(store: Store, changes: Seq<Change>) -> bool
    decreases changes.len(),
{
    changes.len() > 0 ==> all_possible(store, changes.drop_last()) && possible(
        after_all(store, changes.drop_last()),
        changes.last(),
    )
}

/// The request deletes the message with the number `id`.
pub open spec fn deletes(change: Change, id: i64) -> bool {
    change matches Change::Delete { ids } && ids.contains(id)
}

/// One of the requests deletes the message with the number `id`.
pub open spec fn is_deleted(changes: Seq<Change>, id: i64) -> bool {
    exists|i: int| 0 <= i < changes.len() && deletes(#[trigger] changes[i], id)
}

/// None of the requests makes a file of that name.
pub open spec fn name_is_not_drawn(changes: Seq<Change>, file_id: Seq<char>) -> bool {
    forall|i: int| 0 <= i < changes.len() ==> !makes_file(#[trigger] changes[i], file_id)
}

/// Whatever was asked for, everything that is stored is in order.
pub proof fn every_history_keeps_the_store_ok(store: Store, changes: Seq<Change>)
    requires
        store_ok(store),
        all_possible(store, changes),
    ensures
        store_ok(after_all(store, changes)),
    decreases changes.len(),
{
    if changes.len() > 0 {
        let before = changes.drop_last();
        every_history_keeps_the_store_ok(store, before);
        every_change_keeps_the_store_ok(after_all(store, before), changes.last());
    }
}

/// What is left of a message and its file after the requests.
proof fn link_through_history(store: Store, changes: Seq<Change>, row: Row, file_id: Seq<char>)
    requires
        store_ok(store),
        all_possible(store, changes),
        store.messages.contains(row),
        row.file_id == Some(file_id),
        store.files[file_id].len() <= u64::MAX,
        name_is_not_drawn(changes, file_id),
    ensures
        ({
            let after = after_all(store, changes);
            if is_deleted(changes, row.id) {
                find_file(after.messages, file_id) is None
            } else {
                &&& after.messages.contains(row)
                &&& is_linked(after, file_id)
                &&& after.files[file_id] == store.files[file_id]
            }
        }),
    decreases changes.len(),
{
    if changes.len() == 0 {
        file_of_a_message_is_linked(store, row, file_id);
    } else {
        let before = changes.drop_last();
        let n = changes.len() - 1;
        let mid = after_all(store, before);
        assert forall|i: int| 0 <= i < before.len() implies !makes_file(
            #[trigger] before[i],
            file_id,
        ) by {
            assert(!makes_file(changes[i], file_id));
        }
        every_history_keeps_the_store_ok(store, before);
        link_through_history(store, before, row, file_id);
        if is_deleted(before, row.id) {
            let i = choose|i: int| 0 <= i < before.len() && deletes(#[trigger] before[i], row.id);
            assert(deletes(changes[i], row.id));
            assert(!makes_file(changes[n], file_id));
            deleted_link_stays_gone(mid, changes.last(), file_id);
        } else if deletes(changes.last(), row.id) {
            assert(deletes(changes[n], row.id));
            if let Change::Delete { ids } = changes.last() {
                files_of_deleted_messages_are_gone(mid, ids, row, file_id);
            }
        } else {
            if is_deleted(changes, row.id) {
                let i = choose|i: int|
                    0 <= i < changes.len() && deletes(#[trigger] changes[i], row.id);
                assert(before[i] == changes[i]);
            }
            links_last(mid, changes.last(), row, file_id);
        }
    }
}

/// The link of a message gives its file, byte for byte, to everyone, as long as the
/// message was not deleted; from the moment it was, the file is not found. That
/// holds whatever else was asked for, as long as no file gets the same random name.
pub proof fn link_is_good_until_deleted(
    reading: Reading,
    changes: Seq<Change>,
    row: Row,
    file_id: Seq<char>,
    headers: Headers,
    download: Option<Seq<char>>,
)
    requires
        store_ok(reading.store),
        all_possible(reading.store, changes),
        reading.store.messages.contains(row),
        row.file_id == Some(file_id),
        reading.store.files[file_id].len() <= u64::MAX,
        name_is_not_drawn(changes, file_id),
        headers.range is None,
    ensures
        ({
            let after = Reading { store: after_all(reading.store, changes), ..reading };
            let end = run_download(after, asked(file_id, headers, download));
            if is_deleted(changes, row.id) {
                refuses(end, refusal(NOT_FOUND, "文件不存在"@))
            } else {
                serves(end, OK, reading.store.files[file_id])
            }
        }),
{
    let after = Reading { store: after_all(reading.store, changes), ..reading };
    let request = asked(file_id, headers, download);
    link_through_history(reading.store, changes, row, file_id);
    if is_deleted(changes, row.id) {
        unlinked_file_is_not_found(after, request);
    } else {
        linked_file_is_served(after, request);
    }
}

/// The request adds a file, and does so.
pub open spec fn adds_file(store: Store, change: Change) -> bool {
    match change {
        Change::Complete { upload_id, file_id, now } => complete_effect(
            store,
            upload_id,
            file_id,
            now,
        ).1 is Ok,
        Change::File { content, .. } => content.len() <= u64::MAX,
        _ => false,
    }
}

/// The message of the file that the request adds.
pub open spec fn added_row(store: Store, change: Change) -> Row {
    match change {
        Change::Complete { upload_id, file_id, now } => completed_row(
            store,
            upload_id,
            file_id,
            now,
        ),
        Change::File { file, now, .. } => file_row(store, file, now),
        _ => arbitrary(),
    }
}

/// The bytes of the file that the request adds.
pub open spec fn added_bytes(store: Store, change: Change) -> Seq<u8> {
    match change {
        Change::Complete { upload_id, .. } => store.temps[store.sessions[upload_id].row.temp_path],
        Change::File { content, .. } => content,
        _ => arbitrary(),
    }
}

/// A file that is added, in one piece or as an upload, can be had by the link in the
/// answer from then on until its message is deleted, and never after.
pub proof fn new_link_is_good_until_deleted(
    reading: Reading,
    change: Change,
    changes: Seq<Change>,
    file_id: Seq<char>,
    headers: Headers,
    download: Option<Seq<char>>,
)
    requires
        store_ok(reading.store),
        possible(reading.store, change),
        adds_file(reading.store, change),
        makes_file(change, file_id),
        all_possible(changed(reading.store, change), changes),
        name_is_not_drawn(changes, file_id),
        headers.range is None,
    ensures
        ({
            let row = added_row(reading.store, change);
            let store = after_all(changed(reading.store, change), changes);
            let end = run_download(
                Reading { store, ..reading },
                asked(file_id, headers, download),
            );
            &&& row.file_id == Some(file_id)
            &&& if is_deleted(changes, row.id) {
                refuses(end, refusal(NOT_FOUND, "文件不存在"@))
            } else {
                serves(end, OK, added_bytes(reading.store, change))
            }
        }),
{
    let store = changed(reading.store, change);
    let row = added_row(reading.store, change);
    every_change_keeps_the_store_ok(reading.store, change);
    assert(store.messages[store.messages.len() - 1] == row);
    assert(store.messages.contains(row));
    if let Change::Complete { upload_id, .. } = change {
        assert(session_sound(reading.store, upload_id));
    }
    link_is_good_until_deleted(
        Reading { store, ..reading },
        changes,
        row,
        file_id,
        headers,
        download,
    );
}

} // verus!
