//! What the links to stored files can be relied on for.
use vstd::prelude::*;

use crate::delete_laws::{delete_effect, deleted_messages_are_gone, other_files_stay};
use crate::delete_laws::files_of_deleted_messages_are_gone;
use crate::download::{asked_range, download_accepts, download_next, download_start};
use crate::download::{Asked, DownloadAction, DownloadEvent, DownloadState};
use crate::download::Served;
use crate::error::{refusal, Refusal, NOT_FOUND, OK, PARTIAL_CONTENT};
use crate::message::{file_path, shown, Row};
use crate::message_laws::{file_keeps_messages_ok, messages_ok, with_file};
use crate::outside::alphanumeric;
use crate::parts::total_bytes;
use crate::post::IncomingFile;
use crate::range::granted_range_lies_in_the_file;
use crate::step::{accepted, run, Step};
use crate::store::{find_file, Store};
use crate::stamp::is_token;
use crate::text::{after_prefix, decimal, first_index_is_first, split_first};
use crate::upload_complete::mime_or_default;
use crate::upload_init::{continues, init_refusal, InitRequest};
use crate::upload_laws::{complete_effect, init_effect, uploads_sound, with_recount};
use crate::upload_promises::{carries, completed_file_is_what_was_sent, recount_sound};
use crate::upload_promises::{completes_when_everything_is_there, upload_is_taken_up_again};

verus! {

/// What is stored, the file that was opened, and the place in it from which
/// bytes are read.
pub struct Reading {
    pub store: Store,
    pub content: Seq<u8>,
    pub at: u64,
}

/// What an action of a download does, and what comes back, where the storage
/// does what it is asked.
pub open spec fn perform_download(reading: Reading, action: DownloadAction<Seq<char>>) -> (
    Reading,
    DownloadEvent<Seq<char>>,
) {
    let store = reading.store;
    match action {
        DownloadAction::OpenStore => (reading, DownloadEvent::Done),
        DownloadAction::FindFile { file_id } => match find_file(store.messages, file_id) {
            Some(row) => (
                reading,
                DownloadEvent::File { file_name: row.file_name, mime_type: row.mime_type },
            ),
            None => (reading, DownloadEvent::Failed { detail: Seq::empty() }),
        },
        DownloadAction::OpenFile { file_id } => if store.files.contains_key(file_id) {
            (
                Reading { content: store.files[file_id], at: 0, ..reading },
                DownloadEvent::Done,
            )
        } else {
            (reading, DownloadEvent::Failed { detail: Seq::empty() })
        },
        DownloadAction::ReadSize => (reading, DownloadEvent::Size(reading.content.len() as u64)),
        DownloadAction::Seek { start } => (Reading { at: start, ..reading }, DownloadEvent::Done),
    }
}

/// A step of a download as a mathematical value.
pub type DownloadStepModel = Step<
    DownloadState<Seq<char>>,
    DownloadAction<Seq<char>>,
    Served,
    Refusal,
>;

/// Where a download ends.
pub open spec fn run_download(reading: Reading, request: Asked) -> (Reading, DownloadStepModel) {
    run(
        reading,
        download_start(request),
        |reading: Reading, action: DownloadAction<Seq<char>>| perform_download(reading, action),
        |state: DownloadState<Seq<char>>, event: DownloadEvent<Seq<char>>|
            download_next(state, event),
        5,
    )
}

/// A download meets no event that it does not wait for.
pub open spec fn download_accepted(reading: Reading, request: Asked) -> bool {
    accepted(
        reading,
        download_start(request),
        |reading: Reading, action: DownloadAction<Seq<char>>| perform_download(reading, action),
        |state: DownloadState<Seq<char>>, event: DownloadEvent<Seq<char>>|
            download_next(state, event),
        |state: DownloadState<Seq<char>>, event: DownloadEvent<Seq<char>>|
            download_accepts(state, event),
        5,
    )
}

/// The bytes that are sent: as many as the answer says, from the place on at
/// which the file stands.
pub open spec fn sent(reading: Reading, response: Served) -> Seq<u8> {
    reading.content.subrange(reading.at as int, reading.at + response.length)
}

/// The file can be had by its link: it has a message, and it is stored.
pub open spec fn is_linked(store: Store, file_id: Seq<char>) -> bool {
    find_file(store.messages, file_id) is Some && store.files.contains_key(file_id)
        && store.files[file_id].len() <= u64::MAX
}

/// The download ends with these bytes of the file.
pub open spec fn serves(end: (Reading, DownloadStepModel), status: u16, bytes: Seq<u8>) -> bool {
    end.1 matches Step::Reply(response) && response.status == status && response.length
        == bytes.len() && response.content_length == decimal(bytes.len()) && sent(end.0, response)
        == bytes
}

/// The download ends with the refusal.
pub open spec fn refuses(end: (Reading, DownloadStepModel), refused: Refusal) -> bool {
    end.1 == Step::<
        DownloadState<Seq<char>>,
        DownloadAction<Seq<char>>,
        Served,
        Refusal,
    >::Refuse(refused)
}

/// A linked file is handed out whole where no range of it is asked for, and else
/// exactly the bytes of the range, each as it is stored. A download changes
/// nothing.
pub proof fn linked_file_is_served(reading: Reading, request: Asked)
    requires
        is_linked(reading.store, request.file_id),
    ensures
        ({
            let end = run_download(reading, request);
            let file = reading.store.files[request.file_id];
            &&& end.0.store == reading.store
            &&& download_accepted(reading, request)
            &&& match asked_range(request, file.len() as u64) {
                Ok(None) => serves(end, OK, file),
                Ok(Some((first, last))) => serves(
                    end,
                    PARTIAL_CONTENT,
                    file.subrange(first as int, last + 1),
                ),
                Err(refused) => refuses(end, refused),
            }
        }),
{
    reveal_with_fuel(run, 6);
    reveal_with_fuel(accepted, 6);
    let file = reading.store.files[request.file_id];
    let total_size = file.len() as u64;
    if let Some(header) = request.range {
        granted_range_lies_in_the_file(header, total_size);
    }
    assert(file.subrange(0, file.len() as int) =~= file);
}

/// A file without a message, or one that is not stored, is not found.
pub proof fn unlinked_file_is_not_found(reading: Reading, request: Asked)
    requires
        find_file(reading.store.messages, request.file_id) is None
            || !reading.store.files.contains_key(request.file_id),
    ensures
        refuses(run_download(reading, request), refusal(NOT_FOUND, "文件不存在"@)),
        run_download(reading, request).0 == reading,
        download_accepted(reading, request),
{
    reveal_with_fuel(run, 6);
    reveal_with_fuel(accepted, 6);
}

/// A file that has a message is found.
pub proof fn file_of_a_message_is_found(messages: Seq<Row>, row: Row, file_id: Seq<char>)
    requires
        messages.contains(row),
        row.file_id == Some(file_id),
    ensures
        find_file(messages, file_id) is Some,
    decreases messages.len(),
{
    let i = choose|i: int| 0 <= i < messages.len() && messages[i] == row;
    if messages.last().file_id != Some(file_id) {
        assert(messages.drop_last()[i] == row);
        file_of_a_message_is_found(messages.drop_last(), row, file_id);
    }
}

/// The file of every message can be had by its link.
pub proof fn file_of_a_message_is_linked(store: Store, row: Row, file_id: Seq<char>)
    requires
        messages_ok(store),
        store.messages.contains(row),
        row.file_id == Some(file_id),
        store.files[file_id].len() <= u64::MAX,
    ensures
        is_linked(store, file_id),
{
    file_of_a_message_is_found(store.messages, row, file_id);
}

/// A link is good until its message is deleted, and not found right after.
pub proof fn link_ends_with_its_message(
    reading: Reading,
    ids: Seq<i64>,
    row: Row,
    file_id: Seq<char>,
    request: Asked,
)
    requires
        messages_ok(reading.store),
        reading.store.messages.contains(row),
        row.file_id == Some(file_id),
        reading.store.files[file_id].len() <= u64::MAX,
        request.file_id == file_id,
    ensures
        ({
            let after = Reading { store: delete_effect(reading.store, ids).0, ..reading };
            if ids.contains(row.id) {
                refuses(run_download(after, request), refusal(NOT_FOUND, "文件不存在"@))
            } else {
                &&& is_linked(after.store, file_id)
                &&& after.store.files[file_id] == reading.store.files[file_id]
            }
        }),
{
    let after = Reading { store: delete_effect(reading.store, ids).0, ..reading };
    if ids.contains(row.id) {
        files_of_deleted_messages_are_gone(reading.store, ids, row, file_id);
        unlinked_file_is_not_found(after, request);
    } else {
        other_files_stay(reading.store, ids, row, file_id);
        deleted_messages_are_gone(reading.store, ids);
        assert(after.store.messages.contains(row));
        file_of_a_message_is_found(after.store.messages, row, file_id);
    }
}

/// A file that was uploaded in parts comes back, byte for byte, by its link.
pub proof fn uploaded_file_comes_back(
    reading: Reading,
    upload_id: Seq<char>,
    file_id: Seq<char>,
    now: Seq<char>,
    file: Seq<u8>,
    request: Asked,
)
    requires
        uploads_sound(reading.store),
        carries(reading.store, upload_id, file),
        complete_effect(reading.store, upload_id, file_id, now).1 is Ok,
        request.file_id == file_id,
        request.range is None,
    ensures
        ({
            let store = complete_effect(reading.store, upload_id, file_id, now).0;
            serves(run_download(Reading { store, ..reading }, request), OK, file)
        }),
{
    let store = complete_effect(reading.store, upload_id, file_id, now).0;
    completed_file_is_what_was_sent(reading.store, upload_id, file_id, now, file);
    linked_file_is_served(Reading { store, ..reading }, request);
}

/// However often requests were broken off, and however many were worked off at the
/// same time: once every byte of the file was received, an upload that is begun
/// anew can be completed, and the file comes back, byte for byte, by its link.
pub proof fn resumed_file_comes_back(
    reading: Reading,
    begun: InitRequest,
    upload_id: Seq<char>,
    token: Seq<char>,
    file_id: Seq<char>,
    now: Seq<char>,
    file: Seq<u8>,
    request: Asked,
)
    requires
        uploads_sound(reading.store),
        carries(reading.store, upload_id, file),
        total_bytes(reading.store.parts_of(upload_id)) == file.len(),
        init_refusal(begun) is None,
        reading.store.has_key(upload_id, begun.file_key),
        continues(begun, reading.store.sessions[upload_id].row),
        request.file_id == file_id,
        request.range is None,
    ensures
        ({
            let again = init_effect(reading.store, begun, token).0;
            let (store, answer) = complete_effect(again, upload_id, file_id, now);
            &&& answer is Ok
            &&& serves(run_download(Reading { store, ..reading }, request), OK, file)
        }),
{
    upload_is_taken_up_again(reading.store, begun, upload_id, token);
    recount_sound(reading.store, upload_id);
    let again = with_recount(reading.store, upload_id);
    assert(again.parts_of(upload_id) == reading.store.parts_of(upload_id));
    completes_when_everything_is_there(again, upload_id, file_id, now);
    uploaded_file_comes_back(
        Reading { store: again, ..reading },
        upload_id,
        file_id,
        now,
        file,
        request,
    );
}

/// A file that was sent in one piece comes back, byte for byte, by its link.
pub proof fn posted_file_comes_back(
    reading: Reading,
    file: IncomingFile<Seq<char>>,
    content: Seq<u8>,
    now: Seq<char>,
    request: Asked,
)
    requires
        content.len() <= u64::MAX,
        request.file_id == file.file_id,
        request.range is None,
    ensures
        ({
            let store = with_file(reading.store, file, content, now);
            serves(run_download(Reading { store, ..reading }, request), OK, content)
        }),
{
    let store = with_file(reading.store, file, content, now);
    linked_file_is_served(Reading { store, ..reading }, request);
}

/// Completing an upload leaves the messages in order and every one with its
/// file.
pub proof fn complete_keeps_messages_ok(
    store: Store,
    upload_id: Seq<char>,
    file_id: Seq<char>,
    now: Seq<char>,
)
    requires
        messages_ok(store),
        store.has_room(),
        find_file(store.messages, file_id) is None,
    ensures
        messages_ok(complete_effect(store, upload_id, file_id, now).0),
{
    let row = store.sessions[upload_id].row;
    let file = IncomingFile {
        file_id,
        file_name: row.file_name,
        file_size: row.file_size,
        mime_type: mime_or_default(row.mime_type),
    };
    file_keeps_messages_ok(store, file, store.temps[row.temp_path], now);
}

/// The link that a message shows leads to its file: behind `/f/` stands the name
/// under which the file is stored, and behind that the name that is displayed.
pub proof fn link_names_the_file(row: Row, file_id: Seq<char>)
    requires
        row.file_id == Some(file_id),
        is_token(file_id),
    ensures
        shown(row).file_url matches Some(url) && after_prefix(url, "/f/"@) matches Some(rest)
            && split_first(rest, '/') matches Some((name, display)) && name == file_id,
{
    reveal_strlit("/f/");
    reveal_strlit("/");
    let url = file_path(file_id, row.file_name);
    let rest = url.skip("/f/"@.len() as int);
    assert(url.take("/f/"@.len() as int) =~= "/f/"@);
    assert(rest.take(file_id.len() as int) =~= file_id);
    assert(rest[file_id.len() as int] == '/');
    assert forall|i: int| 0 <= i < file_id.len() implies rest[i] != '/' by {
        assert(rest[i] == file_id[i]);
        assert(alphanumeric(file_id[i]));
    }
    first_index_is_first(rest, '/');
}

} // verus!
