//! What messages, and the files that belong to them, can be relied on for.
use vstd::prelude::*;

use crate::error::{refusal, Refusal, BAD_REQUEST};
use crate::list::{all_shown, list_accepts, list_next, list_start, ListAction, ListEvent, ListGot};
use crate::list::{ListState, ListStepModel};
use crate::message::{shown, MessageDto, MessageRow, Row};
use crate::post::{file_start, post_accepts, post_next, text_start, IncomingFile, PostAction};
use crate::post::{PostDo, PostEvent, PostGot, PostState, PostStepModel, Posting};
use crate::step::{accepted, ends_as, run, Step};
use crate::store::{find_file, find_row, Store};

verus! {

/// The messages are in order of their numbers, each file belongs to one of them,
/// and the file of every message is stored.
pub open spec fn messages_ok(store: Store) -> bool {
    let rows = store.messages;
    &&& 0 <= store.last_id <= i64::MAX
    &&& forall|i: int| 0 <= i < rows.len() ==> 0 < (#[trigger] rows[i]).id <= store.last_id
    &&& forall|i: int, j: int|
        0 <= i < j < rows.len() ==> (#[trigger] rows[i]).id < (#[trigger] rows[j]).id
    &&& forall|i: int, j: int|
        0 <= i < j < rows.len() && (#[trigger] rows[i]).file_id is Some ==> rows[i].file_id != (
        #[trigger] rows[j]).file_id
    &&& forall|i: int|
        0 <= i < rows.len() ==> ((#[trigger] rows[i]).file_id matches Some(file_id)
            ==> store.files.contains_key(file_id))
}

/// The row for a text.
pub open spec fn text_row(store: Store, text: Seq<char>, now: Seq<char>) -> Row {
    MessageRow {
        id: store.next_id(),
        kind: "text"@,
        text_content: Some(text),
        file_id: None,
        file_name: None,
        file_size: None,
        mime_type: None,
        created_at: now,
    }
}

/// The row for a file.
pub open spec fn file_row(store: Store, file: IncomingFile<Seq<char>>, now: Seq<char>) -> Row {
    MessageRow {
        id: store.next_id(),
        kind: "file"@,
        text_content: None,
        file_id: Some(file.file_id),
        file_name: Some(file.file_name),
        file_size: Some(file.file_size),
        mime_type: Some(file.mime_type),
        created_at: now,
    }
}

/// A field of a form that is sent: its head, and its bytes as they come.
pub struct FormField {
    pub name: Option<Seq<char>>,
    pub file_name: Option<Seq<char>>,
    pub content_type: Option<Seq<char>>,
    pub chunks: Seq<Seq<u8>>,
}

/// What is stored, the fields that are still to be read, and the bytes of the
/// present field that are.
pub struct Form {
    pub store: Store,
    pub fields: Seq<FormField>,
    pub chunks: Seq<Seq<u8>>,
}

/// What an action of a request that adds a message does, and what comes back,
/// where the storage does what it is asked.
pub open spec fn perform_post(form: Form, action: PostDo) -> (Form, PostGot) {
    let store = form.store;
    match action {
        PostAction::NextField => if form.fields.len() == 0 {
            (form, PostEvent::NoField)
        } else {
            let field = form.fields[0];
            (
                Form { fields: form.fields.skip(1), chunks: field.chunks, ..form },
                PostEvent::Field {
                    name: field.name,
                    file_name: field.file_name,
                    content_type: field.content_type,
                },
            )
        },
        PostAction::CreateFile { file_id } => (
            Form {
                store: Store { files: store.files.insert(file_id, Seq::empty()), ..store },
                ..form
            },
            PostEvent::Done,
        ),
        PostAction::NextChunk => if form.chunks.len() == 0 {
            (form, PostEvent::NoChunk)
        } else {
            (
                Form { chunks: form.chunks.skip(1), ..form },
                PostEvent::Chunk { data: form.chunks[0] },
            )
        },
        PostAction::WriteFile { file_id, data } => (
            Form {
                store: Store {
                    files: store.files.insert(file_id, store.files[file_id] + data),
                    ..store
                },
                ..form
            },
            PostEvent::Done,
        ),
        PostAction::OpenStore => (form, PostEvent::Done),
        PostAction::InsertText { text, at } => if !store.has_room() {
            (form, PostEvent::Failed { detail: Seq::empty() })
        } else {
            (
                Form { store: store.with_message(text_row(store, text, at)), ..form },
                PostEvent::Inserted { id: store.next_id() },
            )
        },
        PostAction::InsertFile { file_id, file_name, file_size, mime_type, at } => if find_file(
            store.messages,
            file_id,
        ) is Some || !store.has_room() {
            (form, PostEvent::Failed { detail: Seq::empty() })
        } else {
            let file = IncomingFile { file_id, file_name, file_size, mime_type };
            (
                Form { store: store.with_message(file_row(store, file, at)), ..form },
                PostEvent::Inserted { id: store.next_id() },
            )
        },
        PostAction::FindMessage { id } => match find_row(store.messages, id) {
            Some(row) => (form, PostEvent::Message(row)),
            None => (form, PostEvent::Failed { detail: Seq::empty() }),
        },
    }
}

/// Where a request that adds a message ends, from `step` on.
pub open spec fn run_post(form: Form, step: PostStepModel, now: Seq<char>, fuel: nat) -> (
    Form,
    PostStepModel,
) {
    run(
        form,
        step,
        |form: Form, action: PostDo| perform_post(form, action),
        |state: Posting, event: PostGot| post_next(state, event, now),
        fuel,
    )
}

/// A request that adds a message, from `step` on, meets no event that it does
/// not wait for.
pub open spec fn post_accepted(
    form: Form,
    step: PostStepModel,
    now: Seq<char>,
    fuel: nat,
) -> bool {
    accepted(
        form,
        step,
        |form: Form, action: PostDo| perform_post(form, action),
        |state: Posting, event: PostGot| post_next(state, event, now),
        |state: Posting, event: PostGot| post_accepts(state, event),
        fuel,
    )
}

/// A text that is sent is added to the messages as it is, however long it is.
pub proof fn text_is_added(form: Form, text: Seq<char>, now: Seq<char>)
    requires
        form.store.has_room(),
    ensures
        ends_as(
            run_post(form, text_start(text), now, 4),
            (
                Form { store: form.store.with_message(text_row(form.store, text, now)), ..form },
                Ok(shown(text_row(form.store, text, now))),
            ),
        ),
        post_accepted(form, text_start(text), now, 4),
{
    reveal_with_fuel(run, 5);
    reveal_with_fuel(accepted, 5);
    let row = text_row(form.store, text, now);
    assert(find_row(form.store.messages.push(row), row.id) == Some(row));
}

/// The bytes of the pieces, one after the other.
pub open spec fn joined(chunks: Seq<Seq<u8>>) -> Seq<u8>
    decreases chunks.len(),
{
    if chunks.len() == 0 {
        Seq::empty()
    } else {
        chunks[0] + joined(chunks.skip(1))
    }
}

/// What is stored once the file was received whole and its message added.
pub open spec fn with_file(
    store: Store,
    file: IncomingFile<Seq<char>>,
    content: Seq<u8>,
    now: Seq<char>,
) -> Store {
    let stored = Store { files: store.files.insert(file.file_id, content), ..store };
    stored.with_message(file_row(store, file, now))
}

proof fn post_step(form: Form, state: Posting, action: PostDo, now: Seq<char>, fuel: nat)
    requires
        fuel > 0,
    ensures
        ({
            let (after, event) = perform_post(form, action);
            let step = post_next(state, event, now);
            &&& run_post(form, Step::Ask(state, action), now, fuel) == run_post(
                after,
                step,
                now,
                (fuel - 1) as nat,
            )
            &&& post_accepted(form, Step::Ask(state, action), now, fuel) == (post_accepts(
                state,
                event,
            ) && post_accepted(after, step, now, (fuel - 1) as nat))
        }),
{
}

/// How a file that is being received ends.
proof fn rest_of_file_is_stored(
    form: Form,
    file: IncomingFile<Seq<char>>,
    now: Seq<char>,
    fuel: nat,
)
    requires
        form.store.has_room(),
        find_file(form.store.messages, file.file_id) is None,
        form.store.files.contains_key(file.file_id),
        file.file_size >= 0,
        file.file_size + joined(form.chunks).len() <= i64::MAX,
        fuel >= 2 * form.chunks.len() + 4,
    ensures
        ({
            let size = file.file_size + joined(form.chunks).len();
            let whole = IncomingFile { file_size: size as i64, ..file };
            let content = form.store.files[file.file_id] + joined(form.chunks);
            let step = Step::Ask(PostState::Receiving { file }, PostAction::NextChunk);
            let after = with_file(form.store, whole, content, now);
            &&& ends_as(
                run_post(form, step, now, fuel),
                (
                    Form { store: after, chunks: Seq::empty(), ..form },
                    Ok(shown(file_row(form.store, whole, now))),
                ),
            )
            &&& post_accepted(form, step, now, fuel)
        }),
    decreases form.chunks.len(),
{
    let id = file.file_id;
    let content = form.store.files[id];
    let receiving = PostState::Receiving { file };
    post_step(form, receiving, PostAction::NextChunk, now, fuel);
    if form.chunks.len() == 0 {
        assert(joined(form.chunks) =~= Seq::empty());
        assert(content + Seq::<u8>::empty() =~= content);
        assert(form.chunks =~= Seq::empty());
        assert(form.store.files.insert(id, content) =~= form.store.files);
        let opening = PostState::OpeningForFile { file };
        let insert = PostAction::InsertFile {
            file_id: file.file_id,
            file_name: file.file_name,
            file_size: file.file_size,
            mime_type: file.mime_type,
            at: now,
        };
        post_step(form, opening, PostAction::OpenStore, now, (fuel - 1) as nat);
        post_step(form, PostState::Inserting, insert, now, (fuel - 2) as nat);
        let row = file_row(form.store, file, now);
        let inserted = Form { store: form.store.with_message(row), ..form };
        post_step(
            inserted,
            PostState::Showing,
            PostAction::FindMessage { id: row.id },
            now,
            (fuel - 3) as nat,
        );
        assert(find_row(form.store.messages.push(row), row.id) == Some(row));
    } else {
        let data = form.chunks[0];
        let rest = Form { chunks: form.chunks.skip(1), ..form };
        let grown = IncomingFile { file_size: (file.file_size + data.len()) as i64, ..file };
        let write = PostAction::WriteFile { file_id: id, data };
        post_step(rest, PostState::Writing { file: grown }, write, now, (fuel - 1) as nat);
        let (written, _) = perform_post(rest, write);
        rest_of_file_is_stored(written, grown, now, (fuel - 2) as nat);
        assert(content + data + joined(form.chunks.skip(1)) =~= content + joined(form.chunks));
        assert(form.store.files.insert(id, content + data).insert(
            id,
            content + joined(form.chunks),
        ) =~= form.store.files.insert(id, content + joined(form.chunks)));
    }
}

/// The place of the first field that holds a file, or the number of fields.
pub open spec fn file_field(fields: Seq<FormField>) -> int
    decreases fields.len(),
{
    if fields.len() == 0 || fields[0].name == Some("file"@) {
        0
    } else {
        1 + file_field(fields.skip(1))
    }
}

proof fn file_field_is_in_range(fields: Seq<FormField>)
    ensures
        0 <= file_field(fields) <= fields.len(),
    decreases fields.len(),
{
    if fields.len() > 0 && fields[0].name != Some("file"@) {
        file_field_is_in_range(fields.skip(1));
    }
}

/// The file that the field announces, before any byte of it has come.
pub open spec fn announced(field: FormField, file_id: Seq<char>) -> IncomingFile<Seq<char>> {
    IncomingFile {
        file_id,
        file_name: match field.file_name {
            Some(file_name) => file_name,
            None => "file"@,
        },
        mime_type: match field.content_type {
            Some(content_type) => content_type,
            None => "application/octet-stream"@,
        },
        file_size: 0,
    }
}

/// A file that is sent in one piece is stored byte for byte under its name, and
/// its message tells its size.
pub proof fn file_is_added(form: Form, file_id: Seq<char>, now: Seq<char>, fuel: nat)
    requires
        form.store.has_room(),
        find_file(form.store.messages, file_id) is None,
        file_field(form.fields) < form.fields.len() ==> joined(
            form.fields[file_field(form.fields)].chunks,
        ).len() <= i64::MAX,
        fuel >= form.fields.len() + 6,
        file_field(form.fields) < form.fields.len() ==> fuel >= form.fields.len() + 2
            * form.fields[file_field(form.fields)].chunks.len() + 6,
    ensures
        ({
            let at = file_field(form.fields);
            let (after, end) = run_post(form, file_start(file_id), now, fuel);
            &&& 0 <= at <= form.fields.len()
            &&& at == form.fields.len() ==> after.store == form.store && end == Step::<
                Posting,
                PostDo,
                MessageDto<Seq<char>>,
                Refusal,
            >::Refuse(refusal(BAD_REQUEST, "缺少文件"@))
            &&& at < form.fields.len() ==> {
                let content = joined(form.fields[at].chunks);
                let file = IncomingFile {
                    file_size: content.len() as i64,
                    ..announced(form.fields[at], file_id)
                };
                &&& after.store == with_file(form.store, file, content, now)
                &&& end == Step::<Posting, PostDo, MessageDto<Seq<char>>, Refusal>::Reply(
                    shown(file_row(form.store, file, now)),
                )
            }
            &&& post_accepted(form, file_start(file_id), now, fuel)
        }),
    decreases form.fields.len(),
{
    let reading = PostState::ReadingField { file_id };
    post_step(form, reading, PostAction::NextField, now, fuel);
    if form.fields.len() > 0 {
        let field = form.fields[0];
        let rest = Form { fields: form.fields.skip(1), chunks: field.chunks, ..form };
        if field.name == Some("file"@) {
            let file = announced(field, file_id);
            let create = PostAction::CreateFile { file_id };
            post_step(rest, PostState::Creating { file }, create, now, (fuel - 1) as nat);
            let (created, _) = perform_post(rest, create);
            rest_of_file_is_stored(created, file, now, (fuel - 2) as nat);
            let content = joined(field.chunks);
            assert(Seq::<u8>::empty() + content =~= content);
            assert(form.store.files.insert(file_id, Seq::empty()).insert(file_id, content)
                =~= form.store.files.insert(file_id, content));
        } else {
            file_field_is_in_range(rest.fields);
            if file_field(form.fields) < form.fields.len() {
                assert(form.fields[file_field(form.fields)] == rest.fields[file_field(
                    rest.fields,
                )]);
            }
            file_is_added(rest, file_id, now, (fuel - 1) as nat);
        }
    }
}

/// A file that is not found has no message.
pub proof fn found_file_is_there(messages: Seq<Row>, file_id: Seq<char>)
    ensures
        find_file(messages, file_id) is None ==> forall|i: int|
            0 <= i < messages.len() ==> (#[trigger] messages[i]).file_id != Some(file_id),
    decreases messages.len(),
{
    if messages.len() > 0 {
        found_file_is_there(messages.drop_last(), file_id);
        assert forall|i: int|
            find_file(messages, file_id) is None && 0 <= i < messages.len() implies (
        #[trigger] messages[i]).file_id != Some(file_id) by {
            if i < messages.len() - 1 {
                assert(messages.drop_last()[i] == messages[i]);
            }
        }
    }
}

/// A text that is added gets a number that no message ever had, and leaves the
/// messages in order.
pub proof fn text_keeps_messages_ok(store: Store, text: Seq<char>, now: Seq<char>)
    requires
        messages_ok(store),
        store.has_room(),
    ensures
        messages_ok(store.with_message(text_row(store, text, now))),
        text_row(store, text, now).id > store.last_id,
{
}

/// A file that is added gets a number that no message ever had, and leaves the
/// messages in order.
pub proof fn file_keeps_messages_ok(
    store: Store,
    file: IncomingFile<Seq<char>>,
    content: Seq<u8>,
    now: Seq<char>,
)
    requires
        messages_ok(store),
        store.has_room(),
        find_file(store.messages, file.file_id) is None,
    ensures
        messages_ok(with_file(store, file, content, now)),
        file_row(store, file, now).id > store.last_id,
{
    found_file_is_there(store.messages, file.file_id);
}

/// What an action of a request for the messages does, and what comes back,
/// where the storage does what it is asked.
pub open spec fn perform_list(store: Store, action: ListAction) -> (Store, ListGot) {
    match action {
        ListAction::OpenStore => (store, ListEvent::Done),
        ListAction::LoadMessages => (store, ListEvent::Messages(store.messages)),
    }
}

/// Where a request for the messages ends.
pub open spec fn run_list(store: Store) -> (Store, ListStepModel) {
    run(
        store,
        list_start(),
        |store: Store, action: ListAction| perform_list(store, action),
        |state: ListState, event: ListGot| list_next(state, event),
        2,
    )
}

/// The list shows every message that is stored, in the order of their numbers,
/// and changes nothing.
pub proof fn list_shows_all_messages(store: Store)
    ensures
        ends_as(run_list(store), (store, Ok(all_shown(store.messages)))),
        accepted(
            store,
            list_start(),
            |store: Store, action: ListAction| perform_list(store, action),
            |state: ListState, event: ListGot| list_next(state, event),
            |state: ListState, event: ListGot| list_accepts(state, event),
            2,
        ),
{
    reveal_with_fuel(run, 3);
    reveal_with_fuel(accepted, 3);
}

/// A message that is added is shown behind all those that were there.
pub proof fn new_message_is_shown_last(store: Store, row: Row)
    ensures
        all_shown(store.with_message(row).messages) == all_shown(store.messages).push(shown(row)),
{
    assert(all_shown(store.messages.push(row)) =~= all_shown(store.messages).push(shown(row)));
}

} // verus!
