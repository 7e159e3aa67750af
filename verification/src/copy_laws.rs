//! An upload is completed in the same way where its file cannot be moved but only
//! copied.
use vstd::prelude::*;

use crate::history::store_ok;
use crate::step::{ends_as, run, Step};
use crate::store::{find_file, find_row, Store};
use crate::told_laws::CompleteGoes;
use crate::upload::{Action, Event, UploadAction};
use crate::upload_complete::{complete_next, complete_start, parts_refusal, record_file};
use crate::upload_complete::{session_refusal, Complete};
use crate::upload_laws::{complete_effect, complete_runs, completed_row, enough, run_complete};
use crate::upload_laws::session_sound;

verus! {

/// What an action does where a file cannot be moved from the temporary files to
/// the stored ones, but only copied.
pub open spec fn perform_without_moving(store: Store, action: Action) -> (Store, Event) {
    match action {
        UploadAction::RenameTemp { .. } => (store, Event::Failed { detail: Seq::empty() }),
        _ => store.perform(action),
    }
}

/// Where a request that completes an upload ends, from `step` on, if files can
/// only be copied.
pub open spec fn run_without_moving(
    store: Store,
    step: CompleteGoes,
    now: Seq<char>,
    fuel: nat,
) -> (Store, CompleteGoes) {
    run(
        store,
        step,
        |store: Store, action: Action| perform_without_moving(store, action),
        |state: Complete, event: Event| complete_next(state, event, now),
        fuel,
    )
}

proof fn next_step(store: Store, state: Complete, action: Action, now: Seq<char>, fuel: nat)
    requires
        fuel > 0,
    ensures
        ({
            let (after, event) = perform_without_moving(store, action);
            run_without_moving(store, Step::Ask(state, action), now, fuel) == run_without_moving(
                after,
                complete_next(state, event, now),
                now,
                (fuel - 1) as nat,
            )
        }),
{
}

proof fn copied_file_is_recorded(
    store: Store,
    upload_id: Seq<char>,
    file_id: Seq<char>,
    now: Seq<char>,
)
    requires
        session_sound(store, upload_id),
        store.sessions.contains_key(upload_id),
        store.has_room(),
        store.last_id >= 0,
        find_file(store.messages, file_id) is None,
        session_refusal(store.sessions[upload_id].row) is None,
        parts_refusal(
            store.parts_of(upload_id),
            store.sessions[upload_id].row.file_size,
        ) is None,
        store.temps.contains_key(store.sessions[upload_id].row.temp_path),
    ensures
        ({
            let session = store.sessions[upload_id].row;
            ends_as(
                run_without_moving(
                    store,
                    Step::Ask(
                        Complete::Renaming { upload_id, file_id, session },
                        UploadAction::RenameTemp { temp_path: session.temp_path, file_id },
                    ),
                    now,
                    9,
                ),
                complete_effect(store, upload_id, file_id, now),
            )
        }),
{
    let session = store.sessions[upload_id].row;
    let temp_path = session.temp_path;
    let rename_error = Seq::<char>::empty();
    let renaming = Complete::Renaming { upload_id, file_id, session };
    next_step(store, renaming, UploadAction::RenameTemp { temp_path, file_id }, now, 9);
    let copying = Complete::Copying { upload_id, file_id, session, rename_error };
    let copy = UploadAction::CopyTemp { temp_path, file_id };
    next_step(store, copying, copy, now, 8);
    let copied = store.perform(copy).0;
    let discarding = Complete::Discarding { upload_id, file_id, session };
    let remove = UploadAction::RemoveTemp { temp_path };
    next_step(copied, discarding, remove, now, 7);
    let cleared = copied.perform(remove).0;
    let message = completed_row(store, upload_id, file_id, now);
    let inserting = Complete::Inserting { upload_id };
    let insert = UploadAction::InsertFile {
        file_id,
        file_name: session.file_name,
        file_size: session.file_size,
        mime_type: message.mime_type->0,
        at: now,
    };
    assert(record_file(upload_id, file_id, session, now) == CompleteGoes::Ask(inserting, insert));
    next_step(cleared, inserting, insert, now, 6);
    let added = cleared.with_message(message);
    assert(cleared.perform(insert) == (added, Event::Inserted { id: message.id }));
    let drop_session = UploadAction::DeleteSession { upload_id };
    let dropping = Complete::DroppingSession { upload_id, message_id: message.id };
    next_step(added, dropping, drop_session, now, 5);
    let without_session = added.perform(drop_session).0;
    let drop_parts = UploadAction::DeleteParts { upload_id };
    let parts = Complete::DroppingParts { message_id: message.id };
    next_step(without_session, parts, drop_parts, now, 4);
    let without_parts = without_session.perform(drop_parts).0;
    let find = UploadAction::FindMessage { id: message.id };
    next_step(without_parts, Complete::Showing, find, now, 3);
    assert(without_parts.messages == store.messages.push(message));
    assert(find_row(store.messages.push(message), message.id) == Some(message));
    let after = complete_effect(store, upload_id, file_id, now).0;
    assert(after.files =~= without_parts.files);
    assert(after == without_parts);
}

/// Where a file cannot be moved it is copied, and all ends as if it had been
/// moved.
pub proof fn copying_is_as_good_as_moving(
    store: Store,
    upload_id: Seq<char>,
    file_id: Seq<char>,
    now: Seq<char>,
)
    requires
        store_ok(store),
        store.has_room(),
        find_file(store.messages, file_id) is None,
    ensures
        run_without_moving(store, complete_start(upload_id, file_id), now, enough())
            == run_complete(store, upload_id, file_id, now),
{
    complete_runs(store, upload_id, file_id, now);
    let opening = Complete::Opening { upload_id, file_id };
    next_step(store, opening, UploadAction::OpenStore, now, 12);
    let finding = Complete::FindingSession { upload_id, file_id };
    next_step(store, finding, UploadAction::FindSession { upload_id }, now, 11);
    if store.sessions.contains_key(upload_id) {
        assert(session_sound(store, upload_id));
        let session = store.sessions[upload_id].row;
        let temp_path = session.temp_path;
        let loading = Complete::Loading { upload_id, file_id, session };
        next_step(store, loading, UploadAction::LoadParts { upload_id }, now, 10);
        let renaming = Complete::Renaming { upload_id, file_id, session };
        if session_refusal(session) is None && parts_refusal(
            store.parts_of(upload_id),
            session.file_size,
        ) is None {
            if store.temps.contains_key(temp_path) {
                copied_file_is_recorded(store, upload_id, file_id, now);
            } else {
                let rename_error = Seq::<char>::empty();
                let copying = Complete::Copying { upload_id, file_id, session, rename_error };
                let rename = UploadAction::RenameTemp { temp_path, file_id };
                next_step(store, renaming, rename, now, 9);
                let copy = UploadAction::CopyTemp { temp_path, file_id };
                next_step(store, copying, copy, now, 8);
            }
        }
    }
}

} // verus!
