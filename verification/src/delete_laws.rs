//! What deleting messages can be relied on for.
use vstd::prelude::*;

use crate::delete::{after_files, chosen, delete_accepts, delete_next, delete_start};
use crate::delete::{present, statement, with_id, DeleteAction, DeleteDo, DeleteEvent, DeleteGot};
use crate::delete::{DeleteResponse, DeleteState, DeleteStepModel, Deletion};
use crate::error::Refusal;
use crate::message::Row;
use crate::message_laws::messages_ok;
use crate::step::{accepted, ends_as, run, Step};
use crate::store::{find_file, Store};

verus! {

/// Each number is greater than those before it.
pub open spec fn increasing(ids: Seq<i64>) -> bool {
    forall|i: int, j: int| 0 <= i < j < ids.len() ==> #[trigger] ids[i] < #[trigger] ids[j]
}

proof fn with_id_adds(ids: Seq<i64>, id: i64)
    requires
        increasing(ids),
    ensures
        increasing(with_id(ids, id)),
        forall|x: i64| #[trigger] with_id(ids, id).contains(x) <==> x == id || ids.contains(x),
    decreases ids.len(),
{
    let all = with_id(ids, id);
    if ids.len() == 0 || ids.last() < id {
        assert(all.last() == id);
        assert forall|x: i64| #[trigger] all.contains(x) <==> x == id || ids.contains(x) by {
            if ids.contains(x) {
                let i = choose|i: int| 0 <= i < ids.len() && ids[i] == x;
                assert(all[i] == x);
            }
        }
    } else if ids.last() == id {
        assert(ids[ids.len() - 1] == id);
    } else {
        let head = ids.drop_last();
        let rest = with_id(head, id);
        with_id_adds(head, id);
        assert forall|x: i64| #[trigger] all.contains(x) <==> x == id || ids.contains(x) by {
            if all.contains(x) {
                let i = choose|i: int| 0 <= i < all.len() && all[i] == x;
                if i < rest.len() {
                    assert(rest[i] == x);
                    assert(rest.contains(x));
                    if head.contains(x) {
                        let k = choose|k: int| 0 <= k < head.len() && head[k] == x;
                        assert(ids[k] == x);
                    }
                } else {
                    assert(ids[ids.len() - 1] == x);
                }
            }
            if x == id || ids.contains(x) {
                if x == ids.last() && x != id {
                    assert(all[all.len() - 1] == x);
                } else {
                    if x != id {
                        let k = choose|k: int| 0 <= k < ids.len() && ids[k] == x;
                        assert(head[k] == x);
                    }
                    assert(rest.contains(x));
                    let i = choose|i: int| 0 <= i < rest.len() && rest[i] == x;
                    assert(all[i] == x);
                }
            }
        }
        assert forall|i: int, j: int| 0 <= i < j < all.len() implies #[trigger] all[i]
            < #[trigger] all[j] by {
            if j == all.len() - 1 {
                assert(rest.contains(rest[i]));
                if rest[i] != id {
                    let k = choose|k: int| 0 <= k < head.len() && head[k] == rest[i];
                    assert(ids[k] < ids[ids.len() - 1]);
                }
            }
        }
    }
}

/// The messages that a request chooses are those whose numbers it gives: what is
/// not positive is no number of a message, and it does not matter in which order
/// or how often a number is given.
pub proof fn chosen_are_the_positive_ids(ids: Seq<i64>)
    ensures
        increasing(chosen(ids)),
        forall|id: i64| #[trigger] chosen(ids).contains(id) <==> id > 0 && ids.contains(id),
    decreases ids.len(),
{
    if ids.len() > 0 {
        let head = ids.drop_last();
        chosen_are_the_positive_ids(head);
        if ids.last() > 0 {
            with_id_adds(chosen(head), ids.last());
        }
        assert forall|id: i64| #[trigger] chosen(ids).contains(id) <==> id > 0 && ids.contains(
            id,
        ) by {
            assert(chosen(head).contains(id) <==> id > 0 && head.contains(id));
            if ids.contains(id) && id != ids.last() {
                let i = choose|i: int| 0 <= i < ids.len() && ids[i] == id;
                assert(head[i] == id);
            }
            if head.contains(id) {
                let i = choose|i: int| 0 <= i < head.len() && head[i] == id;
                assert(ids[i] == id);
            }
            assert(ids.contains(ids.last())) by {
                assert(ids[ids.len() - 1] == ids.last());
            }
        }
    }
}

/// The names of the files of the messages, `None` where a message has none.
pub open spec fn file_ids_of(messages: Seq<Row>, ids: Seq<i64>) -> Seq<Option<Seq<char>>>
    decreases messages.len(),
{
    if messages.len() == 0 {
        Seq::empty()
    } else if ids.contains(messages.last().id) {
        file_ids_of(messages.drop_last(), ids).push(messages.last().file_id)
    } else {
        file_ids_of(messages.drop_last(), ids)
    }
}

/// The messages whose numbers are not among `ids`.
pub open spec fn without_ids(messages: Seq<Row>, ids: Seq<i64>) -> Seq<Row>
    decreases messages.len(),
{
    if messages.len() == 0 {
        messages
    } else if ids.contains(messages.last().id) {
        without_ids(messages.drop_last(), ids)
    } else {
        without_ids(messages.drop_last(), ids).push(messages.last())
    }
}

/// What an action of a request that deletes messages does, and what comes back,
/// where the storage does what it is asked.
pub open spec fn perform_delete(store: Store, action: DeleteDo) -> (Store, DeleteGot) {
    match action {
        DeleteAction::OpenStore => (store, DeleteEvent::Done),
        DeleteAction::FindFiles { sql, ids } => if sql == statement(
            "SELECT file_id FROM messages WHERE id IN ("@,
            ids.len(),
        ) {
            (store, DeleteEvent::FileIds(file_ids_of(store.messages, ids)))
        } else {
            (store, DeleteEvent::Failed { detail: Seq::empty() })
        },
        DeleteAction::FileExists { file_id } => (
            store,
            DeleteEvent::Exists(store.files.contains_key(file_id)),
        ),
        DeleteAction::RemoveFile { file_id } => (
            Store { files: store.files.remove(file_id), ..store },
            DeleteEvent::Done,
        ),
        DeleteAction::DropProgress { sql, file_ids } => if sql == statement(
            "DELETE FROM video_progress WHERE file_id IN ("@,
            file_ids.len(),
        ) {
            (
                Store { progress: store.progress.difference(file_ids.to_set()), ..store },
                DeleteEvent::Done,
            )
        } else {
            (store, DeleteEvent::Failed { detail: Seq::empty() })
        },
        DeleteAction::DeleteRows { sql, ids } => if sql == statement(
            "DELETE FROM messages WHERE id IN ("@,
            ids.len(),
        ) {
            let rest = without_ids(store.messages, ids);
            (
                Store { messages: rest, ..store },
                DeleteEvent::Count((store.messages.len() - rest.len()) as usize),
            )
        } else {
            (store, DeleteEvent::Failed { detail: Seq::empty() })
        },
    }
}

/// Where a request that deletes messages ends, from `step` on.
pub open spec fn run_delete(store: Store, step: DeleteStepModel, fuel: nat) -> (
    Store,
    DeleteStepModel,
) {
    run(
        store,
        step,
        |store: Store, action: DeleteDo| perform_delete(store, action),
        |state: Deletion, event: DeleteGot| delete_next(state, event),
        fuel,
    )
}

/// A request that deletes messages, from `step` on, meets no event that it does
/// not wait for.
pub open spec fn delete_accepted(store: Store, step: DeleteStepModel, fuel: nat) -> bool {
    accepted(
        store,
        step,
        |store: Store, action: DeleteDo| perform_delete(store, action),
        |state: Deletion, event: DeleteGot| delete_next(state, event),
        |state: Deletion, event: DeleteGot| delete_accepts(state, event),
        fuel,
    )
}

/// The files of the messages.
pub open spec fn files_of(messages: Seq<Row>, ids: Seq<i64>) -> Seq<Seq<char>> {
    present(file_ids_of(messages, ids))
}

/// What is stored after the messages were deleted: they are gone, and with them
/// their files and the playback positions of these. The number of messages that
/// are gone is the reply.
pub open spec fn delete_effect(store: Store, ids: Seq<i64>) -> (
    Store,
    Result<DeleteResponse, Refusal>,
) {
    let gone = chosen(ids);
    let file_ids = files_of(store.messages, gone).to_set();
    let messages = without_ids(store.messages, gone);
    let after = Store {
        messages,
        files: store.files.remove_keys(file_ids),
        progress: store.progress.difference(file_ids),
        ..store
    };
    (after, Ok(DeleteResponse { deleted: (store.messages.len() - messages.len()) as usize }))
}

proof fn delete_step(store: Store, state: Deletion, action: DeleteDo, fuel: nat)
    requires
        fuel > 0,
    ensures
        ({
            let (after, event) = perform_delete(store, action);
            let step = delete_next(state, event);
            &&& run_delete(store, Step::Ask(state, action), fuel) == run_delete(
                after,
                step,
                (fuel - 1) as nat,
            )
            &&& delete_accepted(store, Step::Ask(state, action), fuel) == (delete_accepts(
                state,
                event,
            ) && delete_accepted(after, step, (fuel - 1) as nat))
        }),
{
}

/// How the request goes on from the file `index` on.
proof fn files_are_removed(
    store: Store,
    ids: Seq<i64>,
    file_ids: Seq<Seq<char>>,
    index: usize,
    fuel: nat,
)
    requires
        index <= file_ids.len() <= usize::MAX,
        fuel >= 2 * (file_ids.len() - index) + 2,
    ensures
        ({
            let messages = without_ids(store.messages, ids);
            let rest = file_ids.skip(index as int).to_set();
            let after = Store {
                messages,
                files: store.files.remove_keys(rest),
                progress: store.progress.difference(file_ids.to_set()),
                ..store
            };
            let reply = DeleteResponse {
                deleted: (store.messages.len() - messages.len()) as usize,
            };
            &&& ends_as(
                run_delete(store, after_files(ids, file_ids, index), fuel),
                (after, Ok(reply)),
            )
            &&& delete_accepted(store, after_files(ids, file_ids, index), fuel)
        }),
    decreases file_ids.len() - index,
{
    let rest = file_ids.skip(index as int);
    if index < file_ids.len() {
        let file_id = file_ids[index as int];
        let next = file_ids.skip(index + 1);
        assert forall|x: Seq<char>| #[trigger] rest.to_set().contains(x) <==> x == file_id
            || next.to_set().contains(x) by {
            assert(rest[0] == file_id);
            if rest.contains(x) && x != file_id {
                let i = choose|i: int| 0 <= i < rest.len() && rest[i] == x;
                assert(next[i - 1] == x);
            }
            if next.contains(x) {
                let i = choose|i: int| 0 <= i < next.len() && next[i] == x;
                assert(rest[i + 1] == x);
            }
        }
        assert(store.files.remove(file_id).remove_keys(next.to_set())
            =~= store.files.remove_keys(rest.to_set()));
        delete_step(
            store,
            DeleteState::Checking { ids, file_ids, index },
            DeleteAction::FileExists { file_id },
            fuel,
        );
        if store.files.contains_key(file_id) {
            delete_step(
                store,
                DeleteState::Removing { ids, file_ids, index },
                DeleteAction::RemoveFile { file_id },
                (fuel - 1) as nat,
            );
            let removed = Store { files: store.files.remove(file_id), ..store };
            files_are_removed(removed, ids, file_ids, (index + 1) as usize, (fuel - 2) as nat);
        } else {
            assert(store.files.remove(file_id) =~= store.files);
            files_are_removed(store, ids, file_ids, (index + 1) as usize, (fuel - 1) as nat);
        }
    } else {
        assert(rest =~= Seq::<Seq<char>>::empty());
        assert(store.files.remove_keys(rest.to_set()) =~= store.files);
        reveal_with_fuel(run, 3);
        reveal_with_fuel(accepted, 3);
        if file_ids.len() == 0 {
            assert(store.progress.difference(file_ids.to_set()) =~= store.progress);
        }
    }
}

/// A request that deletes messages does what `delete_effect` says.
pub proof fn delete_runs(store: Store, ids: Seq<i64>, fuel: nat)
    requires
        files_of(store.messages, chosen(ids)).len() <= usize::MAX,
        fuel >= 2 * files_of(store.messages, chosen(ids)).len() + 4,
    ensures
        ends_as(run_delete(store, delete_start(ids), fuel), delete_effect(store, ids)),
        delete_accepted(store, delete_start(ids), fuel),
{
    let gone = chosen(ids);
    let file_ids = files_of(store.messages, gone);
    if gone.len() == 0 {
        nothing_chosen(store.messages, gone);
        assert(file_ids.to_set() =~= Set::empty());
        assert(store.files.remove_keys(file_ids.to_set()) =~= store.files);
        assert(store.progress.difference(file_ids.to_set()) =~= store.progress);
    } else {
        delete_step(
            store,
            DeleteState::Opening { ids: gone },
            DeleteAction::OpenStore,
            fuel,
        );
        delete_step(
            store,
            DeleteState::Finding { ids: gone },
            DeleteAction::FindFiles {
                sql: statement("SELECT file_id FROM messages WHERE id IN ("@, gone.len()),
                ids: gone,
            },
            (fuel - 1) as nat,
        );
        files_are_removed(store, gone, file_ids, 0, (fuel - 2) as nat);
        assert(file_ids.skip(0) =~= file_ids);
    }
}

proof fn nothing_chosen(messages: Seq<Row>, ids: Seq<i64>)
    requires
        ids.len() == 0,
    ensures
        without_ids(messages, ids) == messages,
        files_of(messages, ids).len() == 0,
    decreases messages.len(),
{
    if messages.len() > 0 {
        nothing_chosen(messages.drop_last(), ids);
        assert(messages.drop_last().push(messages.last()) =~= messages);
    }
}

/// The files that are removed are those of the messages that are deleted.
pub proof fn files_of_the_messages(messages: Seq<Row>, ids: Seq<i64>, file_id: Seq<char>)
    ensures
        files_of(messages, ids).contains(file_id) <==> exists|i: int|
            0 <= i < messages.len() && (#[trigger] messages[i]).file_id == Some(file_id)
                && ids.contains(messages[i].id),
    decreases messages.len(),
{
    if messages.len() > 0 {
        let head = messages.drop_last();
        let last = messages.last();
        files_of_the_messages(head, ids, file_id);
        let before = files_of(head, ids);
        let all = files_of(messages, ids);
        assert(all.contains(file_id) <==> before.contains(file_id) || (ids.contains(last.id)
            && last.file_id == Some(file_id))) by {
            if ids.contains(last.id) {
                let found = file_ids_of(head, ids);
                assert(found.push(last.file_id).drop_last() =~= found);
                if let Some(name) = last.file_id {
                    assert(all == before.push(name));
                    assert(all[all.len() - 1] == name);
                    if before.contains(file_id) {
                        let i = choose|i: int| 0 <= i < before.len() && before[i] == file_id;
                        assert(all[i] == file_id);
                    }
                }
            }
        }
        if before.contains(file_id) {
            let i = choose|i: int|
                0 <= i < head.len() && (#[trigger] head[i]).file_id == Some(file_id)
                    && ids.contains(head[i].id);
            assert(messages[i] == head[i]);
        }
        if exists|i: int|
            0 <= i < messages.len() && (#[trigger] messages[i]).file_id == Some(file_id)
                && ids.contains(messages[i].id) {
            let i = choose|i: int|
                0 <= i < messages.len() && (#[trigger] messages[i]).file_id == Some(file_id)
                    && ids.contains(messages[i].id);
            if i < head.len() {
                assert(head[i] == messages[i]);
            }
        }
        if ids.contains(last.id) && last.file_id == Some(file_id) {
            assert(messages[messages.len() - 1] == last);
        }
    }
}

/// The messages that stay are among those that were there, in the same order.
proof fn what_stays(messages: Seq<Row>, ids: Seq<i64>) -> (places: Seq<int>)
    ensures
        places.len() == without_ids(messages, ids).len() <= messages.len(),
        forall|k: int|
            0 <= k < places.len() ==> 0 <= #[trigger] places[k] < messages.len()
                && without_ids(messages, ids)[k] == messages[places[k]] && !ids.contains(
                messages[places[k]].id,
            ),
        forall|k: int, l: int|
            0 <= k < l < places.len() ==> #[trigger] places[k] < #[trigger] places[l],
        forall|i: int|
            0 <= i < messages.len() && !ids.contains((#[trigger] messages[i]).id)
                ==> without_ids(messages, ids).contains(messages[i]),
    decreases messages.len(),
{
    if messages.len() == 0 {
        Seq::empty()
    } else {
        let head = messages.drop_last();
        let last = messages.last();
        let before = what_stays(head, ids);
        let rest = without_ids(head, ids);
        let all = without_ids(messages, ids);
        let places = if ids.contains(last.id) {
            before
        } else {
            before.push(messages.len() - 1)
        };
        assert forall|i: int|
            0 <= i < messages.len() && !ids.contains((#[trigger] messages[i]).id) implies
            all.contains(messages[i]) by {
            if i < head.len() {
                assert(head[i] == messages[i]);
                assert(rest.contains(messages[i]));
                let k = choose|k: int| 0 <= k < rest.len() && rest[k] == messages[i];
                assert(all[k] == messages[i]);
            } else {
                assert(all[all.len() - 1] == messages[i]);
            }
        }
        places
    }
}

/// Exactly the messages whose numbers are given are gone, and the reply tells
/// how many these are. All others are still there.
pub proof fn deleted_messages_are_gone(store: Store, ids: Seq<i64>)
    requires
        messages_ok(store),
    ensures
        ({
            let after = delete_effect(store, ids).0;
            &&& forall|row: Row| #[trigger]
                after.messages.contains(row) <==> store.messages.contains(row) && !ids.contains(
                    row.id,
                )
            &&& delete_effect(store, ids).1 matches Ok(reply) && (store.messages.len()
                <= usize::MAX ==> reply.deleted == store.messages.len() - after.messages.len())
        }),
{
    let gone = chosen(ids);
    chosen_are_the_positive_ids(ids);
    let after = delete_effect(store, ids).0;
    let places = what_stays(store.messages, gone);
    assert forall|row: Row| #[trigger]
        after.messages.contains(row) <==> store.messages.contains(row) && !ids.contains(row.id) by {
        if after.messages.contains(row) {
            let k = choose|k: int| 0 <= k < after.messages.len() && after.messages[k] == row;
            assert(store.messages[places[k]] == row);
            assert(row.id > 0);
            assert(gone.contains(row.id) <==> row.id > 0 && ids.contains(row.id));
        }
        if store.messages.contains(row) && !ids.contains(row.id) {
            let i = choose|i: int| 0 <= i < store.messages.len() && store.messages[i] == row;
            assert(!gone.contains(store.messages[i].id));
        }
    }
}

/// Deleting leaves the messages in order and every remaining one with its file.
pub proof fn delete_keeps_messages_ok(store: Store, ids: Seq<i64>)
    requires
        messages_ok(store),
    ensures
        messages_ok(delete_effect(store, ids).0),
{
    let gone = chosen(ids);
    let after = delete_effect(store, ids).0;
    let places = what_stays(store.messages, gone);
    let rows = after.messages;
    assert forall|i: int| 0 <= i < rows.len() implies 0 < (#[trigger] rows[i]).id
        <= after.last_id by {
        assert(0 <= places[i] < store.messages.len());
    }
    assert forall|i: int, j: int| 0 <= i < j < rows.len() implies (#[trigger] rows[i]).id < (
    #[trigger] rows[j]).id by {
        assert(places[i] < places[j]);
    }
    assert forall|i: int, j: int|
        0 <= i < j < rows.len() && (#[trigger] rows[i]).file_id is Some implies rows[i].file_id
        != (#[trigger] rows[j]).file_id by {
        assert(places[i] < places[j]);
    }
    assert forall|i: int| 0 <= i < rows.len() implies ((#[trigger] rows[i]).file_id matches Some(
        file_id,
    ) ==> after.files.contains_key(file_id)) by {
        assert(0 <= places[i] < store.messages.len());
        if let Some(file_id) = rows[i].file_id {
            file_of_a_message_stays(store, ids, places[i], file_id);
        }
    }
}

proof fn file_of_a_message_stays(store: Store, ids: Seq<i64>, at: int, file_id: Seq<char>)
    requires
        messages_ok(store),
        0 <= at < store.messages.len(),
        store.messages[at].file_id == Some(file_id),
        !chosen(ids).contains(store.messages[at].id),
    ensures
        !files_of(store.messages, chosen(ids)).contains(file_id),
{
    let rows = store.messages;
    files_of_the_messages(rows, chosen(ids), file_id);
    if files_of(rows, chosen(ids)).contains(file_id) {
        let i = choose|i: int|
            0 <= i < rows.len() && (#[trigger] rows[i]).file_id == Some(file_id) && chosen(
                ids,
            ).contains(rows[i].id);
        assert(i != at);
        if i < at {
            assert(rows[i].file_id != rows[at].file_id);
        } else {
            assert(rows[at].file_id != rows[i].file_id);
        }
    }
}

/// The file of a message that is not deleted stays as it is.
pub proof fn other_files_stay(store: Store, ids: Seq<i64>, row: Row, file_id: Seq<char>)
    requires
        messages_ok(store),
        store.messages.contains(row),
        row.file_id == Some(file_id),
        !ids.contains(row.id),
    ensures
        ({
            let after = delete_effect(store, ids).0;
            &&& after.files.contains_key(file_id)
            &&& after.files[file_id] == store.files[file_id]
            &&& after.progress.contains(file_id) == store.progress.contains(file_id)
        }),
{
    let at = choose|i: int| 0 <= i < store.messages.len() && store.messages[i] == row;
    chosen_are_the_positive_ids(ids);
    assert(chosen(ids).contains(row.id) <==> row.id > 0 && ids.contains(row.id));
    file_of_a_message_stays(store, ids, at, file_id);
}

/// With a message its file is gone, and the playback position of the file.
pub proof fn files_of_deleted_messages_are_gone(
    store: Store,
    ids: Seq<i64>,
    row: Row,
    file_id: Seq<char>,
)
    requires
        messages_ok(store),
        store.messages.contains(row),
        row.file_id == Some(file_id),
        ids.contains(row.id),
    ensures
        ({
            let after = delete_effect(store, ids).0;
            &&& !after.files.contains_key(file_id)
            &&& !after.progress.contains(file_id)
            &&& find_file(after.messages, file_id) is None
        }),
{
    let gone = chosen(ids);
    let rows = store.messages;
    let after = delete_effect(store, ids).0;
    let at = choose|i: int| 0 <= i < rows.len() && rows[i] == row;
    chosen_are_the_positive_ids(ids);
    assert(gone.contains(row.id));
    files_of_the_messages(rows, gone, file_id);
    assert(rows[at].file_id == Some(file_id));
    assert(files_of(rows, gone).to_set().contains(file_id));
    let places = what_stays(rows, gone);
    assert forall|k: int| 0 <= k < after.messages.len() implies (
    #[trigger] after.messages[k]).file_id != Some(file_id) by {
        let i = places[k];
        assert(rows[i] == after.messages[k]);
        if i < at {
            assert(rows[i].file_id is Some ==> rows[i].file_id != rows[at].file_id);
        } else if at < i {
            assert(rows[at].file_id != rows[i].file_id);
        }
    }
    file_is_not_found(after.messages, file_id);
}

/// A file that has no message is not found.
pub proof fn file_is_not_found(messages: Seq<Row>, file_id: Seq<char>)
    requires
        forall|k: int| 0 <= k < messages.len() ==> (#[trigger] messages[k]).file_id != Some(file_id),
    ensures
        find_file(messages, file_id) is None,
    decreases messages.len(),
{
    if messages.len() > 0 {
        assert(messages[messages.len() - 1] == messages.last());
        assert forall|k: int| 0 <= k < messages.drop_last().len() implies (
        #[trigger] messages.drop_last()[k]).file_id != Some(file_id) by {
            assert(messages[k].file_id != Some(file_id));
        }
        file_is_not_found(messages.drop_last(), file_id);
    }
}

} // verus!
