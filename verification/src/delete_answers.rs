//! What a request to delete messages changes, and what it is answered, told from
//! what was stored and which numbers were sent.
use vstd::prelude::*;

use crate::delete::{chosen, delete_next, delete_start, placeholders, DeleteAction};
use crate::delete::{DeleteEvent, DeleteGot, DeleteState};
use crate::delete_laws::{chosen_are_the_positive_ids, delete_runs, files_of};
use crate::delete_laws::{files_of_the_messages, run_delete, without_ids};
use crate::message::Row;
use crate::message_laws::messages_ok;
use crate::step::Step;
use crate::store::Store;

verus! {

proof fn the_others_stay_in_order(messages: Seq<Row>, gone: Seq<i64>, ids: Seq<i64>)
    requires
        forall|i: int|
            0 <= i < messages.len() ==> (gone.contains((#[trigger] messages[i]).id)
                <==> ids.contains(messages[i].id)),
    ensures
        without_ids(messages, gone) == messages.filter(|row: Row| !ids.contains(row.id)),
        without_ids(messages, gone).len() <= messages.len(),
    decreases messages.len(),
{
    reveal(Seq::filter);
    if messages.len() > 0 {
        let head = messages.drop_last();
        assert forall|i: int| 0 <= i < head.len() implies (gone.contains((#[trigger] head[i]).id)
            <==> ids.contains(head[i].id)) by {
            assert(head[i] == messages[i]);
        }
        the_others_stay_in_order(head, gone, ids);
        assert(messages[messages.len() - 1] == messages.last());
    } else {
        assert(without_ids(messages, gone) =~= messages.filter(
            |row: Row| !ids.contains(row.id),
        ));
    }
}

/// Of all messages those stay, in their order, whose numbers were not sent, and
/// the answer tells how many are gone. With a message its file goes and the
/// playback position of the file. Every other file, every other position and
/// everything else stays.
pub proof fn exactly_the_messages_that_were_named_are_gone(
    store: Store,
    ids: Seq<i64>,
    fuel: nat,
)
    requires
        messages_ok(store),
        store.messages.len() <= usize::MAX,
        files_of(store.messages, chosen(ids)).len() <= usize::MAX,
        fuel >= 2 * files_of(store.messages, chosen(ids)).len() + 4,
    ensures
        ({
            let (after, end) = run_delete(store, delete_start(ids), fuel);
            let stays = store.messages.filter(|row: Row| !ids.contains(row.id));
            &&& after.messages == stays
            &&& end matches Step::Reply(answer) && answer.deleted == store.messages.len()
                - stays.len()
            &&& forall|file_id: Seq<char>| #[trigger]
                after.files.contains_key(file_id) <==> store.files.contains_key(file_id)
                    && !goes_with(store, ids, file_id)
            &&& forall|file_id: Seq<char>| #[trigger]
                after.files.contains_key(file_id) ==> after.files[file_id] == store.files[file_id]
            &&& forall|file_id: Seq<char>| #[trigger]
                after.progress.contains(file_id) <==> store.progress.contains(file_id)
                    && !goes_with(store, ids, file_id)
            &&& after.temp_dir == store.temp_dir
            &&& after.sessions == store.sessions
            &&& after.parts == store.parts
            &&& after.temps == store.temps
            &&& after.ui == store.ui
            &&& after.last_id == store.last_id
        }),
{
    let gone = chosen(ids);
    delete_runs(store, ids, fuel);
    chosen_are_the_positive_ids(ids);
    assert forall|i: int| 0 <= i < store.messages.len() implies (gone.contains(
        (#[trigger] store.messages[i]).id,
    ) <==> ids.contains(store.messages[i].id)) by {
        assert(store.messages[i].id > 0);
    }
    the_others_stay_in_order(store.messages, gone, ids);
    let files = files_of(store.messages, gone);
    assert forall|file_id: Seq<char>| #[trigger]
        files.to_set().contains(file_id) <==> goes_with(store, ids, file_id) by {
        files_of_the_messages(store.messages, gone, file_id);
        if files.contains(file_id) {
            let i = choose|i: int|
                0 <= i < store.messages.len() && (#[trigger] store.messages[i]).file_id == Some(
                    file_id,
                ) && gone.contains(store.messages[i].id);
            assert(ids.contains(store.messages[i].id));
        }
    }
}

/// The file belongs to a message whose number was sent.
pub open spec fn goes_with(store: Store, ids: Seq<i64>, file_id: Seq<char>) -> bool {
    exists|i: int|
        0 <= i < store.messages.len() && (#[trigger] store.messages[i]).file_id == Some(file_id)
            && ids.contains(store.messages[i].id)
}

/// A statement has one place for each value, with a comma between two of them.
pub proof fn one_place_for_each_value(count: nat)
    requires
        count > 0,
    ensures
        placeholders(count).len() == 2 * count - 1,
        forall|i: int|
            0 <= i < placeholders(count).len() ==> #[trigger] placeholders(count)[i] == if i % 2
                == 0 {
                '?'
            } else {
                ','
            },
    decreases count,
{
    reveal_strlit("?");
    reveal_strlit(",?");
    if count > 1 {
        let less = (count - 1) as nat;
        one_place_for_each_value(less);
        assert forall|i: int| 0 <= i < placeholders(count).len() implies #[trigger] placeholders(
            count,
        )[i] == if i % 2 == 0 {
            '?'
        } else {
            ','
        } by {
            if i < placeholders(less).len() {
                assert(placeholders(count)[i] == placeholders(less)[i]);
            } else {
                assert(placeholders(count)[i] == ",?"@[i - placeholders(less).len()]);
            }
        }
    }
}

/// The statements that are sent to the database, each with as many places as
/// values: which files the messages have, the playback positions of these, and
/// the messages themselves.
pub proof fn statements_that_are_sent(ids: Seq<i64>, file_ids: Seq<Option<Seq<char>>>)
    requires
        chosen(ids).len() > 0,
    ensures
        ({
            let gone = chosen(ids);
            let found = delete_next(DeleteState::Opening { ids: gone }, DeleteEvent::Done);
            let deleted = delete_next(
                DeleteState::DroppingProgress { ids: gone },
                DeleteEvent::Done,
            );
            &&& delete_start(ids) matches Step::Ask(
                DeleteState::Opening { ids: same },
                DeleteAction::OpenStore,
            ) && same == gone
            &&& found matches Step::Ask(
                DeleteState::Finding { ids: same },
                DeleteAction::FindFiles { sql, ids: values },
            ) && same == gone && values == gone && sql
                == "SELECT file_id FROM messages WHERE id IN ("@ + placeholders(gone.len()) + ")"@
            &&& deleted matches Step::Ask(
                DeleteState::Deleting,
                DeleteAction::DeleteRows { sql, ids: values },
            ) && values == gone && sql == "DELETE FROM messages WHERE id IN ("@ + placeholders(
                gone.len(),
            ) + ")"@
        }),
        match delete_next(
            DeleteState::Finding { ids: chosen(ids) },
            DeleteGot::FileIds(file_ids),
        ) {
            Step::Ask(_, DeleteAction::DropProgress { sql, file_ids: values }) => sql
                == "DELETE FROM video_progress WHERE file_id IN ("@ + placeholders(values.len())
                + ")"@,
            _ => true,
        },
{
}

/// Where no number of a message is sent nothing is asked of the storage.
pub proof fn nothing_named_nothing_gone(ids: Seq<i64>)
    ensures
        (forall|i: int| 0 <= i < ids.len() ==> #[trigger] ids[i] <= 0) ==> (delete_start(
            ids,
        ) matches Step::Reply(answer) && answer.deleted == 0),
{
    chosen_are_the_positive_ids(ids);
    let gone = chosen(ids);
    if forall|i: int| 0 <= i < ids.len() ==> #[trigger] ids[i] <= 0 {
        if gone.len() > 0 {
            assert(gone.contains(gone[0]));
            let i = choose|i: int| 0 <= i < ids.len() && ids[i] == gone[0];
            assert(ids[i] <= 0);
        }
    }
}

} // verus!
