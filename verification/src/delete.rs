//! Deleting messages, and the files that belong to them.
use vstd::prelude::*;
use vstd::string::*;

use crate::error::{failure, AppError, Refusal};
use crate::step::Step;

verus! {

broadcast use vstd::seq_lib::group_seq_properties;

/// What is asked of the storage. `S` is the type of text, `I` of a list of
/// numbers, `F` of a list of texts.
#[derive(Debug, PartialEq, Eq)]
pub enum DeleteAction<S, I, F> {
    /// Open the database.
    OpenStore,
    /// Read the names of the files of the messages.
    FindFiles { sql: S, ids: I },
    /// See whether the stored file exists.
    FileExists { file_id: S },
    /// Remove the stored file.
    RemoveFile { file_id: S },
    /// Delete the playback positions of the files.
    DropProgress { sql: S, file_ids: F },
    /// Delete the messages.
    DeleteRows { sql: S, ids: I },
}

impl<S: DeepView, I: DeepView, F: DeepView> DeepView for DeleteAction<S, I, F> {
    type V = DeleteAction<S::V, I::V, F::V>;

    open spec fn deep_view(&self) -> Self::V {
        match self {
            DeleteAction::OpenStore => DeleteAction::OpenStore,
            DeleteAction::FindFiles { sql, ids } => DeleteAction::FindFiles {
                sql: sql.deep_view(),
                ids: ids.deep_view(),
            },
            DeleteAction::FileExists { file_id } => DeleteAction::FileExists {
                file_id: file_id.deep_view(),
            },
            DeleteAction::RemoveFile { file_id } => DeleteAction::RemoveFile {
                file_id: file_id.deep_view(),
            },
            DeleteAction::DropProgress { sql, file_ids } => DeleteAction::DropProgress {
                sql: sql.deep_view(),
                file_ids: file_ids.deep_view(),
            },
            DeleteAction::DeleteRows { sql, ids } => DeleteAction::DeleteRows {
                sql: sql.deep_view(),
                ids: ids.deep_view(),
            },
        }
    }
}

/// What comes of an action. `O` is the type of a list of texts of which some may
/// be missing.
#[derive(Debug, PartialEq, Eq)]
pub enum DeleteEvent<S, O> {
    /// It is done.
    Done,
    /// It failed.
    Failed { detail: S },
    /// It failed before anything was read.
    Unprepared { detail: S },
    /// The names of the files of the messages, `None` where there is no file.
    FileIds(O),
    /// Whether the file exists.
    Exists(bool),
    /// How many messages were deleted.
    Count(usize),
}

impl<S: DeepView, O: DeepView> DeepView for DeleteEvent<S, O> {
    type V = DeleteEvent<S::V, O::V>;

    open spec fn deep_view(&self) -> Self::V {
        match self {
            DeleteEvent::Done => DeleteEvent::Done,
            DeleteEvent::Failed { detail } => DeleteEvent::Failed { detail: detail.deep_view() },
            DeleteEvent::Unprepared { detail } => DeleteEvent::Unprepared {
                detail: detail.deep_view(),
            },
            DeleteEvent::FileIds(file_ids) => DeleteEvent::FileIds(file_ids.deep_view()),
            DeleteEvent::Exists(exists) => DeleteEvent::Exists(*exists),
            DeleteEvent::Count(count) => DeleteEvent::Count(*count),
        }
    }
}

/// How many messages were deleted.
#[derive(Debug, PartialEq, Eq)]
pub struct DeleteResponse {
    pub deleted: usize,
}

impl DeepView for DeleteResponse {
    type V = DeleteResponse;

    open spec fn deep_view(&self) -> DeleteResponse {
        *self
    }
}

/// The states of a request that deletes messages. `index` counts the files that
/// were dealt with.
#[derive(Debug, PartialEq, Eq)]
pub enum DeleteState<I, F> {
    Opening { ids: I },
    Finding { ids: I },
    Checking { ids: I, file_ids: F, index: usize },
    Removing { ids: I, file_ids: F, index: usize },
    DroppingProgress { ids: I },
    Deleting,
}

impl<I: DeepView, F: DeepView> DeepView for DeleteState<I, F> {
    type V = DeleteState<I::V, F::V>;

    open spec fn deep_view(&self) -> Self::V {
        match self {
            DeleteState::Opening { ids } => DeleteState::Opening { ids: ids.deep_view() },
            DeleteState::Finding { ids } => DeleteState::Finding { ids: ids.deep_view() },
            DeleteState::Checking { ids, file_ids, index } => DeleteState::Checking {
                ids: ids.deep_view(),
                file_ids: file_ids.deep_view(),
                index: *index,
            },
            DeleteState::Removing { ids, file_ids, index } => DeleteState::Removing {
                ids: ids.deep_view(),
                file_ids: file_ids.deep_view(),
                index: *index,
            },
            DeleteState::DroppingProgress { ids } => DeleteState::DroppingProgress {
                ids: ids.deep_view(),
            },
            DeleteState::Deleting => DeleteState::Deleting,
        }
    }
}

/// A request that deletes messages.
pub type Delete = DeleteState<Vec<i64>, Vec<String>>;

pub type DeleteStep = Step<
    Delete,
    DeleteAction<String, Vec<i64>, Vec<String>>,
    DeleteResponse,
    AppError,
>;

/// A state as a mathematical value.
pub type Deletion = DeleteState<Seq<i64>, Seq<Seq<char>>>;

/// An action as a mathematical value.
pub type DeleteDo = DeleteAction<Seq<char>, Seq<i64>, Seq<Seq<char>>>;

/// An event as a mathematical value.
pub type DeleteGot = DeleteEvent<Seq<char>, Seq<Option<Seq<char>>>>;

/// A step as a mathematical value.
pub type DeleteStepModel = Step<Deletion, DeleteDo, DeleteResponse, Refusal>;

/// `ids` with `id` among them: behind the smaller ones, and once only.
pub open spec fn with_id(ids: Seq<i64>, id: i64) -> Seq<i64>
    decreases ids.len(),
{
    if ids.len() == 0 || ids.last() < id {
        ids.push(id)
    } else if ids.last() == id {
        ids
    } else {
        with_id(ids.drop_last(), id).push(ids.last())
    }
}

/// The numbers of messages among `ids`, which are positive: each once, in order.
pub open spec fn chosen(ids: Seq<i64>) -> Seq<i64>
    decreases ids.len(),
{
    if ids.len() == 0 {
        ids
    } else if ids.last() > 0 {
        with_id(chosen(ids.drop_last()), ids.last())
    } else {
        chosen(ids.drop_last())
    }
}

/// The texts that are there.
pub open spec fn present(texts: Seq<Option<Seq<char>>>) -> Seq<Seq<char>>
    decreases texts.len(),
{
    if texts.len() == 0 {
        Seq::empty()
    } else {
        match texts.last() {
            Some(text) => present(texts.drop_last()).push(text),
            None => present(texts.drop_last()),
        }
    }
}

/// The places for `count` values in a statement.
pub open spec fn placeholders(count: nat) -> Seq<char>
    decreases count,
{
    if count == 0 {
        Seq::empty()
    } else if count == 1 {
        "?"@
    } else {
        placeholders((count - 1) as nat) + ",?"@
    }
}

/// The statement `head` with places for `count` values in brackets behind it.
pub open spec fn statement(head: Seq<char>, count: nat) -> Seq<char> {
    head + placeholders(count) + ")"@
}

/// How a request begins.
pub open spec fn delete_start(ids: Seq<i64>) -> DeleteStepModel {
    if chosen(ids).len() == 0 {
        Step::Reply(DeleteResponse { deleted: 0 })
    } else {
        Step::Ask(DeleteState::Opening { ids: chosen(ids) }, DeleteAction::OpenStore)
    }
}

/// The question to delete the messages.
pub open spec fn ask_delete(ids: Seq<i64>) -> DeleteStepModel {
    Step::Ask(
        DeleteState::Deleting,
        DeleteAction::DeleteRows {
            sql: statement("DELETE FROM messages WHERE id IN ("@, ids.len()),
            ids,
        },
    )
}

/// How a request goes on once the first `index` files are dealt with.
pub open spec fn after_files(
    ids: Seq<i64>,
    file_ids: Seq<Seq<char>>,
    index: usize,
) -> DeleteStepModel {
    if index < file_ids.len() {
        Step::Ask(
            DeleteState::Checking { ids, file_ids, index },
            DeleteAction::FileExists { file_id: file_ids[index as int] },
        )
    } else if file_ids.len() > 0 {
        Step::Ask(
            DeleteState::DroppingProgress { ids },
            DeleteAction::DropProgress {
                sql: statement(
                    "DELETE FROM video_progress WHERE file_id IN ("@,
                    file_ids.len(),
                ),
                file_ids,
            },
        )
    } else {
        ask_delete(ids)
    }
}

/// The state waits for such an event.
pub open spec fn delete_accepts(state: Deletion, event: DeleteGot) -> bool {
    match state {
        DeleteState::Finding { .. } => event is FileIds || event is Unprepared || event is Failed,
        DeleteState::Checking { ids, file_ids, index } => event is Exists && index
            < file_ids.len(),
        DeleteState::Removing { ids, file_ids, index } => (event is Done || event is Failed)
            && index < file_ids.len(),
        DeleteState::Deleting => event is Count || event is Failed,
        _ => event is Done || event is Failed,
    }
}

/// How the request goes on from `state` after `event`.
pub open spec fn delete_next(state: Deletion, event: DeleteGot) -> DeleteStepModel
    recommends
        delete_accepts(state, event),
{
    match state {
        DeleteState::Opening { ids } => match event {
            DeleteEvent::Failed { detail } => Step::Refuse(failure("数据库打开失败: "@, detail)),
            _ => Step::Ask(
                DeleteState::Finding { ids },
                DeleteAction::FindFiles {
                    sql: statement("SELECT file_id FROM messages WHERE id IN ("@, ids.len()),
                    ids,
                },
            ),
        },
        DeleteState::Finding { ids } => match event {
            DeleteEvent::FileIds(file_ids) => after_files(ids, present(file_ids), 0),
            DeleteEvent::Unprepared { detail } => Step::Refuse(failure("查询失败: "@, detail)),
            DeleteEvent::Failed { detail } => Step::Refuse(failure("读取失败: "@, detail)),
            _ => arbitrary(),
        },
        DeleteState::Checking { ids, file_ids, index } => match event {
            DeleteEvent::Exists(exists) => if exists {
                Step::Ask(
                    DeleteState::Removing { ids, file_ids, index },
                    DeleteAction::RemoveFile { file_id: file_ids[index as int] },
                )
            } else {
                after_files(ids, file_ids, (index + 1) as usize)
            },
            _ => arbitrary(),
        },
        DeleteState::Removing { ids, file_ids, index } => match event {
            DeleteEvent::Failed { detail } => Step::Refuse(failure("删除文件失败: "@, detail)),
            _ => after_files(ids, file_ids, (index + 1) as usize),
        },
        DeleteState::DroppingProgress { ids } => match event {
            DeleteEvent::Failed { detail } => Step::Refuse(
                failure("清理视频进度失败: "@, detail),
            ),
            _ => ask_delete(ids),
        },
        DeleteState::Deleting => match event {
            DeleteEvent::Count(deleted) => Step::Reply(DeleteResponse { deleted }),
            DeleteEvent::Failed { detail } => Step::Refuse(failure("删除失败: "@, detail)),
            _ => arbitrary(),
        },
    }
}

/// Puts `id` among `ids`.
fn add_id(ids: &mut Vec<i64>, id: i64)
    ensures
        final(ids)@ == with_id(old(ids)@, id),
{
    let ghost before = ids@;
    let mut at: usize = ids.len();
    assert(before.take(before.len() as int) =~= before);
    assert(before.skip(before.len() as int) =~= Seq::<i64>::empty());
    while at > 0 && ids[at - 1] > id
        invariant
            ids@ == before,
            at <= before.len(),
            with_id(before, id) =~= with_id(before.take(at as int), id) + before.skip(at as int),
        decreases at,
    {
        proof {
            let head = before.take(at as int);
            assert(head.drop_last() =~= before.take(at - 1));
            assert(before.skip(at - 1) =~= seq![head.last()] + before.skip(at as int));
        }
        at -= 1;
    }
    if at > 0 && ids[at - 1] == id {
        assert(before =~= before.take(at as int) + before.skip(at as int));
    } else {
        ids.insert(at, id);
        assert(ids@ =~= before.take(at as int).push(id) + before.skip(at as int));
    }
}

/// The numbers of messages among `ids`: each once, in order.
pub fn choose_ids(ids: &Vec<i64>) -> (r: Vec<i64>)
    ensures
        r@ == chosen(ids@),
{
    let mut out: Vec<i64> = Vec::new();
    let mut i: usize = 0;
    assert(ids@.take(0) =~= Seq::<i64>::empty());
    while i < ids.len()
        invariant
            i <= ids@.len(),
            out@ == chosen(ids@.take(i as int)),
        decreases ids.len() - i,
    {
        proof {
            assert(ids@.take(i + 1).drop_last() =~= ids@.take(i as int));
        }
        if ids[i] > 0 {
            add_id(&mut out, ids[i]);
        }
        i += 1;
    }
    assert(ids@.take(ids@.len() as int) =~= ids@);
    out
}

/// The same numbers.
fn copy_ids(ids: &Vec<i64>) -> (r: Vec<i64>)
    ensures
        r@ == ids@,
{
    let mut out: Vec<i64> = Vec::new();
    let mut i: usize = 0;
    while i < ids.len()
        invariant
            i <= ids@.len(),
            out@ == ids@.take(i as int),
        decreases ids.len() - i,
    {
        out.push(ids[i]);
        i += 1;
        assert(out@ =~= ids@.take(i as int));
    }
    assert(ids@.take(ids@.len() as int) =~= ids@);
    out
}

/// The texts that are there.
fn present_texts(texts: &Vec<Option<String>>) -> (r: Vec<String>)
    ensures
        r.deep_view() == present(texts.deep_view()),
{
    let ghost all = texts.deep_view();
    let mut out: Vec<String> = Vec::new();
    let mut i: usize = 0;
    assert(all.take(0) =~= Seq::<Option<Seq<char>>>::empty());
    assert(out.deep_view() =~= Seq::<Seq<char>>::empty());
    while i < texts.len()
        invariant
            all == texts.deep_view(),
            i <= all.len() == texts@.len(),
            out.deep_view() == present(all.take(i as int)),
        decreases texts.len() - i,
    {
        let ghost before = out.deep_view();
        proof {
            assert(all.take(i + 1).drop_last() =~= all.take(i as int));
            assert(all.take(i + 1).last() == texts@[i as int].deep_view());
        }
        match &texts[i] {
            Some(text) => {
                out.push(text.clone());
                assert(out.deep_view() =~= before.push(text@));
            },
            None => {},
        }
        i += 1;
    }
    assert(all.take(all.len() as int) =~= all);
    out
}

/// The statement `head` with places for `count` values in brackets behind it.
pub fn in_list(head: &str, count: usize) -> (r: String)
    ensures
        r@ == statement(head@, count as nat),
{
    let mut text = head.to_owned();
    let mut i: usize = 0;
    assert(head@ + Seq::<char>::empty() =~= head@);
    while i < count
        invariant
            i <= count,
            text@ == head@ + placeholders(i as nat),
        decreases count - i,
    {
        let ghost before = text@;
        if i > 0 {
            text.append(",?");
        } else {
            text.append("?");
        }
        i += 1;
        assert(text@ =~= head@ + placeholders(i as nat));
    }
    text.append(")");
    text
}

/// How a request begins.
pub fn delete_messages(ids: &Vec<i64>) -> (r: DeleteStep)
    ensures
        r.deep_view() == delete_start(ids@),
{
    let ids = choose_ids(ids);
    assert(ids.deep_view() =~= ids@);
    if ids.len() == 0 {
        return Step::Reply(DeleteResponse { deleted: 0 });
    }
    Step::Ask(DeleteState::Opening { ids }, DeleteAction::OpenStore)
}

/// The question to delete the messages.
fn delete_rows(ids: Vec<i64>) -> (r: DeleteStep)
    ensures
        r.deep_view() == ask_delete(ids.deep_view()),
{
    let sql = in_list("DELETE FROM messages WHERE id IN (", ids.len());
    Step::Ask(DeleteState::Deleting, DeleteAction::DeleteRows { sql, ids })
}

/// How a request goes on once the first `index` files are dealt with.
fn next_file(ids: Vec<i64>, file_ids: Vec<String>, index: usize) -> (r: DeleteStep)
    ensures
        r.deep_view() == after_files(ids.deep_view(), file_ids.deep_view(), index),
{
    if index < file_ids.len() {
        let file_id = file_ids[index].clone();
        Step::Ask(
            DeleteState::Checking { ids, file_ids, index },
            DeleteAction::FileExists { file_id },
        )
    } else if file_ids.len() > 0 {
        let sql = in_list("DELETE FROM video_progress WHERE file_id IN (", file_ids.len());
        Step::Ask(
            DeleteState::DroppingProgress { ids },
            DeleteAction::DropProgress { sql, file_ids },
        )
    } else {
        delete_rows(ids)
    }
}

impl DeleteState<Vec<i64>, Vec<String>> {
    /// Whether the state waits for such an event.
    pub fn accepts(&self, event: &DeleteEvent<String, Vec<Option<String>>>) -> (r: bool)
        ensures
            r == delete_accepts(self.deep_view(), event.deep_view()),
    {
        match self {
            DeleteState::Finding { .. } => matches!(
                event,
                DeleteEvent::FileIds(_) | DeleteEvent::Unprepared { .. }
                | DeleteEvent::Failed { .. }
            ),
            DeleteState::Checking { ids: _, file_ids, index } => *index < file_ids.len() && matches!(
                event,
                DeleteEvent::Exists(_)
            ),
            DeleteState::Removing { ids: _, file_ids, index } => *index < file_ids.len() && matches!(
                event,
                DeleteEvent::Done | DeleteEvent::Failed { .. }
            ),
            DeleteState::Deleting => matches!(
                event,
                DeleteEvent::Count(_) | DeleteEvent::Failed { .. }
            ),
            _ => matches!(event, DeleteEvent::Done | DeleteEvent::Failed { .. }),
        }
    }

    /// How the request goes on after `event`.
    pub fn next(self, event: DeleteEvent<String, Vec<Option<String>>>) -> (r: DeleteStep)
        requires
            delete_accepts(self.deep_view(), event.deep_view()),
        ensures
            r.deep_view() == delete_next(self.deep_view(), event.deep_view()),
    {
        match self {
            DeleteState::Opening { ids } => match event {
                DeleteEvent::Failed { detail } => Step::Refuse(
                    AppError::failed("数据库打开失败: ", detail.as_str()),
                ),
                _ => {
                    let sql = in_list("SELECT file_id FROM messages WHERE id IN (", ids.len());
                    let wanted = copy_ids(&ids);
                    assert(wanted.deep_view() =~= ids.deep_view());
                    Step::Ask(
                        DeleteState::Finding { ids },
                        DeleteAction::FindFiles { sql, ids: wanted },
                    )
                },
            },
            DeleteState::Finding { ids } => match event {
                DeleteEvent::FileIds(file_ids) => next_file(ids, present_texts(&file_ids), 0),
                DeleteEvent::Unprepared { detail } => Step::Refuse(
                    AppError::failed("查询失败: ", detail.as_str()),
                ),
                DeleteEvent::Failed { detail } => Step::Refuse(
                    AppError::failed("读取失败: ", detail.as_str()),
                ),
                _ => vstd::pervasive::unreached(),
            },
            DeleteState::Checking { ids, file_ids, index } => match event {
                DeleteEvent::Exists(exists) => if exists {
                    let file_id = file_ids[index].clone();
                    Step::Ask(
                        DeleteState::Removing { ids, file_ids, index },
                        DeleteAction::RemoveFile { file_id },
                    )
                } else {
                    assert(index < file_ids.len());
                    next_file(ids, file_ids, index + 1)
                },
                _ => vstd::pervasive::unreached(),
            },
            DeleteState::Removing { ids, file_ids, index } => match event {
                DeleteEvent::Failed { detail } => Step::Refuse(
                    AppError::failed("删除文件失败: ", detail.as_str()),
                ),
                _ => {
                    assert(index < file_ids.len());
                    next_file(ids, file_ids, index + 1)
                },
            },
            DeleteState::DroppingProgress { ids } => match event {
                DeleteEvent::Failed { detail } => Step::Refuse(
                    AppError::failed("清理视频进度失败: ", detail.as_str()),
                ),
                _ => delete_rows(ids),
            },
            DeleteState::Deleting => match event {
                DeleteEvent::Count(deleted) => Step::Reply(DeleteResponse { deleted }),
                DeleteEvent::Failed { detail } => Step::Refuse(
                    AppError::failed("删除失败: ", detail.as_str()),
                ),
                _ => vstd::pervasive::unreached(),
            },
        }
    }
}

} // verus!
