//! Showing all messages.
use vstd::prelude::*;

use crate::error::{failure, AppError, Refusal};
use crate::message::{row_to_dto, shown, MessageDto, MessageRow, Row};
use crate::step::Step;

verus! {

/// What is asked of the storage.
#[derive(Debug, PartialEq, Eq)]
pub enum ListAction {
    /// Open the database.
    OpenStore,
    /// Read the messages, in the order of their numbers.
    LoadMessages,
}

impl DeepView for ListAction {
    type V = ListAction;

    open spec fn deep_view(&self) -> ListAction {
        *self
    }
}

/// What comes of an action. `S` is the type of text, `L` of a list of rows.
#[derive(Debug, PartialEq, Eq)]
pub enum ListEvent<S, L> {
    /// It is done.
    Done,
    /// It failed.
    Failed { detail: S },
    /// It failed before anything was read.
    Unprepared { detail: S },
    /// A row could not be read.
    RowFailed { detail: S },
    /// The messages.
    Messages(L),
}

impl<S: DeepView, L: DeepView> DeepView for ListEvent<S, L> {
    type V = ListEvent<S::V, L::V>;

    open spec fn deep_view(&self) -> Self::V {
        match self {
            ListEvent::Done => ListEvent::Done,
            ListEvent::Failed { detail } => ListEvent::Failed { detail: detail.deep_view() },
            ListEvent::Unprepared { detail } => ListEvent::Unprepared {
                detail: detail.deep_view(),
            },
            ListEvent::RowFailed { detail } => ListEvent::RowFailed {
                detail: detail.deep_view(),
            },
            ListEvent::Messages(rows) => ListEvent::Messages(rows.deep_view()),
        }
    }
}

/// The states of a request for the messages.
#[derive(Debug, PartialEq, Eq)]
pub enum ListState {
    Opening,
    Loading,
}

impl DeepView for ListState {
    type V = ListState;

    open spec fn deep_view(&self) -> ListState {
        *self
    }
}

pub type ListStep = Step<ListState, ListAction, Vec<MessageDto<String>>, AppError>;

/// An event as a mathematical value.
pub type ListGot = ListEvent<Seq<char>, Seq<Row>>;

/// A step as a mathematical value.
pub type ListStepModel = Step<ListState, ListAction, Seq<MessageDto<Seq<char>>>, Refusal>;

/// The messages that the rows are shown as, in the same order.
pub open spec fn all_shown(rows: Seq<Row>) -> Seq<MessageDto<Seq<char>>> {
    Seq::new(rows.len(), |i: int| shown(rows[i]))
}

/// How a request begins.
pub open spec fn list_start() -> ListStepModel {
    Step::Ask(ListState::Opening, ListAction::OpenStore)
}

/// The state waits for such an event.
pub open spec fn list_accepts(state: ListState, event: ListGot) -> bool {
    match state {
        ListState::Opening => event is Done || event is Failed,
        ListState::Loading => event is Messages || event is Unprepared || event is Failed
            || event is RowFailed,
    }
}

/// How the request goes on from `state` after `event`.
pub open spec fn list_next(state: ListState, event: ListGot) -> ListStepModel
    recommends
        list_accepts(state, event),
{
    match state {
        ListState::Opening => match event {
            ListEvent::Failed { detail } => Step::Refuse(failure("数据库打开失败: "@, detail)),
            _ => Step::Ask(ListState::Loading, ListAction::LoadMessages),
        },
        ListState::Loading => match event {
            ListEvent::Messages(rows) => Step::Reply(all_shown(rows)),
            ListEvent::Unprepared { detail } => Step::Refuse(failure("查询失败: "@, detail)),
            ListEvent::Failed { detail } => Step::Refuse(failure("读取失败: "@, detail)),
            ListEvent::RowFailed { detail } => Step::Refuse(failure("读取行失败: "@, detail)),
            _ => arbitrary(),
        },
    }
}

/// How a request begins.
pub fn list_messages() -> (r: ListStep)
    ensures
        r.deep_view() == list_start(),
{
    Step::Ask(ListState::Opening, ListAction::OpenStore)
}

/// The messages that the rows are shown as, in the same order.
pub fn rows_to_dtos(rows: Vec<MessageRow<String>>) -> (r: Vec<MessageDto<String>>)
    ensures
        r.deep_view() == all_shown(rows.deep_view()),
{
    let ghost all = rows.deep_view();
    let mut out: Vec<MessageDto<String>> = Vec::new();
    for row in it: rows
        invariant
            all == rows.deep_view(),
            it.seq() == rows@,
            out@.len() == it.index(),
            forall|i: int|
                0 <= i < it.index() ==> (#[trigger] out@[i]).deep_view() == shown(all[i]),
    {
        out.push(row_to_dto(row));
    }
    assert(out.deep_view() =~= all_shown(all));
    out
}

impl ListState {
    /// Whether the state waits for such an event.
    pub fn accepts(&self, event: &ListEvent<String, Vec<MessageRow<String>>>) -> (r: bool)
        ensures
            r == list_accepts(self.deep_view(), event.deep_view()),
    {
        match self {
            ListState::Opening => matches!(event, ListEvent::Done | ListEvent::Failed { .. }),
            ListState::Loading => matches!(
                event,
                ListEvent::Messages(_) | ListEvent::Unprepared { .. } | ListEvent::Failed { .. }
                | ListEvent::RowFailed { .. }
            ),
        }
    }

    /// How the request goes on after `event`.
    pub fn next(self, event: ListEvent<String, Vec<MessageRow<String>>>) -> (r: ListStep)
        requires
            list_accepts(self.deep_view(), event.deep_view()),
        ensures
            r.deep_view() == list_next(self.deep_view(), event.deep_view()),
    {
        match self {
            ListState::Opening => match event {
                ListEvent::Failed { detail } => Step::Refuse(
                    AppError::failed("数据库打开失败: ", detail.as_str()),
                ),
                _ => Step::Ask(ListState::Loading, ListAction::LoadMessages),
            },
            ListState::Loading => match event {
                ListEvent::Messages(rows) => Step::Reply(rows_to_dtos(rows)),
                ListEvent::Unprepared { detail } => Step::Refuse(
                    AppError::failed("查询失败: ", detail.as_str()),
                ),
                ListEvent::Failed { detail } => Step::Refuse(
                    AppError::failed("读取失败: ", detail.as_str()),
                ),
                ListEvent::RowFailed { detail } => Step::Refuse(
                    AppError::failed("读取行失败: ", detail.as_str()),
                ),
                _ => vstd::pervasive::unreached(),
            },
        }
    }
}

} // verus!
