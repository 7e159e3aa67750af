//! Giving up an upload.
use vstd::prelude::*;

use crate::error::{failure, AppError, Refusal};
use crate::step::Step;
use crate::upload::{Action, Event, StoreAction, StoreEvent, UploadAction, UploadEvent};

verus! {

/// Whether there was an upload to give up.
#[derive(Debug, PartialEq, Eq)]
pub struct UploadCancelResponse {
    pub cancelled: bool,
}

impl DeepView for UploadCancelResponse {
    type V = UploadCancelResponse;

    open spec fn deep_view(&self) -> UploadCancelResponse {
        *self
    }
}

/// The states of a request that gives up an upload.
#[derive(Debug, PartialEq, Eq)]
pub enum CancelState<S> {
    Opening { upload_id: S },
    FindingSession { upload_id: S },
    DroppingSession { upload_id: S, temp_path: S },
    DroppingParts { temp_path: S },
    Discarding,
}

impl<S: DeepView> DeepView for CancelState<S> {
    type V = CancelState<S::V>;

    open spec fn deep_view(&self) -> Self::V {
        match self {
            CancelState::Opening { upload_id } => CancelState::Opening {
                upload_id: upload_id.deep_view(),
            },
            CancelState::FindingSession { upload_id } => CancelState::FindingSession {
                upload_id: upload_id.deep_view(),
            },
            CancelState::DroppingSession { upload_id, temp_path } => CancelState::DroppingSession {
                upload_id: upload_id.deep_view(),
                temp_path: temp_path.deep_view(),
            },
            CancelState::DroppingParts { temp_path } => CancelState::DroppingParts {
                temp_path: temp_path.deep_view(),
            },
            CancelState::Discarding => CancelState::Discarding,
        }
    }
}

/// A request that gives up an upload.
pub type CancelUpload = CancelState<String>;

/// A state as a mathematical value.
pub type Cancel = CancelState<Seq<char>>;

pub type CancelStep = Step<CancelUpload, StoreAction, UploadCancelResponse, AppError>;

/// How a request begins.
pub open spec fn cancel_start(upload_id: Seq<char>) -> Step<
    Cancel,
    Action,
    UploadCancelResponse,
    Refusal,
> {
    Step::Ask(CancelState::Opening { upload_id }, UploadAction::OpenStore)
}

/// The state waits for such an event.
pub open spec fn cancel_accepts(state: Cancel, event: Event) -> bool {
    match state {
        CancelState::FindingSession { .. } => event is Session || event is Failed,
        _ => event is Done || event is Failed,
    }
}

/// How the request goes on from `state` after `event`.
pub open spec fn cancel_next(state: Cancel, event: Event) -> Step<
    Cancel,
    Action,
    UploadCancelResponse,
    Refusal,
>
    recommends
        cancel_accepts(state, event),
{
    match state {
        CancelState::Opening { upload_id } => match event {
            UploadEvent::Failed { detail } => Step::Refuse(failure("数据库打开失败: "@, detail)),
            _ => Step::Ask(
                CancelState::FindingSession { upload_id },
                UploadAction::FindSession { upload_id },
            ),
        },
        CancelState::FindingSession { upload_id } => match event {
            UploadEvent::Session(row) => Step::Ask(
                CancelState::DroppingSession { upload_id, temp_path: row.temp_path },
                UploadAction::DeleteSession { upload_id },
            ),
            _ => Step::Reply(UploadCancelResponse { cancelled: false }),
        },
        CancelState::DroppingSession { upload_id, temp_path } => match event {
            UploadEvent::Failed { detail } => Step::Refuse(failure("删除会话失败: "@, detail)),
            _ => Step::Ask(
                CancelState::DroppingParts { temp_path },
                UploadAction::DeleteParts { upload_id },
            ),
        },
        CancelState::DroppingParts { temp_path } => match event {
            UploadEvent::Failed { detail } => Step::Refuse(failure("删除分片失败: "@, detail)),
            _ => Step::Ask(CancelState::Discarding, UploadAction::RemoveTemp { temp_path }),
        },
        CancelState::Discarding => Step::Reply(UploadCancelResponse { cancelled: true }),
    }
}

/// How a request begins.
pub fn cancel_upload(upload_id: String) -> (r: CancelStep)
    ensures
        r.deep_view() == cancel_start(upload_id@),
{
    Step::Ask(CancelState::Opening { upload_id }, UploadAction::OpenStore)
}

impl CancelState<String> {
    /// Whether the state waits for such an event.
    pub fn accepts(&self, event: &StoreEvent) -> (r: bool)
        ensures
            r == cancel_accepts(self.deep_view(), event.deep_view()),
    {
        match self {
            CancelState::FindingSession { .. } => matches!(
                event,
                UploadEvent::Session(_) | UploadEvent::Failed { .. }
            ),
            _ => matches!(event, UploadEvent::Done | UploadEvent::Failed { .. }),
        }
    }

    /// How the request goes on after `event`.
    pub fn next(self, event: StoreEvent) -> (r: CancelStep)
        requires
            cancel_accepts(self.deep_view(), event.deep_view()),
        ensures
            r.deep_view() == cancel_next(self.deep_view(), event.deep_view()),
    {
        match self {
            CancelState::Opening { upload_id } => match event {
                UploadEvent::Failed { detail } => Step::Refuse(
                    AppError::failed("数据库打开失败: ", detail.as_str()),
                ),
                _ => {
                    let id = upload_id.clone();
                    Step::Ask(
                        CancelState::FindingSession { upload_id },
                        UploadAction::FindSession { upload_id: id },
                    )
                },
            },
            CancelState::FindingSession { upload_id } => match event {
                UploadEvent::Session(row) => {
                    let id = upload_id.clone();
                    Step::Ask(
                        CancelState::DroppingSession { upload_id, temp_path: row.temp_path },
                        UploadAction::DeleteSession { upload_id: id },
                    )
                },
                _ => Step::Reply(UploadCancelResponse { cancelled: false }),
            },
            CancelState::DroppingSession { upload_id, temp_path } => match event {
                UploadEvent::Failed { detail } => Step::Refuse(
                    AppError::failed("删除会话失败: ", detail.as_str()),
                ),
                _ => Step::Ask(
                    CancelState::DroppingParts { temp_path },
                    UploadAction::DeleteParts { upload_id },
                ),
            },
            CancelState::DroppingParts { temp_path } => match event {
                UploadEvent::Failed { detail } => Step::Refuse(
                    AppError::failed("删除分片失败: ", detail.as_str()),
                ),
                _ => Step::Ask(CancelState::Discarding, UploadAction::RemoveTemp { temp_path }),
            },
            CancelState::Discarding => Step::Reply(UploadCancelResponse { cancelled: true }),
        }
    }
}

} // verus!
