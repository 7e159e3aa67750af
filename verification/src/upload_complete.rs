//! Making a file out of the parts of an upload.
use vstd::prelude::*;
use vstd::string::*;

use crate::error::{failure, refusal, AppError, Refusal, CONFLICT, INTERNAL_SERVER_ERROR, NOT_FOUND};
use crate::message::{row_to_dto, shown, MessageDto};
use crate::parts::{contiguous, contiguous_end, expected_start, Part};
use crate::stamp::{create_token, is_token};
use crate::step::Step;
use crate::text::{decimal_int, push_i64, same_text};
use crate::upload::{uploading, Action, Event, SessionRow, StoreAction, StoreEvent};
use crate::upload::{UploadAction, UploadEvent};

verus! {

/// The states of a request that completes an upload.
#[derive(Debug, PartialEq, Eq)]
pub enum CompleteState<S> {
    Opening { upload_id: S, file_id: S },
    FindingSession { upload_id: S, file_id: S },
    Loading { upload_id: S, file_id: S, session: SessionRow<S> },
    Renaming { upload_id: S, file_id: S, session: SessionRow<S> },
    Copying { upload_id: S, file_id: S, session: SessionRow<S>, rename_error: S },
    Discarding { upload_id: S, file_id: S, session: SessionRow<S> },
    Inserting { upload_id: S },
    DroppingSession { upload_id: S, message_id: i64 },
    DroppingParts { message_id: i64 },
    Showing,
}

impl<S: DeepView> DeepView for CompleteState<S> {
    type V = CompleteState<S::V>;

    open spec fn deep_view(&self) -> Self::V {
        match self {
            CompleteState::Opening { upload_id, file_id } => CompleteState::Opening {
                upload_id: upload_id.deep_view(),
                file_id: file_id.deep_view(),
            },
            CompleteState::FindingSession { upload_id, file_id } => CompleteState::FindingSession {
                upload_id: upload_id.deep_view(),
                file_id: file_id.deep_view(),
            },
            CompleteState::Loading { upload_id, file_id, session } => CompleteState::Loading {
                upload_id: upload_id.deep_view(),
                file_id: file_id.deep_view(),
                session: session.deep_view(),
            },
            CompleteState::Renaming { upload_id, file_id, session } => CompleteState::Renaming {
                upload_id: upload_id.deep_view(),
                file_id: file_id.deep_view(),
                session: session.deep_view(),
            },
            CompleteState::Copying { upload_id, file_id, session, rename_error } =>
                CompleteState::Copying {
                upload_id: upload_id.deep_view(),
                file_id: file_id.deep_view(),
                session: session.deep_view(),
                rename_error: rename_error.deep_view(),
            },
            CompleteState::Discarding { upload_id, file_id, session } =>
                CompleteState::Discarding {
                upload_id: upload_id.deep_view(),
                file_id: file_id.deep_view(),
                session: session.deep_view(),
            },
            CompleteState::Inserting { upload_id } => CompleteState::Inserting {
                upload_id: upload_id.deep_view(),
            },
            CompleteState::DroppingSession { upload_id, message_id } =>
                CompleteState::DroppingSession {
                upload_id: upload_id.deep_view(),
                message_id: *message_id,
            },
            CompleteState::DroppingParts { message_id } => CompleteState::DroppingParts {
                message_id: *message_id,
            },
            CompleteState::Showing => CompleteState::Showing,
        }
    }
}

/// A request that completes an upload.
pub type CompleteUpload = CompleteState<String>;

/// A state as a mathematical value.
pub type Complete = CompleteState<Seq<char>>;

pub type CompleteStep = Step<CompleteUpload, StoreAction, MessageDto<String>, AppError>;

/// What speaks against completing the session, going by its row.
pub open spec fn session_refusal(row: SessionRow<Seq<char>>) -> Option<Refusal> {
    if row.status != uploading() {
        Some(refusal(CONFLICT, "上传会话不可完成"@))
    } else if row.received_bytes < row.file_size {
        Some(
            refusal(
                CONFLICT,
                "文件尚未上传完成，已上传 "@ + decimal_int(row.received_bytes as int) + "/"@
                    + decimal_int(row.file_size as int),
            ),
        )
    } else {
        None
    }
}

/// What speaks against joining the parts to a file of `file_size` bytes.
pub open spec fn parts_refusal(parts: Seq<Part>, file_size: i64) -> Option<Refusal> {
    if !contiguous(parts) {
        Some(refusal(CONFLICT, "文件分片不完整，无法合并"@))
    } else if expected_start(parts, parts.len() as int) != file_size {
        Some(refusal(CONFLICT, "文件分片尚未完整上传"@))
    } else {
        None
    }
}

/// The type of a file about which nothing is known.
pub open spec fn mime_or_default(mime_type: Option<Seq<char>>) -> Seq<char> {
    match mime_type {
        Some(mime_type) => mime_type,
        None => "application/octet-stream"@,
    }
}

/// The question to record the message for the file.
pub open spec fn record_file(
    upload_id: Seq<char>,
    file_id: Seq<char>,
    session: SessionRow<Seq<char>>,
    now: Seq<char>,
) -> Step<Complete, Action, MessageDto<Seq<char>>, Refusal> {
    Step::Ask(
        CompleteState::Inserting { upload_id },
        UploadAction::InsertFile {
            file_id,
            file_name: session.file_name,
            file_size: session.file_size,
            mime_type: mime_or_default(session.mime_type),
            at: now,
        },
    )
}

/// How a request begins; `file_id` names the file that is made.
pub open spec fn complete_start(upload_id: Seq<char>, file_id: Seq<char>) -> Step<
    Complete,
    Action,
    MessageDto<Seq<char>>,
    Refusal,
> {
    Step::Ask(CompleteState::Opening { upload_id, file_id }, UploadAction::OpenStore)
}

/// The state waits for such an event.
pub open spec fn complete_accepts(state: Complete, event: Event) -> bool {
    match state {
        CompleteState::FindingSession { .. } => event is Session || event is Failed,
        CompleteState::Loading { .. } => event is Parts || event is Unprepared || event is Failed,
        CompleteState::Inserting { .. } => event is Inserted || event is Failed,
        CompleteState::Showing => event is Message || event is Unprepared || event is Failed,
        _ => event is Done || event is Failed,
    }
}

/// How the request goes on from `state` after `event`, at the time `now`.
pub open spec fn complete_next(state: Complete, event: Event, now: Seq<char>) -> Step<
    Complete,
    Action,
    MessageDto<Seq<char>>,
    Refusal,
>
    recommends
        complete_accepts(state, event),
{
    match state {
        CompleteState::Opening { upload_id, file_id } => match event {
            UploadEvent::Failed { detail } => Step::Refuse(failure("数据库打开失败: "@, detail)),
            _ => Step::Ask(
                CompleteState::FindingSession { upload_id, file_id },
                UploadAction::FindSession { upload_id },
            ),
        },
        CompleteState::FindingSession { upload_id, file_id } => match event {
            UploadEvent::Session(session) => match session_refusal(session) {
                Some(refused) => Step::Refuse(refused),
                None => Step::Ask(
                    CompleteState::Loading { upload_id, file_id, session },
                    UploadAction::LoadParts { upload_id },
                ),
            },
            _ => Step::Refuse(refusal(NOT_FOUND, "上传会话不存在"@)),
        },
        CompleteState::Loading { upload_id, file_id, session } => match event {
            UploadEvent::Parts(parts) => match parts_refusal(parts, session.file_size) {
                Some(refused) => Step::Refuse(refused),
                None => Step::Ask(
                    CompleteState::Renaming { upload_id, file_id, session },
                    UploadAction::RenameTemp { temp_path: session.temp_path, file_id },
                ),
            },
            UploadEvent::Unprepared { detail } => Step::Refuse(
                failure("查询分片失败: "@, detail),
            ),
            UploadEvent::Failed { detail } => Step::Refuse(failure("读取分片失败: "@, detail)),
            _ => arbitrary(),
        },
        CompleteState::Renaming { upload_id, file_id, session } => match event {
            UploadEvent::Failed { detail } => Step::Ask(
                CompleteState::Copying { upload_id, file_id, session, rename_error: detail },
                UploadAction::CopyTemp { temp_path: session.temp_path, file_id },
            ),
            _ => record_file(upload_id, file_id, session, now),
        },
        CompleteState::Copying { upload_id, file_id, session, rename_error } => match event {
            UploadEvent::Failed { detail } => Step::Refuse(
                refusal(
                    INTERNAL_SERVER_ERROR,
                    "搬运文件失败: "@ + rename_error + "; copy fallback failed: "@ + detail,
                ),
            ),
            _ => Step::Ask(
                CompleteState::Discarding { upload_id, file_id, session },
                UploadAction::RemoveTemp { temp_path: session.temp_path },
            ),
        },
        CompleteState::Discarding { upload_id, file_id, session } => record_file(
            upload_id,
            file_id,
            session,
            now,
        ),
        CompleteState::Inserting { upload_id } => match event {
            UploadEvent::Inserted { id } => Step::Ask(
                CompleteState::DroppingSession { upload_id, message_id: id },
                UploadAction::DeleteSession { upload_id },
            ),
            UploadEvent::Failed { detail } => Step::Refuse(failure("写入消息失败: "@, detail)),
            _ => arbitrary(),
        },
        CompleteState::DroppingSession { upload_id, message_id } => match event {
            UploadEvent::Failed { detail } => Step::Refuse(
                failure("清理上传会话失败: "@, detail),
            ),
            _ => Step::Ask(
                CompleteState::DroppingParts { message_id },
                UploadAction::DeleteParts { upload_id },
            ),
        },
        CompleteState::DroppingParts { message_id } => match event {
            UploadEvent::Failed { detail } => Step::Refuse(
                failure("清理上传分片失败: "@, detail),
            ),
            _ => Step::Ask(CompleteState::Showing, UploadAction::FindMessage { id: message_id }),
        },
        CompleteState::Showing => match event {
            UploadEvent::Message(row) => Step::Reply(shown(row)),
            UploadEvent::Unprepared { detail } => Step::Refuse(failure("查询失败: "@, detail)),
            _ => Step::Refuse(refusal(NOT_FOUND, "消息不存在"@)),
        },
    }
}

/// How a request begins; `file_id` names the file that is made.
pub fn complete_upload_as(upload_id: String, file_id: String) -> (r: CompleteStep)
    ensures
        r.deep_view() == complete_start(upload_id@, file_id@),
{
    Step::Ask(CompleteState::Opening { upload_id, file_id }, UploadAction::OpenStore)
}

/// How a request begins; the file gets a random token as its name.
pub fn complete_upload(upload_id: String) -> (r: CompleteStep)
    ensures
        exists|file_id: Seq<char>| #[trigger] is_token(file_id) && r.deep_view() == complete_start(
            upload_id@,
            file_id,
        ),
{
    let file_id = create_token();
    let ghost name = file_id@;
    let step = complete_upload_as(upload_id, file_id);
    assert(is_token(name));
    step
}

/// What speaks against completing the session, going by its row.
fn check_session(row: &SessionRow<String>) -> (r: Option<AppError>)
    ensures
        r.deep_view() == session_refusal(row.deep_view()),
{
    if !same_text(row.status.as_str(), "uploading") {
        return Some(AppError::new(CONFLICT, "上传会话不可完成"));
    }
    if row.received_bytes < row.file_size {
        let mut message = "文件尚未上传完成，已上传 ".to_owned();
        push_i64(&mut message, row.received_bytes);
        message.append("/");
        push_i64(&mut message, row.file_size);
        return Some(AppError { status: CONFLICT, message });
    }
    None
}

/// The question to record the message for the file.
fn ask_record_file(
    upload_id: String,
    file_id: String,
    session: SessionRow<String>,
    now: &str,
) -> (r: CompleteStep)
    ensures
        r.deep_view() == record_file(upload_id@, file_id@, session.deep_view(), now@),
{
    let mime_type = match session.mime_type {
        Some(mime_type) => mime_type,
        None => "application/octet-stream".to_owned(),
    };
    Step::Ask(
        CompleteState::Inserting { upload_id },
        UploadAction::InsertFile {
            file_id,
            file_name: session.file_name,
            file_size: session.file_size,
            mime_type,
            at: now.to_owned(),
        },
    )
}

impl CompleteState<String> {
    /// Whether the state waits for such an event.
    pub fn accepts(&self, event: &StoreEvent) -> (r: bool)
        ensures
            r == complete_accepts(self.deep_view(), event.deep_view()),
    {
        match self {
            CompleteState::FindingSession { .. } => matches!(
                event,
                UploadEvent::Session(_) | UploadEvent::Failed { .. }
            ),
            CompleteState::Loading { .. } => matches!(
                event,
                UploadEvent::Parts(_) | UploadEvent::Unprepared { .. } | UploadEvent::Failed { .. }
            ),
            CompleteState::Inserting { .. } => matches!(
                event,
                UploadEvent::Inserted { .. } | UploadEvent::Failed { .. }
            ),
            CompleteState::Showing => matches!(
                event,
                UploadEvent::Message(_) | UploadEvent::Unprepared { .. }
                | UploadEvent::Failed { .. }
            ),
            _ => matches!(event, UploadEvent::Done | UploadEvent::Failed { .. }),
        }
    }

    /// How the request goes on after `event`, at the time `now`.
    pub fn next(self, event: StoreEvent, now: &str) -> (r: CompleteStep)
        requires
            complete_accepts(self.deep_view(), event.deep_view()),
        ensures
            r.deep_view() == complete_next(self.deep_view(), event.deep_view(), now@),
    {
        match self {
            CompleteState::Opening { upload_id, file_id } => match event {
                UploadEvent::Failed { detail } => Step::Refuse(
                    AppError::failed("数据库打开失败: ", detail.as_str()),
                ),
                _ => {
                    let id = upload_id.clone();
                    Step::Ask(
                        CompleteState::FindingSession { upload_id, file_id },
                        UploadAction::FindSession { upload_id: id },
                    )
                },
            },
            CompleteState::FindingSession { upload_id, file_id } => match event {
                UploadEvent::Session(session) => match check_session(&session) {
                    Some(error) => Step::Refuse(error),
                    None => {
                        let id = upload_id.clone();
                        Step::Ask(
                            CompleteState::Loading { upload_id, file_id, session },
                            UploadAction::LoadParts { upload_id: id },
                        )
                    },
                },
                _ => Step::Refuse(AppError::new(NOT_FOUND, "上传会话不存在")),
            },
            CompleteState::Loading { upload_id, file_id, session } => match event {
                UploadEvent::Parts(parts) => match contiguous_end(parts.as_slice()) {
                    None => Step::Refuse(
                        AppError::new(CONFLICT, "文件分片不完整，无法合并"),
                    ),
                    Some(end) => if end != session.file_size {
                        Step::Refuse(AppError::new(CONFLICT, "文件分片尚未完整上传"))
                    } else {
                        let temp_path = session.temp_path.clone();
                        let id = file_id.clone();
                        Step::Ask(
                            CompleteState::Renaming { upload_id, file_id, session },
                            UploadAction::RenameTemp { temp_path, file_id: id },
                        )
                    },
                },
                UploadEvent::Unprepared { detail } => Step::Refuse(
                    AppError::failed("查询分片失败: ", detail.as_str()),
                ),
                UploadEvent::Failed { detail } => Step::Refuse(
                    AppError::failed("读取分片失败: ", detail.as_str()),
                ),
                _ => vstd::pervasive::unreached(),
            },
            CompleteState::Renaming { upload_id, file_id, session } => match event {
                UploadEvent::Failed { detail } => {
                    let temp_path = session.temp_path.clone();
                    let id = file_id.clone();
                    Step::Ask(
                        CompleteState::Copying {
                            upload_id,
                            file_id,
                            session,
                            rename_error: detail,
                        },
                        UploadAction::CopyTemp { temp_path, file_id: id },
                    )
                },
                _ => ask_record_file(upload_id, file_id, session, now),
            },
            CompleteState::Copying { upload_id, file_id, session, rename_error } => match event {
                UploadEvent::Failed { detail } => {
                    let mut message = "搬运文件失败: ".to_owned();
                    message.append(rename_error.as_str());
                    message.append("; copy fallback failed: ");
                    message.append(detail.as_str());
                    Step::Refuse(AppError { status: INTERNAL_SERVER_ERROR, message })
                },
                _ => {
                    let temp_path = session.temp_path.clone();
                    Step::Ask(
                        CompleteState::Discarding { upload_id, file_id, session },
                        UploadAction::RemoveTemp { temp_path },
                    )
                },
            },
            CompleteState::Discarding { upload_id, file_id, session } => ask_record_file(
                upload_id,
                file_id,
                session,
                now,
            ),
            CompleteState::Inserting { upload_id } => match event {
                UploadEvent::Inserted { id } => {
                    let session = upload_id.clone();
                    Step::Ask(
                        CompleteState::DroppingSession { upload_id, message_id: id },
                        UploadAction::DeleteSession { upload_id: session },
                    )
                },
                UploadEvent::Failed { detail } => Step::Refuse(
                    AppError::failed("写入消息失败: ", detail.as_str()),
                ),
                _ => vstd::pervasive::unreached(),
            },
            CompleteState::DroppingSession { upload_id, message_id } => match event {
                UploadEvent::Failed { detail } => Step::Refuse(
                    AppError::failed("清理上传会话失败: ", detail.as_str()),
                ),
                _ => Step::Ask(
                    CompleteState::DroppingParts { message_id },
                    UploadAction::DeleteParts { upload_id },
                ),
            },
            CompleteState::DroppingParts { message_id } => match event {
                UploadEvent::Failed { detail } => Step::Refuse(
                    AppError::failed("清理上传分片失败: ", detail.as_str()),
                ),
                _ => Step::Ask(
                    CompleteState::Showing,
                    UploadAction::FindMessage { id: message_id },
                ),
            },
            CompleteState::Showing => match event {
                UploadEvent::Message(row) => Step::Reply(row_to_dto(row)),
                UploadEvent::Unprepared { detail } => Step::Refuse(
                    AppError::failed("查询失败: ", detail.as_str()),
                ),
                _ => Step::Refuse(AppError::new(NOT_FOUND, "消息不存在")),
            },
        }
    }
}

} // verus!
