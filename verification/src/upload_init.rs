//! Beginning an upload, or taking up one that was broken off.
use vstd::prelude::*;

use crate::error::{failure, refusal, AppError, Refusal, BAD_REQUEST};
use crate::parts::{can_total, total_bytes, total_fits, total_uploaded_bytes, Part, UploadedPart};
use crate::stamp::{create_token, is_token};
use crate::step::Step;
use crate::text::{concat, same_text, trim, trimmed};
use crate::upload::{uploading, Action, Event, SessionRow, StoreAction, StoreEvent};
use crate::upload::{UploadAction, UploadEvent};

verus! {

/// The size of the parts that a client is asked to send.
pub const CHUNK_SIZE: usize = 4_194_304;

/// How many parts a client is asked to send at a time.
pub const PARALLEL_LIMIT: usize = 4;

/// What a client tells of the file that it will upload.
#[derive(Debug, PartialEq, Eq)]
pub struct UploadInitRequest<S> {
    pub file_key: S,
    pub file_name: S,
    pub file_size: i64,
    pub mime_type: Option<S>,
}

impl<S: DeepView> DeepView for UploadInitRequest<S> {
    type V = UploadInitRequest<S::V>;

    open spec fn deep_view(&self) -> Self::V {
        UploadInitRequest {
            file_key: self.file_key.deep_view(),
            file_name: self.file_name.deep_view(),
            file_size: self.file_size,
            mime_type: self.mime_type.deep_view(),
        }
    }
}

/// Where the upload stands. `P` is the type of a list of parts.
#[derive(Debug, PartialEq, Eq)]
pub struct UploadInitResponse<S, P> {
    pub upload_id: S,
    pub chunk_size: usize,
    pub parallel_limit: usize,
    pub received_bytes: i64,
    pub total_bytes: i64,
    pub completed_parts: P,
    pub done: bool,
}

impl<S: DeepView, P: DeepView> DeepView for UploadInitResponse<S, P> {
    type V = UploadInitResponse<S::V, P::V>;

    open spec fn deep_view(&self) -> Self::V {
        UploadInitResponse {
            upload_id: self.upload_id.deep_view(),
            chunk_size: self.chunk_size,
            parallel_limit: self.parallel_limit,
            received_bytes: self.received_bytes,
            total_bytes: self.total_bytes,
            completed_parts: self.completed_parts.deep_view(),
            done: self.done,
        }
    }
}

/// The states of a request that begins an upload.
#[derive(Debug, PartialEq, Eq)]
pub enum InitState<S, P> {
    Opening { request: UploadInitRequest<S>, token: S },
    Finding { request: UploadInitRequest<S>, token: S },
    Loading { request: UploadInitRequest<S>, upload_id: S },
    Updating { request: UploadInitRequest<S>, upload_id: S, parts: P, received_bytes: i64 },
    DroppingSession { request: UploadInitRequest<S>, token: S, old_id: S, old_path: S },
    DroppingParts { request: UploadInitRequest<S>, token: S, old_path: S },
    DroppingTemp { request: UploadInitRequest<S>, token: S },
    Creating { request: UploadInitRequest<S>, token: S },
    Inserting { file_size: i64, token: S },
}

impl<S: DeepView, P: DeepView> DeepView for InitState<S, P> {
    type V = InitState<S::V, P::V>;

    open spec fn deep_view(&self) -> Self::V {
        match self {
            InitState::Opening { request, token } => InitState::Opening {
                request: request.deep_view(),
                token: token.deep_view(),
            },
            InitState::Finding { request, token } => InitState::Finding {
                request: request.deep_view(),
                token: token.deep_view(),
            },
            InitState::Loading { request, upload_id } => InitState::Loading {
                request: request.deep_view(),
                upload_id: upload_id.deep_view(),
            },
            InitState::Updating { request, upload_id, parts, received_bytes } =>
                InitState::Updating {
                request: request.deep_view(),
                upload_id: upload_id.deep_view(),
                parts: parts.deep_view(),
                received_bytes: *received_bytes,
            },
            InitState::DroppingSession { request, token, old_id, old_path } =>
                InitState::DroppingSession {
                request: request.deep_view(),
                token: token.deep_view(),
                old_id: old_id.deep_view(),
                old_path: old_path.deep_view(),
            },
            InitState::DroppingParts { request, token, old_path } => InitState::DroppingParts {
                request: request.deep_view(),
                token: token.deep_view(),
                old_path: old_path.deep_view(),
            },
            InitState::DroppingTemp { request, token } => InitState::DroppingTemp {
                request: request.deep_view(),
                token: token.deep_view(),
            },
            InitState::Creating { request, token } => InitState::Creating {
                request: request.deep_view(),
                token: token.deep_view(),
            },
            InitState::Inserting { file_size, token } => InitState::Inserting {
                file_size: *file_size,
                token: token.deep_view(),
            },
        }
    }
}

/// A request that begins an upload.
pub type InitUpload = InitState<String, Vec<UploadedPart<String>>>;

/// A state as a mathematical value.
pub type Init = InitState<Seq<char>, Seq<Part>>;

/// A request as a mathematical value.
pub type InitRequest = UploadInitRequest<Seq<char>>;

/// A response as a mathematical value.
pub type InitResponse = UploadInitResponse<Seq<char>, Seq<Part>>;

pub type InitStep = Step<
    InitUpload,
    StoreAction,
    UploadInitResponse<String, Vec<UploadedPart<String>>>,
    AppError,
>;

/// What is wrong with the request, if anything.
pub open spec fn init_refusal(request: InitRequest) -> Option<Refusal> {
    if trimmed(request.file_key).len() == 0 {
        Some(refusal(BAD_REQUEST, "file_key 不能为空"@))
    } else if trimmed(request.file_name).len() == 0 {
        Some(refusal(BAD_REQUEST, "file_name 不能为空"@))
    } else if request.file_size <= 0 {
        Some(refusal(BAD_REQUEST, "file_size 必须大于 0"@))
    } else {
        None
    }
}

/// The session takes parts, and it is for the file of the request.
pub open spec fn continues(request: InitRequest, row: SessionRow<Seq<char>>) -> bool {
    &&& row.status == uploading()
    &&& row.file_name == request.file_name
    &&& row.file_size == request.file_size
}

/// The name of the temporary file of an upload.
pub open spec fn temp_name(upload_id: Seq<char>) -> Seq<char> {
    upload_id + ".part"@
}

/// How much of a file of `file_size` bytes the parts count for.
pub open spec fn received(parts: Seq<Part>, file_size: i64) -> i64 {
    if total_bytes(parts) < file_size {
        total_bytes(parts) as i64
    } else {
        file_size
    }
}

/// The answer for a file of `file_size` bytes of which `parts` are there.
pub open spec fn init_response(
    file_size: i64,
    upload_id: Seq<char>,
    parts: Seq<Part>,
    received_bytes: i64,
) -> InitResponse {
    UploadInitResponse {
        upload_id,
        chunk_size: CHUNK_SIZE,
        parallel_limit: PARALLEL_LIMIT,
        received_bytes,
        total_bytes: file_size,
        completed_parts: parts,
        done: received_bytes >= file_size,
    }
}

/// How a request begins; `token` names the upload if a new one is made.
pub open spec fn init_start(request: InitRequest, token: Seq<char>) -> Step<
    Init,
    Action,
    InitResponse,
    Refusal,
> {
    match init_refusal(request) {
        Some(refused) => Step::Refuse(refused),
        None => Step::Ask(InitState::Opening { request, token }, UploadAction::OpenStore),
    }
}

/// The state waits for such an event.
pub open spec fn init_accepts(state: Init, event: Event) -> bool {
    match state {
        InitState::Finding { .. } => event is Session || event is Failed,
        InitState::Loading { .. } => match event {
            UploadEvent::Parts(parts) => total_fits(parts),
            _ => event is Unprepared || event is Failed,
        },
        InitState::Creating { .. } => event is Created || event is Failed,
        _ => event is Done || event is Failed,
    }
}

/// How the request goes on from `state` after `event`, at the time `now`.
pub open spec fn init_next(state: Init, event: Event, now: Seq<char>) -> Step<
    Init,
    Action,
    InitResponse,
    Refusal,
>
    recommends
        init_accepts(state, event),
{
    match state {
        InitState::Opening { request, token } => match event {
            UploadEvent::Failed { detail } => Step::Refuse(failure("数据库打开失败: "@, detail)),
            _ => Step::Ask(
                InitState::Finding { request, token },
                UploadAction::FindSessionByKey { file_key: request.file_key },
            ),
        },
        InitState::Finding { request, token } => match event {
            UploadEvent::Session(row) => if continues(request, row) {
                Step::Ask(
                    InitState::Loading { request, upload_id: row.upload_id },
                    UploadAction::LoadParts { upload_id: row.upload_id },
                )
            } else {
                Step::Ask(
                    InitState::DroppingSession {
                        request,
                        token,
                        old_id: row.upload_id,
                        old_path: row.temp_path,
                    },
                    UploadAction::DeleteSession { upload_id: row.upload_id },
                )
            },
            _ => Step::Ask(
                InitState::Creating { request, token },
                UploadAction::CreateTemp { file_name: temp_name(token) },
            ),
        },
        InitState::Loading { request, upload_id } => match event {
            UploadEvent::Parts(parts) => {
                let received_bytes = received(parts, request.file_size);
                Step::Ask(
                    InitState::Updating { request, upload_id, parts, received_bytes },
                    UploadAction::SetReceived { upload_id, received_bytes, at: now },
                )
            },
            UploadEvent::Unprepared { detail } => Step::Refuse(
                failure("查询分片失败: "@, detail),
            ),
            UploadEvent::Failed { detail } => Step::Refuse(failure("读取分片失败: "@, detail)),
            _ => arbitrary(),
        },
        InitState::Updating { request, upload_id, parts, received_bytes } => match event {
            UploadEvent::Failed { detail } => Step::Refuse(failure("更新会话失败: "@, detail)),
            _ => Step::Reply(
                init_response(request.file_size, upload_id, parts, received_bytes),
            ),
        },
        InitState::DroppingSession { request, token, old_id, old_path } => match event {
            UploadEvent::Failed { detail } => Step::Refuse(failure("清理旧会话失败: "@, detail)),
            _ => Step::Ask(
                InitState::DroppingParts { request, token, old_path },
                UploadAction::DeleteParts { upload_id: old_id },
            ),
        },
        InitState::DroppingParts { request, token, old_path } => match event {
            UploadEvent::Failed { detail } => Step::Refuse(failure("清理旧分片失败: "@, detail)),
            _ => Step::Ask(
                InitState::DroppingTemp { request, token },
                UploadAction::RemoveTemp { temp_path: old_path },
            ),
        },
        InitState::DroppingTemp { request, token } => Step::Ask(
            InitState::Creating { request, token },
            UploadAction::CreateTemp { file_name: temp_name(token) },
        ),
        InitState::Creating { request, token } => match event {
            UploadEvent::Created { temp_path } => Step::Ask(
                InitState::Inserting { file_size: request.file_size, token },
                UploadAction::InsertSession {
                    upload_id: token,
                    file_key: request.file_key,
                    file_name: request.file_name,
                    file_size: request.file_size,
                    mime_type: request.mime_type,
                    temp_path,
                    at: now,
                },
            ),
            UploadEvent::Failed { detail } => Step::Refuse(
                failure("创建临时文件失败: "@, detail),
            ),
            _ => arbitrary(),
        },
        InitState::Inserting { file_size, token } => match event {
            UploadEvent::Failed { detail } => Step::Refuse(
                failure("创建上传会话失败: "@, detail),
            ),
            _ => Step::Reply(
                UploadInitResponse { done: false, ..init_response(file_size, token, seq![], 0) },
            ),
        },
    }
}

/// How a request begins; `token` names the upload if a new one is made.
pub fn init_upload_as(request: UploadInitRequest<String>, token: String) -> (r: InitStep)
    ensures
        r.deep_view() == init_start(request.deep_view(), token@),
{
    if trim(request.file_key.as_str()).as_str().is_empty() {
        return Step::Refuse(AppError::new(BAD_REQUEST, "file_key 不能为空"));
    }
    if trim(request.file_name.as_str()).as_str().is_empty() {
        return Step::Refuse(AppError::new(BAD_REQUEST, "file_name 不能为空"));
    }
    if request.file_size <= 0 {
        return Step::Refuse(AppError::new(BAD_REQUEST, "file_size 必须大于 0"));
    }
    Step::Ask(InitState::Opening { request, token }, UploadAction::OpenStore)
}

/// How a request begins; a new upload gets a random token as its name.
pub fn init_upload(request: UploadInitRequest<String>) -> (r: InitStep)
    ensures
        exists|token: Seq<char>| #[trigger] is_token(token) && r.deep_view() == init_start(
            request.deep_view(),
            token,
        ),
{
    let token = create_token();
    let ghost name = token@;
    let step = init_upload_as(request, token);
    assert(is_token(name));
    step
}

/// The question for a new temporary file.
fn create_temp(request: UploadInitRequest<String>, token: String) -> (r: InitStep)
    ensures
        r.deep_view() == Step::<_, _, InitResponse, Refusal>::Ask(
            Init::Creating { request: request.deep_view(), token: token@ },
            Action::CreateTemp { file_name: temp_name(token@) },
        ),
{
    let file_name = concat(token.as_str(), ".part");
    Step::Ask(InitState::Creating { request, token }, UploadAction::CreateTemp { file_name })
}

impl InitState<String, Vec<UploadedPart<String>>> {
    /// Whether the state waits for such an event. Parts whose sizes do not add
    /// up in an `i64` are not accepted.
    pub fn accepts(&self, event: &StoreEvent) -> (r: bool)
        ensures
            r == init_accepts(self.deep_view(), event.deep_view()),
    {
        match self {
            InitState::Finding { .. } => matches!(
                event,
                UploadEvent::Session(_) | UploadEvent::Failed { .. }
            ),
            InitState::Loading { .. } => match event {
                UploadEvent::Parts(parts) => can_total(parts.as_slice()),
                UploadEvent::Unprepared { .. } => true,
                UploadEvent::Failed { .. } => true,
                _ => false,
            },
            InitState::Creating { .. } => matches!(
                event,
                UploadEvent::Created { .. } | UploadEvent::Failed { .. }
            ),
            _ => matches!(event, UploadEvent::Done | UploadEvent::Failed { .. }),
        }
    }

    /// How the request goes on after `event`, at the time `now`.
    pub fn next(self, event: StoreEvent, now: &str) -> (r: InitStep)
        requires
            init_accepts(self.deep_view(), event.deep_view()),
        ensures
            r.deep_view() == init_next(self.deep_view(), event.deep_view(), now@),
    {
        match self {
            InitState::Opening { request, token } => match event {
                UploadEvent::Failed { detail } => Step::Refuse(
                    AppError::failed("数据库打开失败: ", detail.as_str()),
                ),
                _ => {
                    let file_key = request.file_key.clone();
                    Step::Ask(
                        InitState::Finding { request, token },
                        UploadAction::FindSessionByKey { file_key },
                    )
                },
            },
            InitState::Finding { request, token } => match event {
                UploadEvent::Session(row) => if same_text(row.status.as_str(), "uploading")
                    && row.file_name == request.file_name && row.file_size == request.file_size {
                    let upload_id = row.upload_id.clone();
                    Step::Ask(
                        InitState::Loading { request, upload_id: row.upload_id },
                        UploadAction::LoadParts { upload_id },
                    )
                } else {
                    let upload_id = row.upload_id.clone();
                    Step::Ask(
                        InitState::DroppingSession {
                            request,
                            token,
                            old_id: row.upload_id,
                            old_path: row.temp_path,
                        },
                        UploadAction::DeleteSession { upload_id },
                    )
                },
                _ => create_temp(request, token),
            },
            InitState::Loading { request, upload_id } => match event {
                UploadEvent::Parts(parts) => {
                    let total = total_uploaded_bytes(parts.as_slice());
                    let received_bytes: i64 = if total < request.file_size {
                        total
                    } else {
                        request.file_size
                    };
                    let id = upload_id.clone();
                    Step::Ask(
                        InitState::Updating { request, upload_id, parts, received_bytes },
                        UploadAction::SetReceived {
                            upload_id: id,
                            received_bytes,
                            at: now.to_owned(),
                        },
                    )
                },
                UploadEvent::Unprepared { detail } => Step::Refuse(
                    AppError::failed("查询分片失败: ", detail.as_str()),
                ),
                UploadEvent::Failed { detail } => Step::Refuse(
                    AppError::failed("读取分片失败: ", detail.as_str()),
                ),
                _ => vstd::pervasive::unreached(),
            },
            InitState::Updating { request, upload_id, parts, received_bytes } => match event {
                UploadEvent::Failed { detail } => Step::Refuse(
                    AppError::failed("更新会话失败: ", detail.as_str()),
                ),
                _ => Step::Reply(
                    UploadInitResponse {
                        upload_id,
                        chunk_size: CHUNK_SIZE,
                        parallel_limit: PARALLEL_LIMIT,
                        received_bytes,
                        total_bytes: request.file_size,
                        completed_parts: parts,
                        done: received_bytes >= request.file_size,
                    },
                ),
            },
            InitState::DroppingSession { request, token, old_id, old_path } => match event {
                UploadEvent::Failed { detail } => Step::Refuse(
                    AppError::failed("清理旧会话失败: ", detail.as_str()),
                ),
                _ => Step::Ask(
                    InitState::DroppingParts { request, token, old_path },
                    UploadAction::DeleteParts { upload_id: old_id },
                ),
            },
            InitState::DroppingParts { request, token, old_path } => match event {
                UploadEvent::Failed { detail } => Step::Refuse(
                    AppError::failed("清理旧分片失败: ", detail.as_str()),
                ),
                _ => Step::Ask(
                    InitState::DroppingTemp { request, token },
                    UploadAction::RemoveTemp { temp_path: old_path },
                ),
            },
            InitState::DroppingTemp { request, token } => create_temp(request, token),
            InitState::Creating { request, token } => match event {
                UploadEvent::Created { temp_path } => {
                    let upload_id = token.clone();
                    Step::Ask(
                        InitState::Inserting { file_size: request.file_size, token },
                        UploadAction::InsertSession {
                            upload_id,
                            file_key: request.file_key,
                            file_name: request.file_name,
                            file_size: request.file_size,
                            mime_type: request.mime_type,
                            temp_path,
                            at: now.to_owned(),
                        },
                    )
                },
                UploadEvent::Failed { detail } => Step::Refuse(
                    AppError::failed("创建临时文件失败: ", detail.as_str()),
                ),
                _ => vstd::pervasive::unreached(),
            },
            InitState::Inserting { file_size, token } => match event {
                UploadEvent::Failed { detail } => Step::Refuse(
                    AppError::failed("创建上传会话失败: ", detail.as_str()),
                ),
                _ => {
                    let parts: Vec<UploadedPart<String>> = Vec::new();
                    assert(parts.deep_view() =~= Seq::<Part>::empty());
                    Step::Reply(
                        UploadInitResponse {
                            upload_id: token,
                            chunk_size: CHUNK_SIZE,
                            parallel_limit: PARALLEL_LIMIT,
                            received_bytes: 0,
                            total_bytes: file_size,
                            completed_parts: parts,
                            done: false,
                        },
                    )
                },
            },
        }
    }
}

} // verus!
