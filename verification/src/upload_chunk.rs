//! Taking in one part of a file.
use vstd::prelude::*;

use crate::error::{failure, refusal, AppError, Refusal, BAD_REQUEST, CONFLICT, NOT_FOUND};
use crate::headers::{header_text, header_to_str, Headers, RequestHeaders};
use crate::parts::{can_total, total_bytes, total_fits, total_uploaded_bytes, UploadedPart};
use crate::stamp::{checksum, sha256_hex};
use crate::step::{outcome, Step};
use crate::text::{parse_i64, parsed_i64, same_text};
use crate::upload::{uploading, Action, Event, StoreAction, StoreEvent, UploadAction, UploadEvent};

verus! {

/// A part that a client sends: the `size` bytes `data` of the file, from
/// `start_byte` up to `end_byte`, and the checksum that the client computed.
#[derive(Debug, PartialEq, Eq)]
pub struct ChunkRequest<S, B> {
    pub upload_id: S,
    pub start_byte: i64,
    pub end_byte: i64,
    pub size: i64,
    pub checksum: S,
    pub data: B,
}

impl<S: DeepView, B: DeepView> DeepView for ChunkRequest<S, B> {
    type V = ChunkRequest<S::V, B::V>;

    open spec fn deep_view(&self) -> Self::V {
        ChunkRequest {
            upload_id: self.upload_id.deep_view(),
            start_byte: self.start_byte,
            end_byte: self.end_byte,
            size: self.size,
            checksum: self.checksum.deep_view(),
            data: self.data.deep_view(),
        }
    }
}

/// How far the upload has come.
#[derive(Debug, PartialEq, Eq)]
pub struct UploadChunkResponse<S> {
    pub upload_id: S,
    pub received_bytes: i64,
    pub total_bytes: i64,
    pub done: bool,
}

impl<S: DeepView> DeepView for UploadChunkResponse<S> {
    type V = UploadChunkResponse<S::V>;

    open spec fn deep_view(&self) -> Self::V {
        UploadChunkResponse {
            upload_id: self.upload_id.deep_view(),
            received_bytes: self.received_bytes,
            total_bytes: self.total_bytes,
            done: self.done,
        }
    }
}

/// The states of a request that brings a part.
#[derive(Debug, PartialEq, Eq)]
pub enum ChunkState<S, B> {
    Opening { request: ChunkRequest<S, B> },
    FindingSession { request: ChunkRequest<S, B> },
    FindingPart { request: ChunkRequest<S, B>, file_size: i64, temp_path: S },
    Recounting { upload_id: S, file_size: i64 },
    CountingOverlaps { request: ChunkRequest<S, B>, file_size: i64, temp_path: S },
    Writing { upload_id: S, part: UploadedPart<S>, size: i64, file_size: i64 },
    Recording { upload_id: S, file_size: i64 },
    Loading { upload_id: S, file_size: i64 },
    Updating { upload_id: S, file_size: i64, received_bytes: i64 },
}

impl<S: DeepView, B: DeepView> DeepView for ChunkState<S, B> {
    type V = ChunkState<S::V, B::V>;

    open spec fn deep_view(&self) -> Self::V {
        match self {
            ChunkState::Opening { request } => ChunkState::Opening { request: request.deep_view() },
            ChunkState::FindingSession { request } => ChunkState::FindingSession {
                request: request.deep_view(),
            },
            ChunkState::FindingPart { request, file_size, temp_path } => ChunkState::FindingPart {
                request: request.deep_view(),
                file_size: *file_size,
                temp_path: temp_path.deep_view(),
            },
            ChunkState::Recounting { upload_id, file_size } => ChunkState::Recounting {
                upload_id: upload_id.deep_view(),
                file_size: *file_size,
            },
            ChunkState::CountingOverlaps { request, file_size, temp_path } =>
                ChunkState::CountingOverlaps {
                request: request.deep_view(),
                file_size: *file_size,
                temp_path: temp_path.deep_view(),
            },
            ChunkState::Writing { upload_id, part, size, file_size } => ChunkState::Writing {
                upload_id: upload_id.deep_view(),
                part: part.deep_view(),
                size: *size,
                file_size: *file_size,
            },
            ChunkState::Recording { upload_id, file_size } => ChunkState::Recording {
                upload_id: upload_id.deep_view(),
                file_size: *file_size,
            },
            ChunkState::Loading { upload_id, file_size } => ChunkState::Loading {
                upload_id: upload_id.deep_view(),
                file_size: *file_size,
            },
            ChunkState::Updating { upload_id, file_size, received_bytes } => ChunkState::Updating {
                upload_id: upload_id.deep_view(),
                file_size: *file_size,
                received_bytes: *received_bytes,
            },
        }
    }
}

/// A request that brings a part.
pub type ChunkUpload = ChunkState<String, Vec<u8>>;

pub type ChunkStep = Step<ChunkUpload, StoreAction, UploadChunkResponse<String>, AppError>;

/// A part that is sent, as a mathematical value.
pub type SentChunk = ChunkRequest<Seq<char>, Seq<u8>>;

/// A state as a mathematical value.
pub type Chunk = ChunkState<Seq<char>, Seq<u8>>;

/// A response as a mathematical value.
pub type ChunkResponse = UploadChunkResponse<Seq<char>>;

/// The number in the header `x-start-byte`, if there is one.
pub open spec fn start_header(headers: Headers) -> Option<int> {
    match header_text(headers.start_byte) {
        Some(text) => parsed_i64(text),
        None => None,
    }
}

/// The place of the byte behind the part is an `i64`, where the headers that
/// tell of the part are all there.
pub open spec fn end_fits(headers: Headers, size: int) -> bool {
    header_text(headers.upload_id) is Some && start_header(headers) is Some && header_text(
        headers.chunk_sha256,
    ) is Some && size <= i64::MAX ==> start_header(headers)->0 + size <= i64::MAX
}

/// The part that a request brings, or what is wrong with it.
pub open spec fn sent_chunk(headers: Headers, body: Seq<u8>) -> Result<SentChunk, Refusal> {
    match (
        header_text(headers.upload_id),
        start_header(headers),
        header_text(headers.chunk_sha256),
    ) {
        (None, _, _) => Err(refusal(BAD_REQUEST, "缺少 x-upload-id"@)),
        (_, None, _) => Err(refusal(BAD_REQUEST, "缺少 x-start-byte"@)),
        (_, _, None) => Err(refusal(BAD_REQUEST, "缺少 x-chunk-sha256"@)),
        (Some(upload_id), Some(start), Some(checksum)) => if body.len() > i64::MAX {
            Err(refusal(BAD_REQUEST, "分片过大"@))
        } else if start < 0 || body.len() == 0 {
            Err(refusal(BAD_REQUEST, "分片范围无效"@))
        } else {
            Ok(
                ChunkRequest {
                    upload_id,
                    start_byte: start as i64,
                    end_byte: (start + body.len()) as i64,
                    size: body.len() as i64,
                    checksum,
                    data: body,
                },
            )
        },
    }
}

/// How a request begins.
pub open spec fn chunk_start(headers: Headers, body: Seq<u8>) -> Step<
    Chunk,
    Action,
    ChunkResponse,
    Refusal,
> {
    match sent_chunk(headers, body) {
        Ok(request) => Step::Ask(ChunkState::Opening { request }, UploadAction::OpenStore),
        Err(refused) => Step::Refuse(refused),
    }
}

/// The answer once `received_bytes` of `file_size` bytes are there.
pub open spec fn chunk_response(
    upload_id: Seq<char>,
    received_bytes: i64,
    file_size: i64,
) -> ChunkResponse {
    UploadChunkResponse {
        upload_id,
        received_bytes,
        total_bytes: file_size,
        done: received_bytes >= file_size,
    }
}

/// The state waits for such an event.
pub open spec fn chunk_accepts(state: Chunk, event: Event) -> bool {
    match state {
        ChunkState::FindingSession { .. } => event is Session || event is Failed,
        ChunkState::FindingPart { .. } => event is Part || event is Failed,
        ChunkState::Recounting { .. } | ChunkState::Loading { .. } => match event {
            UploadEvent::Parts(parts) => total_fits(parts),
            _ => event is Unprepared || event is Failed,
        },
        ChunkState::CountingOverlaps { .. } => event is Count || event is Failed,
        ChunkState::Writing { .. } => event is Done || event is Unopened || event is Unplaced
            || event is Failed,
        _ => event is Done || event is Failed,
    }
}

/// How the request goes on from `state` after `event`, at the time `now`.
pub open spec fn chunk_next(state: Chunk, event: Event, now: Seq<char>) -> Step<
    Chunk,
    Action,
    ChunkResponse,
    Refusal,
>
    recommends
        chunk_accepts(state, event),
{
    match state {
        ChunkState::Opening { request } => match event {
            UploadEvent::Failed { detail } => Step::Refuse(failure("数据库打开失败: "@, detail)),
            _ => Step::Ask(
                ChunkState::FindingSession { request },
                UploadAction::FindSession { upload_id: request.upload_id },
            ),
        },
        ChunkState::FindingSession { request } => match event {
            UploadEvent::Session(row) => if row.status != uploading() {
                Step::Refuse(refusal(CONFLICT, "上传会话不可用"@))
            } else if request.end_byte > row.file_size {
                Step::Refuse(refusal(BAD_REQUEST, "分片超出文件总大小"@))
            } else {
                Step::Ask(
                    ChunkState::FindingPart {
                        request,
                        file_size: row.file_size,
                        temp_path: row.temp_path,
                    },
                    UploadAction::FindPart {
                        upload_id: request.upload_id,
                        start_byte: request.start_byte,
                    },
                )
            },
            _ => Step::Refuse(refusal(NOT_FOUND, "上传会话不存在"@)),
        },
        ChunkState::FindingPart { request, file_size, temp_path } => match event {
            UploadEvent::Part(part) => if part.end_byte != request.end_byte || part.checksum
                != request.checksum {
                Step::Refuse(refusal(CONFLICT, "分片校验不匹配"@))
            } else {
                Step::Ask(
                    ChunkState::Recounting { upload_id: request.upload_id, file_size },
                    UploadAction::LoadParts { upload_id: request.upload_id },
                )
            },
            _ => Step::Ask(
                ChunkState::CountingOverlaps { request, file_size, temp_path },
                UploadAction::CountOverlaps {
                    upload_id: request.upload_id,
                    start_byte: request.start_byte,
                    end_byte: request.end_byte,
                },
            ),
        },
        ChunkState::Recounting { upload_id, file_size } => match event {
            UploadEvent::Parts(parts) => Step::Reply(
                chunk_response(upload_id, total_bytes(parts) as i64, file_size),
            ),
            UploadEvent::Unprepared { detail } => Step::Refuse(
                failure("查询分片失败: "@, detail),
            ),
            UploadEvent::Failed { detail } => Step::Refuse(failure("读取分片失败: "@, detail)),
            _ => arbitrary(),
        },
        ChunkState::CountingOverlaps { request, file_size, temp_path } => match event {
            UploadEvent::Count(count) => if count > 0 {
                Step::Refuse(refusal(CONFLICT, "分片范围与已有数据重叠"@))
            } else if checksum(request.data) != request.checksum {
                Step::Refuse(refusal(BAD_REQUEST, "分片校验失败"@))
            } else {
                Step::Ask(
                    ChunkState::Writing {
                        upload_id: request.upload_id,
                        part: UploadedPart {
                            start_byte: request.start_byte,
                            end_byte: request.end_byte,
                            checksum: request.checksum,
                        },
                        size: request.size,
                        file_size,
                    },
                    UploadAction::WriteTemp {
                        temp_path,
                        start_byte: request.start_byte,
                        data: request.data,
                    },
                )
            },
            UploadEvent::Failed { detail } => Step::Refuse(
                failure("查询分片冲突失败: "@, detail),
            ),
            _ => arbitrary(),
        },
        ChunkState::Writing { upload_id, part, size, file_size } => match event {
            UploadEvent::Unopened { detail } => Step::Refuse(
                failure("打开临时文件失败: "@, detail),
            ),
            UploadEvent::Unplaced { detail } => Step::Refuse(
                failure("定位临时文件失败: "@, detail),
            ),
            UploadEvent::Failed { detail } => Step::Refuse(failure("写入分片失败: "@, detail)),
            _ => Step::Ask(
                ChunkState::Recording { upload_id, file_size },
                UploadAction::InsertPart {
                    upload_id,
                    part,
                    chunk_size: size,
                    at: now,
                },
            ),
        },
        ChunkState::Recording { upload_id, file_size } => match event {
            UploadEvent::Failed { detail } => Step::Refuse(failure("记录分片失败: "@, detail)),
            _ => Step::Ask(
                ChunkState::Loading { upload_id, file_size },
                UploadAction::LoadParts { upload_id },
            ),
        },
        ChunkState::Loading { upload_id, file_size } => match event {
            UploadEvent::Parts(parts) => {
                let received_bytes = total_bytes(parts) as i64;
                Step::Ask(
                    ChunkState::Updating { upload_id, file_size, received_bytes },
                    UploadAction::SetReceived { upload_id, received_bytes, at: now },
                )
            },
            UploadEvent::Unprepared { detail } => Step::Refuse(
                failure("查询分片失败: "@, detail),
            ),
            UploadEvent::Failed { detail } => Step::Refuse(failure("读取分片失败: "@, detail)),
            _ => arbitrary(),
        },
        ChunkState::Updating { upload_id, file_size, received_bytes } => match event {
            UploadEvent::Failed { detail } => Step::Refuse(
                failure("更新上传进度失败: "@, detail),
            ),
            _ => Step::Reply(chunk_response(upload_id, received_bytes, file_size)),
        },
    }
}

/// The number in the header `x-start-byte`, if there is one.
fn read_start(headers: &RequestHeaders<Vec<u8>>) -> (r: Option<i64>)
    ensures
        r matches Some(start) ==> start_header(headers.deep_view()) == Some(start as int),
        r is None ==> start_header(headers.deep_view()) is None,
{
    match header_to_str(&headers.start_byte) {
        Some(text) => parse_i64(text.as_str()),
        None => None,
    }
}

/// Whether the place of the byte behind a part of `size` bytes is an `i64`,
/// where the headers that tell of the part are all there.
pub fn can_place(headers: &RequestHeaders<Vec<u8>>, size: usize) -> (r: bool)
    ensures
        r == end_fits(headers.deep_view(), size as int),
{
    if header_to_str(&headers.upload_id).is_none() || header_to_str(
        &headers.chunk_sha256,
    ).is_none() || size as u64 > i64::MAX as u64 {
        return true;
    }
    match read_start(headers) {
        Some(start) => start.checked_add(size as i64).is_some(),
        None => true,
    }
}

/// The part that a request brings, or what is wrong with it.
pub fn chunk_request(headers: &RequestHeaders<Vec<u8>>, body: Vec<u8>) -> (r: Result<
    ChunkRequest<String, Vec<u8>>,
    AppError,
>)
    requires
        end_fits(headers.deep_view(), body@.len() as int),
    ensures
        outcome(r) == sent_chunk(headers.deep_view(), body@),
{
    assert(body.deep_view() =~= body@);
    let upload_id = match header_to_str(&headers.upload_id) {
        Some(text) => text,
        None => {
            return Err(AppError::new(BAD_REQUEST, "缺少 x-upload-id"));
        },
    };
    let start_byte = match read_start(headers) {
        Some(start) => start,
        None => {
            return Err(AppError::new(BAD_REQUEST, "缺少 x-start-byte"));
        },
    };
    let checksum = match header_to_str(&headers.chunk_sha256) {
        Some(text) => text,
        None => {
            return Err(AppError::new(BAD_REQUEST, "缺少 x-chunk-sha256"));
        },
    };
    if body.len() as u64 > i64::MAX as u64 {
        return Err(AppError::new(BAD_REQUEST, "分片过大"));
    }
    let size: i64 = body.len() as i64;
    let end_byte: i64 = start_byte + size;
    if start_byte < 0 || size <= 0 {
        return Err(AppError::new(BAD_REQUEST, "分片范围无效"));
    }
    Ok(ChunkRequest { upload_id, start_byte, end_byte, size, checksum, data: body })
}

/// How a request begins.
pub fn upload_chunk(headers: &RequestHeaders<Vec<u8>>, body: Vec<u8>) -> (r: ChunkStep)
    requires
        end_fits(headers.deep_view(), body@.len() as int),
    ensures
        r.deep_view() == chunk_start(headers.deep_view(), body@),
{
    match chunk_request(headers, body) {
        Ok(request) => Step::Ask(ChunkState::Opening { request }, UploadAction::OpenStore),
        Err(error) => Step::Refuse(error),
    }
}

impl ChunkState<String, Vec<u8>> {
    /// Whether the state waits for such an event. Parts whose sizes do not add
    /// up in an `i64` are not accepted.
    pub fn accepts(&self, event: &StoreEvent) -> (r: bool)
        ensures
            r == chunk_accepts(self.deep_view(), event.deep_view()),
    {
        match self {
            ChunkState::FindingSession { .. } => matches!(
                event,
                UploadEvent::Session(_) | UploadEvent::Failed { .. }
            ),
            ChunkState::FindingPart { .. } => matches!(
                event,
                UploadEvent::Part(_) | UploadEvent::Failed { .. }
            ),
            ChunkState::Recounting { .. } | ChunkState::Loading { .. } => match event {
                UploadEvent::Parts(parts) => can_total(parts.as_slice()),
                UploadEvent::Unprepared { .. } => true,
                UploadEvent::Failed { .. } => true,
                _ => false,
            },
            ChunkState::CountingOverlaps { .. } => matches!(
                event,
                UploadEvent::Count(_) | UploadEvent::Failed { .. }
            ),
            ChunkState::Writing { .. } => matches!(
                event,
                UploadEvent::Done | UploadEvent::Unopened { .. } | UploadEvent::Unplaced { .. }
                | UploadEvent::Failed { .. }
            ),
            _ => matches!(event, UploadEvent::Done | UploadEvent::Failed { .. }),
        }
    }

    /// How the request goes on after `event`, at the time `now`.
    pub fn next(self, event: StoreEvent, now: &str) -> (r: ChunkStep)
        requires
            chunk_accepts(self.deep_view(), event.deep_view()),
        ensures
            r.deep_view() == chunk_next(self.deep_view(), event.deep_view(), now@),
    {
        match self {
            ChunkState::Opening { request } => match event {
                UploadEvent::Failed { detail } => Step::Refuse(
                    AppError::failed("数据库打开失败: ", detail.as_str()),
                ),
                _ => {
                    let upload_id = request.upload_id.clone();
                    Step::Ask(
                        ChunkState::FindingSession { request },
                        UploadAction::FindSession { upload_id },
                    )
                },
            },
            ChunkState::FindingSession { request } => match event {
                UploadEvent::Session(row) => if !same_text(row.status.as_str(), "uploading") {
                    Step::Refuse(AppError::new(CONFLICT, "上传会话不可用"))
                } else if request.end_byte > row.file_size {
                    Step::Refuse(AppError::new(BAD_REQUEST, "分片超出文件总大小"))
                } else {
                    let upload_id = request.upload_id.clone();
                    let start_byte = request.start_byte;
                    Step::Ask(
                        ChunkState::FindingPart {
                            request,
                            file_size: row.file_size,
                            temp_path: row.temp_path,
                        },
                        UploadAction::FindPart { upload_id, start_byte },
                    )
                },
                _ => Step::Refuse(AppError::new(NOT_FOUND, "上传会话不存在")),
            },
            ChunkState::FindingPart { request, file_size, temp_path } => match event {
                UploadEvent::Part(part) => if part.end_byte != request.end_byte || part.checksum
                    != request.checksum {
                    Step::Refuse(AppError::new(CONFLICT, "分片校验不匹配"))
                } else {
                    let upload_id = request.upload_id.clone();
                    Step::Ask(
                        ChunkState::Recounting { upload_id: request.upload_id, file_size },
                        UploadAction::LoadParts { upload_id },
                    )
                },
                _ => {
                    let upload_id = request.upload_id.clone();
                    let start_byte = request.start_byte;
                    let end_byte = request.end_byte;
                    Step::Ask(
                        ChunkState::CountingOverlaps { request, file_size, temp_path },
                        UploadAction::CountOverlaps { upload_id, start_byte, end_byte },
                    )
                },
            },
            ChunkState::Recounting { upload_id, file_size } => match event {
                UploadEvent::Parts(parts) => {
                    let received_bytes = total_uploaded_bytes(parts.as_slice());
                    Step::Reply(
                        UploadChunkResponse {
                            upload_id,
                            received_bytes,
                            total_bytes: file_size,
                            done: received_bytes >= file_size,
                        },
                    )
                },
                UploadEvent::Unprepared { detail } => Step::Refuse(
                    AppError::failed("查询分片失败: ", detail.as_str()),
                ),
                UploadEvent::Failed { detail } => Step::Refuse(
                    AppError::failed("读取分片失败: ", detail.as_str()),
                ),
                _ => vstd::pervasive::unreached(),
            },
            ChunkState::CountingOverlaps { request, file_size, temp_path } => match event {
                UploadEvent::Count(count) => {
                    if count > 0 {
                        return Step::Refuse(AppError::new(CONFLICT, "分片范围与已有数据重叠"));
                    }
                    let actual = sha256_hex(request.data.as_slice());
                    assert(request.data.deep_view() =~= request.data@);
                    if actual != request.checksum {
                        return Step::Refuse(AppError::new(BAD_REQUEST, "分片校验失败"));
                    }
                    let start_byte = request.start_byte;
                    Step::Ask(
                        ChunkState::Writing {
                            upload_id: request.upload_id,
                            part: UploadedPart {
                                start_byte,
                                end_byte: request.end_byte,
                                checksum: request.checksum,
                            },
                            size: request.size,
                            file_size,
                        },
                        UploadAction::WriteTemp { temp_path, start_byte, data: request.data },
                    )
                },
                UploadEvent::Failed { detail } => Step::Refuse(
                    AppError::failed("查询分片冲突失败: ", detail.as_str()),
                ),
                _ => vstd::pervasive::unreached(),
            },
            ChunkState::Writing { upload_id, part, size, file_size } => match event {
                UploadEvent::Unopened { detail } => Step::Refuse(
                    AppError::failed("打开临时文件失败: ", detail.as_str()),
                ),
                UploadEvent::Unplaced { detail } => Step::Refuse(
                    AppError::failed("定位临时文件失败: ", detail.as_str()),
                ),
                UploadEvent::Failed { detail } => Step::Refuse(
                    AppError::failed("写入分片失败: ", detail.as_str()),
                ),
                _ => {
                    let id = upload_id.clone();
                    Step::Ask(
                        ChunkState::Recording { upload_id, file_size },
                        UploadAction::InsertPart {
                            upload_id: id,
                            part,
                            chunk_size: size,
                            at: now.to_owned(),
                        },
                    )
                },
            },
            ChunkState::Recording { upload_id, file_size } => match event {
                UploadEvent::Failed { detail } => Step::Refuse(
                    AppError::failed("记录分片失败: ", detail.as_str()),
                ),
                _ => {
                    let id = upload_id.clone();
                    Step::Ask(
                        ChunkState::Loading { upload_id, file_size },
                        UploadAction::LoadParts { upload_id: id },
                    )
                },
            },
            ChunkState::Loading { upload_id, file_size } => match event {
                UploadEvent::Parts(parts) => {
                    let received_bytes = total_uploaded_bytes(parts.as_slice());
                    let id = upload_id.clone();
                    Step::Ask(
                        ChunkState::Updating { upload_id, file_size, received_bytes },
                        UploadAction::SetReceived {
                            upload_id: id,
                            received_bytes,
                            at: now.to_owned(),
                        },
                    )
                },
                UploadEvent::Unprepared { detail } => Step::Refuse(
                    AppError::failed("查询分片失败: ", detail.as_str()),
                ),
                UploadEvent::Failed { detail } => Step::Refuse(
                    AppError::failed("读取分片失败: ", detail.as_str()),
                ),
                _ => vstd::pervasive::unreached(),
            },
            ChunkState::Updating { upload_id, file_size, received_bytes } => match event {
                UploadEvent::Failed { detail } => Step::Refuse(
                    AppError::failed("更新上传进度失败: ", detail.as_str()),
                ),
                _ => Step::Reply(
                    UploadChunkResponse {
                        upload_id,
                        received_bytes,
                        total_bytes: file_size,
                        done: received_bytes >= file_size,
                    },
                ),
            },
        }
    }
}

} // verus!
