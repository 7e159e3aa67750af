//! What a client is told where the storage fails: never that something was done,
//! and always what went wrong.
use vstd::prelude::*;

use crate::delete::{delete_accepts, delete_next, DeleteGot, DeleteState, Deletion};
use crate::download::{download_accepts, download_next, DownloadEvent, DownloadState};
use crate::error::{Refusal, BAD_REQUEST, CONFLICT, FORBIDDEN, INTERNAL_SERVER_ERROR, NOT_FOUND};
use crate::error::{OK, PARTIAL_CONTENT, RANGE_NOT_SATISFIABLE, UNAUTHORIZED};
use crate::list::{list_accepts, list_next, ListGot, ListState};
use crate::post::{post_accepts, post_next, IncomingFile, PostAction, PostGot, PostState};
use crate::post::Posting;
use crate::step::{refuses_with, Step};
use crate::ui_state::{ui_accepts, ui_next, UiAction, UiEvent, UiState};
use crate::upload::{Action, Event, SessionRow, UploadAction};
use crate::upload_cancel::{cancel_accepts, cancel_next, Cancel, UploadCancelResponse};
use crate::upload_chunk::{chunk_accepts, chunk_next, Chunk, SentChunk};
use crate::upload_complete::{complete_accepts, complete_next, Complete};
use crate::upload_init::{init_accepts, init_next, Init, InitRequest};

verus! {

/// The request ends with a failure: these words, and what the storage tells.
pub open spec fn fails<M, A, R>(
    step: Step<M, A, R, Refusal>,
    words: Seq<char>,
    detail: Seq<char>,
) -> bool {
    refuses_with(step, 500, words + detail)
}

/// The numbers of the answers are those of HTTP.
pub proof fn numbers_of_answers()
    ensures
        OK == 200,
        PARTIAL_CONTENT == 206,
        BAD_REQUEST == 400,
        UNAUTHORIZED == 401,
        FORBIDDEN == 403,
        NOT_FOUND == 404,
        CONFLICT == 409,
        RANGE_NOT_SATISFIABLE == 416,
        INTERNAL_SERVER_ERROR == 500,
{
}

/// A part is acknowledged only if it was written, recorded and counted: whichever
/// of these fails, the client is told so. Only a part that cannot be looked up is
/// taken for one that is not there.
pub proof fn failed_chunk_is_refused(state: Chunk, detail: Seq<char>, now: Seq<char>)
    ensures
        ({
            let event = Event::Failed { detail };
            let step = chunk_next(state, event, now);
            &&& chunk_accepts(state, event)
            &&& match state {
                Chunk::Opening { .. } => fails(step, "数据库打开失败: "@, detail),
                Chunk::FindingSession { .. } => refuses_with(step, 404, "上传会话不存在"@),
                Chunk::FindingPart { request, file_size, temp_path } => step matches Step::Ask(
                    Chunk::CountingOverlaps { request: same, file_size: size, temp_path: path },
                    UploadAction::CountOverlaps { upload_id, start_byte, end_byte },
                ) && same == request && size == file_size && path == temp_path && upload_id
                    == request.upload_id && start_byte == request.start_byte && end_byte
                    == request.end_byte,
                Chunk::Recounting { .. } => fails(step, "读取分片失败: "@, detail),
                Chunk::CountingOverlaps { .. } => fails(step, "查询分片冲突失败: "@, detail),
                Chunk::Writing { .. } => fails(step, "写入分片失败: "@, detail),
                Chunk::Recording { .. } => fails(step, "记录分片失败: "@, detail),
                Chunk::Loading { .. } => fails(step, "读取分片失败: "@, detail),
                Chunk::Updating { .. } => fails(step, "更新上传进度失败: "@, detail),
            }
        }),
        state is Recounting || state is Loading ==> {
            let event = Event::Unprepared { detail };
            chunk_accepts(state, event) && fails(
                chunk_next(state, event, now),
                "查询分片失败: "@,
                detail,
            )
        },
        state is Writing ==> {
            let unopened = Event::Unopened { detail };
            let unplaced = Event::Unplaced { detail };
            &&& chunk_accepts(state, unopened) && chunk_accepts(state, unplaced)
            &&& fails(chunk_next(state, unopened, now), "打开临时文件失败: "@, detail)
            &&& fails(chunk_next(state, unplaced, now), "定位临时文件失败: "@, detail)
        },
{
}

/// No part is taken in for an upload that takes none any more.
pub proof fn closed_upload_takes_no_part(
    request: SentChunk,
    row: SessionRow<Seq<char>>,
    now: Seq<char>,
)
    requires
        row.status != "uploading"@,
    ensures
        refuses_with(
            chunk_next(Chunk::FindingSession { request }, Event::Session(row), now),
            409,
            "上传会话不可用"@,
        ),
{
}

/// What is recorded of a part is where it lies, its checksum, how many bytes it
/// has and the time. The count is recorded with the time, too.
pub proof fn parts_are_recorded_with_their_time(
    state: Chunk,
    event: Event,
    now: Seq<char>,
)
    requires
        chunk_accepts(state, event),
    ensures
        match chunk_next(state, event, now) {
            Step::Ask(_, UploadAction::InsertPart { upload_id, part, chunk_size, at }) => {
                &&& at == now
                &&& state matches Chunk::Writing { upload_id: id, part: sent, size, .. } && id
                    == upload_id && sent == part && size == chunk_size
            },
            Step::Ask(_, UploadAction::SetReceived { at, .. }) => at == now,
            _ => true,
        },
        match chunk_next(state, event, now) {
            Step::Ask(Chunk::Writing { part, size, .. }, action) => {
                &&& state matches Chunk::CountingOverlaps { request, temp_path: path, .. } && size
                    == request.size && part.start_byte == request.start_byte && part.end_byte
                    == request.end_byte && part.checksum == request.checksum && (
                action matches UploadAction::WriteTemp { temp_path, start_byte, data } && temp_path
                    == path && start_byte == request.start_byte && data == request.data)
            },
            _ => true,
        },
{
}

/// An upload is begun only if it was recorded: whichever action fails, the client
/// is told so. Only an upload that cannot be looked up is taken for one that is
/// not there, and an old temporary file that cannot be removed is left.
pub proof fn failed_init_is_refused(state: Init, detail: Seq<char>, now: Seq<char>)
    ensures
        ({
            let event = Event::Failed { detail };
            let step = init_next(state, event, now);
            &&& init_accepts(state, event)
            &&& match state {
                Init::Opening { .. } => fails(step, "数据库打开失败: "@, detail),
                Init::Finding { request, token } => creates(step, request, token),
                Init::Loading { .. } => fails(step, "读取分片失败: "@, detail),
                Init::Updating { .. } => fails(step, "更新会话失败: "@, detail),
                Init::DroppingSession { .. } => fails(step, "清理旧会话失败: "@, detail),
                Init::DroppingParts { .. } => fails(step, "清理旧分片失败: "@, detail),
                Init::DroppingTemp { request, token } => creates(step, request, token),
                Init::Creating { .. } => fails(step, "创建临时文件失败: "@, detail),
                Init::Inserting { .. } => fails(step, "创建上传会话失败: "@, detail),
            }
        }),
        state is Loading ==> {
            let event = Event::Unprepared { detail };
            init_accepts(state, event) && fails(
                init_next(state, event, now),
                "查询分片失败: "@,
                detail,
            )
        },
{
}

/// The request goes on with a new temporary file for the upload.
pub open spec fn creates<R>(
    step: Step<Init, Action, R, Refusal>,
    request: InitRequest,
    token: Seq<char>,
) -> bool {
    &&& step matches Step::Ask(
        Init::Creating { request: same, token: name },
        UploadAction::CreateTemp { file_name },
    )
    &&& same == request
    &&& name == token
    &&& file_name == token + ".part"@
}

/// An upload that takes no parts any more is never taken up again: its place is
/// taken by a new one.
pub proof fn closed_upload_is_not_taken_up(
    request: InitRequest,
    token: Seq<char>,
    row: SessionRow<Seq<char>>,
    now: Seq<char>,
)
    requires
        row.status != "uploading"@,
    ensures
        init_next(Init::Finding { request, token }, Event::Session(row), now) matches Step::Ask(
            Init::DroppingSession { request: same, token: name, old_id, old_path },
            UploadAction::DeleteSession { upload_id },
        ) && same == request && name == token && old_id == row.upload_id && upload_id
            == row.upload_id && old_path == row.temp_path,
{
}

/// An upload, and a count, are recorded with their time.
pub proof fn uploads_are_recorded_with_their_time(state: Init, event: Event, now: Seq<char>)
    requires
        init_accepts(state, event),
    ensures
        match init_next(state, event, now) {
            Step::Ask(_, UploadAction::InsertSession { at, .. }) => at == now,
            Step::Ask(_, UploadAction::SetReceived { at, .. }) => at == now,
            _ => true,
        },
{
}

/// A file is shown only if its message was recorded: whichever action fails, the
/// client is told so. A file that cannot be moved is copied, and a temporary file
/// that cannot be removed then is left.
pub proof fn failed_completion_is_refused(state: Complete, detail: Seq<char>, now: Seq<char>)
    ensures
        ({
            let event = Event::Failed { detail };
            let step = complete_next(state, event, now);
            &&& complete_accepts(state, event)
            &&& match state {
                Complete::Opening { .. } => fails(step, "数据库打开失败: "@, detail),
                Complete::FindingSession { .. } => refuses_with(step, 404, "上传会话不存在"@),
                Complete::Loading { .. } => fails(step, "读取分片失败: "@, detail),
                Complete::Renaming { upload_id, file_id, session } => step matches Step::Ask(
                    Complete::Copying { upload_id: id, file_id: name, session: row, rename_error },
                    UploadAction::CopyTemp { temp_path, file_id: to },
                ) && id == upload_id && name == file_id && row == session && rename_error == detail
                    && temp_path == session.temp_path && to == file_id,
                Complete::Copying { rename_error, .. } => refuses_with(
                    step,
                    500,
                    "搬运文件失败: "@ + rename_error + "; copy fallback failed: "@ + detail,
                ),
                Complete::Discarding { .. } => step == complete_next(state, Event::Done, now),
                Complete::Inserting { .. } => fails(step, "写入消息失败: "@, detail),
                Complete::DroppingSession { .. } => fails(step, "清理上传会话失败: "@, detail),
                Complete::DroppingParts { .. } => fails(step, "清理上传分片失败: "@, detail),
                Complete::Showing => refuses_with(step, 404, "消息不存在"@),
            }
        }),
        state is Loading ==> {
            let event = Event::Unprepared { detail };
            complete_accepts(state, event) && fails(
                complete_next(state, event, now),
                "查询分片失败: "@,
                detail,
            )
        },
        state is Showing ==> {
            let event = Event::Unprepared { detail };
            complete_accepts(state, event) && fails(
                complete_next(state, event, now),
                "查询失败: "@,
                detail,
            )
        },
{
}

/// An upload is given up only if it is forgotten: whichever action fails, the
/// client is told so. Only an upload that cannot be looked up is taken for one
/// that is not there, and a temporary file that cannot be removed is left.
pub proof fn failed_cancellation_is_refused(state: Cancel, detail: Seq<char>)
    ensures
        ({
            let event = Event::Failed { detail };
            let step = cancel_next(state, event);
            &&& cancel_accepts(state, event)
            &&& match state {
                Cancel::Opening { .. } => fails(step, "数据库打开失败: "@, detail),
                Cancel::FindingSession { .. } => step == Step::<
                    Cancel,
                    Action,
                    UploadCancelResponse,
                    Refusal,
                >::Reply(UploadCancelResponse { cancelled: false }),
                Cancel::DroppingSession { .. } => fails(step, "删除会话失败: "@, detail),
                Cancel::DroppingParts { .. } => fails(step, "删除分片失败: "@, detail),
                Cancel::Discarding => step == Step::<
                    Cancel,
                    Action,
                    UploadCancelResponse,
                    Refusal,
                >::Reply(UploadCancelResponse { cancelled: true }),
            }
        }),
{
}

/// A message is shown only if it was recorded, and a file only if it was received
/// and written whole: whatever fails, the client is told so.
pub proof fn failed_post_is_refused(state: Posting, detail: Seq<char>, now: Seq<char>)
    ensures
        ({
            let event = PostGot::Failed { detail };
            let step = post_next(state, event, now);
            &&& post_accepts(state, event)
            &&& match state {
                PostState::ReadingField { .. } => refuses_with(
                    step,
                    400,
                    "读取上传失败: "@ + detail,
                ),
                PostState::Creating { .. } => fails(step, "创建文件失败: "@, detail),
                PostState::Receiving { .. } => refuses_with(step, 400, "读取分片失败: "@ + detail),
                PostState::Writing { .. } => fails(step, "写入文件失败: "@, detail),
                PostState::OpeningForFile { .. } => fails(step, "数据库打开失败: "@, detail),
                PostState::OpeningForText { .. } => fails(step, "数据库打开失败: "@, detail),
                PostState::Inserting => fails(step, "写入失败: "@, detail),
                PostState::Showing => refuses_with(step, 404, "消息不存在"@),
            }
        }),
        state is Showing ==> {
            let event = PostGot::Unprepared { detail };
            post_accepts(state, event) && fails(
                post_next(state, event, now),
                "查询失败: "@,
                detail,
            )
        },
{
}

/// Bytes of a file are counted as they come: any number is taken that an `i64`
/// can count, and more are refused.
pub proof fn bytes_are_counted_as_they_come(
    file: IncomingFile<Seq<char>>,
    data: Seq<u8>,
    now: Seq<char>,
)
    requires
        0 <= file.file_size,
    ensures
        ({
            let state = PostState::Receiving { file };
            let event = PostGot::Chunk { data };
            let step = post_next(state, event, now);
            &&& file.file_size + data.len() <= i64::MAX ==> post_accepts(state, event) && (
            step matches Step::Ask(
                PostState::Writing { file: grown },
                PostAction::WriteFile { file_id, data: written },
            ) && grown.file_size == file.file_size + data.len() && grown.file_id == file.file_id
                && grown.file_name == file.file_name && grown.mime_type == file.mime_type && file_id
                == file.file_id && written == data)
            &&& data.len() > i64::MAX ==> post_accepts(state, event) && refuses_with(
                step,
                500,
                "文件过大"@,
            )
            &&& data.len() <= i64::MAX && file.file_size + data.len() > i64::MAX ==> !post_accepts(
                state,
                event,
            )
        }),
{
}

/// Messages are deleted only once their files are removed: whatever fails, the
/// client is told so.
pub proof fn failed_deletion_is_refused(state: Deletion, detail: Seq<char>)
    ensures
        ({
            let event = DeleteGot::Failed { detail };
            let step = delete_next(state, event);
            match state {
                DeleteState::Opening { .. } => delete_accepts(state, event) && fails(
                    step,
                    "数据库打开失败: "@,
                    detail,
                ),
                DeleteState::Finding { .. } => delete_accepts(state, event) && fails(
                    step,
                    "读取失败: "@,
                    detail,
                ),
                DeleteState::Checking { .. } => true,
                DeleteState::Removing { file_ids, index, .. } => (index < file_ids.len()
                    ==> delete_accepts(state, event)) && fails(
                    step,
                    "删除文件失败: "@,
                    detail,
                ),
                DeleteState::DroppingProgress { .. } => delete_accepts(state, event) && fails(
                    step,
                    "清理视频进度失败: "@,
                    detail,
                ),
                DeleteState::Deleting => delete_accepts(state, event) && fails(
                    step,
                    "删除失败: "@,
                    detail,
                ),
            }
        }),
        state is Finding ==> {
            let event = DeleteGot::Unprepared { detail };
            delete_accepts(state, event) && fails(
                delete_next(state, event),
                "查询失败: "@,
                detail,
            )
        },
{
}

/// The list is shown only if it was read whole.
pub proof fn failed_list_is_refused(state: ListState, detail: Seq<char>)
    ensures
        ({
            let event = ListGot::Failed { detail };
            let step = list_next(state, event);
            &&& list_accepts(state, event)
            &&& match state {
                ListState::Opening => fails(step, "数据库打开失败: "@, detail),
                ListState::Loading => fails(step, "读取失败: "@, detail),
            }
        }),
        state is Loading ==> {
            let unprepared = ListGot::Unprepared { detail };
            let row = ListGot::RowFailed { detail };
            &&& list_accepts(state, unprepared) && list_accepts(state, row)
            &&& fails(list_next(state, unprepared), "查询失败: "@, detail)
            &&& fails(list_next(state, row), "读取行失败: "@, detail)
        },
{
}

/// A file is handed out only if it was found, opened and measured.
pub proof fn failed_download_is_refused(state: DownloadState<Seq<char>>, detail: Seq<char>)
    ensures
        ({
            let event = DownloadEvent::Failed { detail };
            let step = download_next(state, event);
            &&& download_accepts(state, event)
            &&& match state {
                DownloadState::Opening { .. } => fails(step, "数据库打开失败: "@, detail),
                DownloadState::Finding { .. } => refuses_with(step, 404, "文件不存在"@),
                DownloadState::OpeningFile { .. } => refuses_with(step, 404, "文件不存在"@),
                DownloadState::Measuring { .. } => fails(step, "读取文件信息失败: "@, detail),
                DownloadState::Seeking { .. } => fails(step, "定位文件失败: "@, detail),
            }
        }),
        state is Finding ==> {
            let event = DownloadEvent::Unprepared { detail };
            download_accepts(state, event) && fails(
                download_next(state, event),
                "查询失败: "@,
                detail,
            )
        },
{
}

/// Heights are answered only if they were saved, or forgotten. A height that
/// cannot be read is taken for none.
pub proof fn failed_heights_are_refused(state: UiState, detail: Seq<char>, now: Seq<char>)
    ensures
        ({
            let event = UiEvent::Failed { detail };
            let step = ui_next(state, event, now);
            &&& ui_accepts(state, event)
            &&& match state {
                UiState::Opening { .. } => fails(step, "数据库打开失败: "@, detail),
                UiState::SavingChat { .. } => fails(step, "保存界面状态失败: "@, detail),
                UiState::SavingInput => fails(step, "保存界面状态失败: "@, detail),
                UiState::ReadingChat => step matches Step::Ask(
                    UiState::ReadingInput { chat_height_px },
                    UiAction::GetValue { key },
                ) && chat_height_px is None && key == "input_height_px"@,
                UiState::ReadingInput { chat_height_px } => step matches Step::Reply(answer)
                    && answer.chat_height_px == chat_height_px && answer.input_height_px is None,
                UiState::DroppingChat => fails(step, "重置界面状态失败: "@, detail),
                UiState::DroppingInput => fails(step, "重置界面状态失败: "@, detail),
            }
        }),
{
}

/// Heights are saved with their time.
pub proof fn heights_are_saved_with_their_time(
    state: UiState,
    event: UiEvent<Seq<char>>,
    now: Seq<char>,
)
    ensures
        ui_next(state, event, now) matches Step::Ask(_, UiAction::SetValue { at, .. }) ==> at
            == now,
{
}

} // verus!
