//! The contracts speak of mathematical values. These laws say that each of them is
//! the value that it stands for: no field is changed, dropped or made up.
use vstd::prelude::*;

use crate::admin::RestartResponse;
use crate::config::{RunningConfig, RuntimeConfig, StartupConfig};
use crate::delete::{DeleteAction, DeleteEvent, DeleteResponse};
use crate::download::{DownloadAction, DownloadEvent, DownloadRequest, FileResponse};
use crate::error::{AppError, Refusal};
use crate::headers::RequestHeaders;
use crate::list::ListEvent;
use crate::message::{MessageDto, MessageRow};
use crate::parts::UploadedPart;
use crate::post::{IncomingFile, PostAction, PostEvent};
use crate::session::AuthReply;
use crate::step::{outcome, Step};
use crate::ui_state::{UiAction, UiEvent, UiStateResponse};
use crate::upload::{SessionRow, UploadAction, UploadEvent};
use crate::upload_cancel::UploadCancelResponse;
use crate::upload_chunk::{ChunkRequest, UploadChunkResponse};
use crate::upload_init::{UploadInitRequest, UploadInitResponse};

verus! {

/// A refusal: contracts speak of every field as it is.
pub proof fn fields_of_app_error(x: AppError)
    ensures
        x.deep_view().status == x.status,
        x.deep_view().message == x.message@,
{
}

/// The headers of a request: contracts speak of every field as it is.
pub proof fn fields_of_request_headers(x: RequestHeaders<Vec<u8>>)
    ensures
        x.deep_view().authorization == x.authorization.deep_view(),
        x.deep_view().cookie == x.cookie.deep_view(),
        x.deep_view().range == x.range.deep_view(),
        x.deep_view().upload_id == x.upload_id.deep_view(),
        x.deep_view().start_byte == x.start_byte.deep_view(),
        x.deep_view().chunk_sha256 == x.chunk_sha256.deep_view(),
{
}

/// A part: contracts speak of every field as it is.
pub proof fn fields_of_uploaded_part(x: UploadedPart<String>)
    ensures
        x.deep_view().start_byte == x.start_byte,
        x.deep_view().end_byte == x.end_byte,
        x.deep_view().checksum == x.checksum@,
{
}

/// The row of an upload: contracts speak of every field as it is.
pub proof fn fields_of_session_row(x: SessionRow<String>)
    ensures
        x.deep_view().upload_id == x.upload_id@,
        x.deep_view().file_name == x.file_name@,
        x.deep_view().file_size == x.file_size,
        x.deep_view().mime_type == x.mime_type.deep_view(),
        x.deep_view().received_bytes == x.received_bytes,
        x.deep_view().temp_path == x.temp_path@,
        x.deep_view().status == x.status@,
{
}

/// What a client tells of a file: contracts speak of every field as it is.
pub proof fn fields_of_upload_init_request(x: UploadInitRequest<String>)
    ensures
        x.deep_view().file_key == x.file_key@,
        x.deep_view().file_name == x.file_name@,
        x.deep_view().file_size == x.file_size,
        x.deep_view().mime_type == x.mime_type.deep_view(),
{
}

/// The answer to the request that begins an upload: contracts speak of every field
/// as it is.
pub proof fn fields_of_upload_init_response(
    x: UploadInitResponse<String, Vec<UploadedPart<String>>>,
)
    ensures
        x.deep_view().upload_id == x.upload_id@,
        x.deep_view().chunk_size == x.chunk_size,
        x.deep_view().parallel_limit == x.parallel_limit,
        x.deep_view().received_bytes == x.received_bytes,
        x.deep_view().total_bytes == x.total_bytes,
        x.deep_view().completed_parts == x.completed_parts.deep_view(),
        x.deep_view().done == x.done,
{
}

/// A part that is sent: contracts speak of every field as it is.
pub proof fn fields_of_chunk_request(x: ChunkRequest<String, Vec<u8>>)
    ensures
        x.deep_view().upload_id == x.upload_id@,
        x.deep_view().start_byte == x.start_byte,
        x.deep_view().end_byte == x.end_byte,
        x.deep_view().size == x.size,
        x.deep_view().checksum == x.checksum@,
        x.deep_view().data == x.data.deep_view(),
{
}

/// The answer to a part: contracts speak of every field as it is.
pub proof fn fields_of_upload_chunk_response(x: UploadChunkResponse<String>)
    ensures
        x.deep_view().upload_id == x.upload_id@,
        x.deep_view().received_bytes == x.received_bytes,
        x.deep_view().total_bytes == x.total_bytes,
        x.deep_view().done == x.done,
{
}

/// The answer to the request that gives up an upload: contracts speak of every
/// field as it is.
pub proof fn fields_of_upload_cancel_response(x: UploadCancelResponse)
    ensures
        x.deep_view().cancelled == x.cancelled,
{
}

/// The row of a message: contracts speak of every field as it is.
pub proof fn fields_of_message_row(x: MessageRow<String>)
    ensures
        x.deep_view().id == x.id,
        x.deep_view().kind == x.kind@,
        x.deep_view().text_content == x.text_content.deep_view(),
        x.deep_view().file_id == x.file_id.deep_view(),
        x.deep_view().file_name == x.file_name.deep_view(),
        x.deep_view().file_size == x.file_size,
        x.deep_view().mime_type == x.mime_type.deep_view(),
        x.deep_view().created_at == x.created_at@,
{
}

/// A message that is shown: contracts speak of every field as it is.
pub proof fn fields_of_message_dto(x: MessageDto<String>)
    ensures
        x.deep_view().id == x.id,
        x.deep_view().kind == x.kind@,
        x.deep_view().text == x.text.deep_view(),
        x.deep_view().created_at == x.created_at@,
        x.deep_view().file_id == x.file_id.deep_view(),
        x.deep_view().file_name == x.file_name.deep_view(),
        x.deep_view().file_size == x.file_size,
        x.deep_view().mime_type == x.mime_type.deep_view(),
        x.deep_view().file_url == x.file_url.deep_view(),
        x.deep_view().download_url == x.download_url.deep_view(),
{
}

/// A file that is being received: contracts speak of every field as it is.
pub proof fn fields_of_incoming_file(x: IncomingFile<String>)
    ensures
        x.deep_view().file_id == x.file_id@,
        x.deep_view().file_name == x.file_name@,
        x.deep_view().mime_type == x.mime_type@,
        x.deep_view().file_size == x.file_size,
{
}

/// The answer to the request that deletes messages: contracts speak of every field
/// as it is.
pub proof fn fields_of_delete_response(x: DeleteResponse)
    ensures
        x.deep_view().deleted == x.deleted,
{
}

/// The request for a file: contracts speak of every field as it is.
pub proof fn fields_of_download_request(x: DownloadRequest<String>)
    ensures
        x.deep_view().file_id == x.file_id@,
        x.deep_view().range == x.range.deep_view(),
        x.deep_view().save == x.save,
{
}

/// The answer to the request for a file: contracts speak of every field as it is.
pub proof fn fields_of_file_response(x: FileResponse<String>)
    ensures
        x.deep_view().status == x.status,
        x.deep_view().start == x.start,
        x.deep_view().length == x.length,
        x.deep_view().content_type == x.content_type@,
        x.deep_view().accept_ranges == x.accept_ranges@,
        x.deep_view().content_length == x.content_length@,
        x.deep_view().content_range == x.content_range.deep_view(),
        x.deep_view().content_disposition == x.content_disposition.deep_view(),
{
}

/// The answer to the right password: contracts speak of every field as it is.
pub proof fn fields_of_auth_reply(x: AuthReply<String>)
    ensures
        x.deep_view().token == x.token@,
        x.deep_view().cookie == x.cookie@,
{
}

/// The answer to the request to restart: contracts speak of every field as it is.
pub proof fn fields_of_restart_response(x: RestartResponse<String>)
    ensures
        x.deep_view().accepted == x.accepted,
        x.deep_view().message == x.message@,
{
}

/// The settings that can change: contracts speak of every field as it is.
pub proof fn fields_of_runtime_config(x: RuntimeConfig<String>)
    ensures
        x.deep_view().password == x.password@,
        x.deep_view().session_ttl_seconds == x.session_ttl_seconds,
{
}

/// The settings that stay: contracts speak of every field as it is.
pub proof fn fields_of_startup_config(x: StartupConfig<String>)
    ensures
        x.deep_view().storage == x.storage.deep_view(),
        x.deep_view().port == x.port,
        x.deep_view().allow_web_restart == x.allow_web_restart,
{
}

/// The settings: contracts speak of every field as it is.
pub proof fn fields_of_running_config(x: RunningConfig<String>)
    ensures
        x.deep_view().startup == x.startup.deep_view(),
        x.deep_view().runtime == x.runtime.deep_view(),
{
}

/// The heights: contracts speak of every field as it is.
pub proof fn fields_of_ui_state_response(x: UiStateResponse)
    ensures
        x.deep_view().chat_height_px == x.chat_height_px,
        x.deep_view().input_height_px == x.input_height_px,
{
}

type UploadActionSeen = UploadAction<Seq<char>, Seq<u8>>;

/// What an upload asks of the storage: contracts speak of every kind of it as it
/// is.
pub proof fn variants_of_upload_action(x: UploadAction<String, Vec<u8>>)
    ensures
        x is OpenStore ==> x.deep_view() == UploadActionSeen::OpenStore,
        x matches UploadAction::FindSessionByKey { file_key } ==> x.deep_view()
            == (UploadActionSeen::FindSessionByKey { file_key: file_key@ }),
        x matches UploadAction::FindSession { upload_id } ==> x.deep_view()
            == (UploadActionSeen::FindSession { upload_id: upload_id@ }),
        x matches UploadAction::LoadParts { upload_id } ==> x.deep_view()
            == (UploadActionSeen::LoadParts { upload_id: upload_id@ }),
        x matches UploadAction::FindPart { upload_id, start_byte } ==> x.deep_view()
            == (UploadActionSeen::FindPart { upload_id: upload_id@, start_byte }),
        x matches UploadAction::CountOverlaps { upload_id, start_byte, end_byte } ==> x.deep_view()
            == (UploadActionSeen::CountOverlaps { upload_id: upload_id@, start_byte, end_byte }),
        x matches UploadAction::InsertSession {
            upload_id,
            file_key,
            file_name,
            file_size,
            mime_type,
            temp_path,
            at,
        } ==> x.deep_view()
            == (UploadActionSeen::InsertSession {
            upload_id: upload_id@,
            file_key: file_key@,
            file_name: file_name@,
            file_size,
            mime_type: mime_type.deep_view(),
            temp_path: temp_path@,
            at: at@,
        }),
        x matches UploadAction::SetReceived { upload_id, received_bytes, at } ==> x.deep_view()
            == (UploadActionSeen::SetReceived { upload_id: upload_id@, received_bytes, at: at@ }),
        x matches UploadAction::InsertPart { upload_id, part, chunk_size, at } ==> x.deep_view()
            == (UploadActionSeen::InsertPart {
            upload_id: upload_id@,
            part: part.deep_view(),
            chunk_size,
            at: at@,
        }),
        x matches UploadAction::DeleteSession { upload_id } ==> x.deep_view()
            == (UploadActionSeen::DeleteSession { upload_id: upload_id@ }),
        x matches UploadAction::DeleteParts { upload_id } ==> x.deep_view()
            == (UploadActionSeen::DeleteParts { upload_id: upload_id@ }),
        x matches UploadAction::CreateTemp { file_name } ==> x.deep_view()
            == (UploadActionSeen::CreateTemp { file_name: file_name@ }),
        x matches UploadAction::WriteTemp { temp_path, start_byte, data } ==> x.deep_view()
            == (UploadActionSeen::WriteTemp {
            temp_path: temp_path@,
            start_byte,
            data: data.deep_view(),
        }),
        x matches UploadAction::RemoveTemp { temp_path } ==> x.deep_view()
            == (UploadActionSeen::RemoveTemp { temp_path: temp_path@ }),
        x matches UploadAction::RenameTemp { temp_path, file_id } ==> x.deep_view()
            == (UploadActionSeen::RenameTemp { temp_path: temp_path@, file_id: file_id@ }),
        x matches UploadAction::CopyTemp { temp_path, file_id } ==> x.deep_view()
            == (UploadActionSeen::CopyTemp { temp_path: temp_path@, file_id: file_id@ }),
        x matches UploadAction::InsertFile {
            file_id,
            file_name,
            file_size,
            mime_type,
            at,
        } ==> x.deep_view()
            == (UploadActionSeen::InsertFile {
            file_id: file_id@,
            file_name: file_name@,
            file_size,
            mime_type: mime_type@,
            at: at@,
        }),
        x matches UploadAction::FindMessage { id } ==> x.deep_view()
            == (UploadActionSeen::FindMessage { id }),
{
}

type UploadEventSeen = UploadEvent<Seq<char>, Seq<UploadedPart<Seq<char>>>>;

/// What comes of an action of an upload: contracts speak of every kind of it as it
/// is.
pub proof fn variants_of_upload_event(x: UploadEvent<String, Vec<UploadedPart<String>>>)
    ensures
        x is Done ==> x.deep_view() == UploadEventSeen::Done,
        x matches UploadEvent::Failed { detail } ==> x.deep_view()
            == (UploadEventSeen::Failed { detail: detail@ }),
        x matches UploadEvent::Unprepared { detail } ==> x.deep_view()
            == (UploadEventSeen::Unprepared { detail: detail@ }),
        x matches UploadEvent::Unopened { detail } ==> x.deep_view()
            == (UploadEventSeen::Unopened { detail: detail@ }),
        x matches UploadEvent::Unplaced { detail } ==> x.deep_view()
            == (UploadEventSeen::Unplaced { detail: detail@ }),
        x matches UploadEvent::Session(value) ==> x.deep_view()
            == UploadEventSeen::Session(value.deep_view()),
        x matches UploadEvent::Parts(value) ==> x.deep_view()
            == UploadEventSeen::Parts(value.deep_view()),
        x matches UploadEvent::Part(value) ==> x.deep_view()
            == UploadEventSeen::Part(value.deep_view()),
        x matches UploadEvent::Count(value) ==> x.deep_view() == UploadEventSeen::Count(value),
        x matches UploadEvent::Created { temp_path } ==> x.deep_view()
            == (UploadEventSeen::Created { temp_path: temp_path@ }),
        x matches UploadEvent::Inserted { id } ==> x.deep_view()
            == (UploadEventSeen::Inserted { id }),
        x matches UploadEvent::Message(value) ==> x.deep_view()
            == UploadEventSeen::Message(value.deep_view()),
{
}

type PostActionSeen = PostAction<Seq<char>, Seq<u8>>;

/// What a request that adds a message asks of the storage: contracts speak of
/// every kind of it as it is.
pub proof fn variants_of_post_action(x: PostAction<String, Vec<u8>>)
    ensures
        x is NextField ==> x.deep_view() == PostActionSeen::NextField,
        x matches PostAction::CreateFile { file_id } ==> x.deep_view()
            == (PostActionSeen::CreateFile { file_id: file_id@ }),
        x is NextChunk ==> x.deep_view() == PostActionSeen::NextChunk,
        x matches PostAction::WriteFile { file_id, data } ==> x.deep_view()
            == (PostActionSeen::WriteFile { file_id: file_id@, data: data.deep_view() }),
        x is OpenStore ==> x.deep_view() == PostActionSeen::OpenStore,
        x matches PostAction::InsertText { text, at } ==> x.deep_view()
            == (PostActionSeen::InsertText { text: text@, at: at@ }),
        x matches PostAction::InsertFile {
            file_id,
            file_name,
            file_size,
            mime_type,
            at,
        } ==> x.deep_view()
            == (PostActionSeen::InsertFile {
            file_id: file_id@,
            file_name: file_name@,
            file_size,
            mime_type: mime_type@,
            at: at@,
        }),
        x matches PostAction::FindMessage { id } ==> x.deep_view()
            == (PostActionSeen::FindMessage { id }),
{
}

type PostEventSeen = PostEvent<Seq<char>, Seq<u8>>;

/// What comes of an action of a request that adds a message: contracts speak of
/// every kind of it as it is.
pub proof fn variants_of_post_event(x: PostEvent<String, Vec<u8>>)
    ensures
        x is Done ==> x.deep_view() == PostEventSeen::Done,
        x matches PostEvent::Failed { detail } ==> x.deep_view()
            == (PostEventSeen::Failed { detail: detail@ }),
        x matches PostEvent::Unprepared { detail } ==> x.deep_view()
            == (PostEventSeen::Unprepared { detail: detail@ }),
        x matches PostEvent::Field { name, file_name, content_type } ==> x.deep_view()
            == (PostEventSeen::Field {
            name: name.deep_view(),
            file_name: file_name.deep_view(),
            content_type: content_type.deep_view(),
        }),
        x is NoField ==> x.deep_view() == PostEventSeen::NoField,
        x matches PostEvent::Chunk { data } ==> x.deep_view()
            == (PostEventSeen::Chunk { data: data.deep_view() }),
        x is NoChunk ==> x.deep_view() == PostEventSeen::NoChunk,
        x matches PostEvent::Inserted { id } ==> x.deep_view() == (PostEventSeen::Inserted { id }),
        x matches PostEvent::Message(value) ==> x.deep_view()
            == PostEventSeen::Message(value.deep_view()),
{
}

type DeleteActionSeen = DeleteAction<Seq<char>, Seq<i64>, Seq<Seq<char>>>;

/// What a request that deletes messages asks of the storage: contracts speak of
/// every kind of it as it is.
pub proof fn variants_of_delete_action(x: DeleteAction<String, Vec<i64>, Vec<String>>)
    ensures
        x is OpenStore ==> x.deep_view() == DeleteActionSeen::OpenStore,
        x matches DeleteAction::FindFiles { sql, ids } ==> x.deep_view()
            == (DeleteActionSeen::FindFiles { sql: sql@, ids: ids.deep_view() }),
        x matches DeleteAction::FileExists { file_id } ==> x.deep_view()
            == (DeleteActionSeen::FileExists { file_id: file_id@ }),
        x matches DeleteAction::RemoveFile { file_id } ==> x.deep_view()
            == (DeleteActionSeen::RemoveFile { file_id: file_id@ }),
        x matches DeleteAction::DropProgress { sql, file_ids } ==> x.deep_view()
            == (DeleteActionSeen::DropProgress { sql: sql@, file_ids: file_ids.deep_view() }),
        x matches DeleteAction::DeleteRows { sql, ids } ==> x.deep_view()
            == (DeleteActionSeen::DeleteRows { sql: sql@, ids: ids.deep_view() }),
{
}

type DeleteEventSeen = DeleteEvent<Seq<char>, Seq<Option<Seq<char>>>>;

/// What comes of an action of a request that deletes messages: contracts speak of
/// every kind of it as it is.
pub proof fn variants_of_delete_event(x: DeleteEvent<String, Vec<Option<String>>>)
    ensures
        x is Done ==> x.deep_view() == DeleteEventSeen::Done,
        x matches DeleteEvent::Failed { detail } ==> x.deep_view()
            == (DeleteEventSeen::Failed { detail: detail@ }),
        x matches DeleteEvent::Unprepared { detail } ==> x.deep_view()
            == (DeleteEventSeen::Unprepared { detail: detail@ }),
        x matches DeleteEvent::FileIds(value) ==> x.deep_view()
            == DeleteEventSeen::FileIds(value.deep_view()),
        x matches DeleteEvent::Exists(value) ==> x.deep_view() == DeleteEventSeen::Exists(value),
        x matches DeleteEvent::Count(value) ==> x.deep_view() == DeleteEventSeen::Count(value),
{
}

type DownloadActionSeen = DownloadAction<Seq<char>>;

/// What a request for a file asks of the storage: contracts speak of every kind of
/// it as it is.
pub proof fn variants_of_download_action(x: DownloadAction<String>)
    ensures
        x is OpenStore ==> x.deep_view() == DownloadActionSeen::OpenStore,
        x matches DownloadAction::FindFile { file_id } ==> x.deep_view()
            == (DownloadActionSeen::FindFile { file_id: file_id@ }),
        x matches DownloadAction::OpenFile { file_id } ==> x.deep_view()
            == (DownloadActionSeen::OpenFile { file_id: file_id@ }),
        x is ReadSize ==> x.deep_view() == DownloadActionSeen::ReadSize,
        x matches DownloadAction::Seek { start } ==> x.deep_view()
            == (DownloadActionSeen::Seek { start }),
{
}

type DownloadEventSeen = DownloadEvent<Seq<char>>;

/// What comes of an action of a request for a file: contracts speak of every kind
/// of it as it is.
pub proof fn variants_of_download_event(x: DownloadEvent<String>)
    ensures
        x is Done ==> x.deep_view() == DownloadEventSeen::Done,
        x matches DownloadEvent::Failed { detail } ==> x.deep_view()
            == (DownloadEventSeen::Failed { detail: detail@ }),
        x matches DownloadEvent::Unprepared { detail } ==> x.deep_view()
            == (DownloadEventSeen::Unprepared { detail: detail@ }),
        x matches DownloadEvent::File { file_name, mime_type } ==> x.deep_view()
            == (DownloadEventSeen::File {
            file_name: file_name.deep_view(),
            mime_type: mime_type.deep_view(),
        }),
        x matches DownloadEvent::Size(value) ==> x.deep_view() == DownloadEventSeen::Size(value),
{
}

type ListEventSeen = ListEvent<Seq<char>, Seq<MessageRow<Seq<char>>>>;

/// What comes of an action of a request for the messages: contracts speak of every
/// kind of it as it is.
pub proof fn variants_of_list_event(x: ListEvent<String, Vec<MessageRow<String>>>)
    ensures
        x is Done ==> x.deep_view() == ListEventSeen::Done,
        x matches ListEvent::Failed { detail } ==> x.deep_view()
            == (ListEventSeen::Failed { detail: detail@ }),
        x matches ListEvent::Unprepared { detail } ==> x.deep_view()
            == (ListEventSeen::Unprepared { detail: detail@ }),
        x matches ListEvent::RowFailed { detail } ==> x.deep_view()
            == (ListEventSeen::RowFailed { detail: detail@ }),
        x matches ListEvent::Messages(value) ==> x.deep_view()
            == ListEventSeen::Messages(value.deep_view()),
{
}

type UiActionSeen = UiAction<Seq<char>>;

/// What a request about the heights asks of the storage: contracts speak of every
/// kind of it as it is.
pub proof fn variants_of_ui_action(x: UiAction<String>)
    ensures
        x is OpenStore ==> x.deep_view() == UiActionSeen::OpenStore,
        x matches UiAction::GetValue { key } ==> x.deep_view()
            == (UiActionSeen::GetValue { key: key@ }),
        x matches UiAction::SetValue { key, value, at } ==> x.deep_view()
            == (UiActionSeen::SetValue { key: key@, value: value@, at: at@ }),
        x matches UiAction::DeleteKey { key } ==> x.deep_view()
            == (UiActionSeen::DeleteKey { key: key@ }),
{
}

type UiEventSeen = UiEvent<Seq<char>>;

/// What comes of an action of a request about the heights: contracts speak of
/// every kind of it as it is.
pub proof fn variants_of_ui_event(x: UiEvent<String>)
    ensures
        x is Done ==> x.deep_view() == UiEventSeen::Done,
        x matches UiEvent::Failed { detail } ==> x.deep_view()
            == (UiEventSeen::Failed { detail: detail@ }),
        x matches UiEvent::Value { value } ==> x.deep_view()
            == (UiEventSeen::Value { value: value@ }),
{
}

/// What a function answers: contracts speak of the value, or of the refusal, as it
/// is.
pub proof fn outcomes_of_functions<T: DeepView>(value: T, error: AppError)
    ensures
        outcome(Ok::<T, AppError>(value)) == Ok::<T::V, Refusal>(value.deep_view()),
        outcome(Err::<T, AppError>(error)) == Err::<T::V, Refusal>(error.deep_view()),
{
}

/// How a request goes on: contracts speak of every kind of it as it is.
pub proof fn variants_of_step<M: DeepView, A: DeepView, R: DeepView>(
    x: Step<M, A, R, AppError>,
)
    ensures
        x matches Step::Ask(state, action) ==> x.deep_view() == Step::<
            M::V,
            A::V,
            R::V,
            Refusal,
        >::Ask(state.deep_view(), action.deep_view()),
        x matches Step::Reply(reply) ==> x.deep_view() == Step::<M::V, A::V, R::V, Refusal>::Reply(
            reply.deep_view(),
        ),
        x matches Step::Refuse(error) ==> x.deep_view() == Step::<
            M::V,
            A::V,
            R::V,
            Refusal,
        >::Refuse(error.deep_view()),
{
}

} // verus!
