//! Adding messages: texts, and files that are sent in one piece.
use vstd::prelude::*;
use vstd::string::*;

use crate::error::{failure, refusal, AppError, Refusal, BAD_REQUEST, INTERNAL_SERVER_ERROR};
use crate::error::NOT_FOUND;
use crate::message::{row_to_dto, shown, MessageDto, MessageRow};
use crate::parts::fits_i64;
use crate::stamp::{create_token, is_token};
use crate::step::Step;
use crate::text::{concat, same_text};

verus! {

/// What a request that adds a message asks for. `S` is the type of text, `B` of
/// bytes.
#[derive(Debug, PartialEq, Eq)]
pub enum PostAction<S, B> {
    /// Read the head of the next field of the form.
    NextField,
    /// Create the stored file, empty.
    CreateFile { file_id: S },
    /// Read the next bytes of the field.
    NextChunk,
    /// Write the bytes at the end of the stored file.
    WriteFile { file_id: S, data: B },
    /// Open the database.
    OpenStore,
    /// Record a message of the kind `text`.
    InsertText { text: S, at: S },
    /// Record a message of the kind `file`.
    InsertFile { file_id: S, file_name: S, file_size: i64, mime_type: S, at: S },
    /// Read the message.
    FindMessage { id: i64 },
}

impl<S: DeepView, B: DeepView> DeepView for PostAction<S, B> {
    type V = PostAction<S::V, B::V>;

    open spec fn deep_view(&self) -> Self::V {
        match self {
            PostAction::NextField => PostAction::NextField,
            PostAction::CreateFile { file_id } => PostAction::CreateFile {
                file_id: file_id.deep_view(),
            },
            PostAction::NextChunk => PostAction::NextChunk,
            PostAction::WriteFile { file_id, data } => PostAction::WriteFile {
                file_id: file_id.deep_view(),
                data: data.deep_view(),
            },
            PostAction::OpenStore => PostAction::OpenStore,
            PostAction::InsertText { text, at } => PostAction::InsertText {
                text: text.deep_view(),
                at: at.deep_view(),
            },
            PostAction::InsertFile { file_id, file_name, file_size, mime_type, at } =>
                PostAction::InsertFile {
                file_id: file_id.deep_view(),
                file_name: file_name.deep_view(),
                file_size: *file_size,
                mime_type: mime_type.deep_view(),
                at: at.deep_view(),
            },
            PostAction::FindMessage { id } => PostAction::FindMessage { id: *id },
        }
    }
}

/// What comes of an action.
#[derive(Debug, PartialEq, Eq)]
pub enum PostEvent<S, B> {
    /// It is done.
    Done,
    /// It failed.
    Failed { detail: S },
    /// It failed before anything was read.
    Unprepared { detail: S },
    /// The head of a field of the form.
    Field { name: Option<S>, file_name: Option<S>, content_type: Option<S> },
    /// The form has no more fields.
    NoField,
    /// The next bytes of the field.
    Chunk { data: B },
    /// The field has no more bytes.
    NoChunk,
    /// The message was recorded under this number.
    Inserted { id: i64 },
    /// The message that was asked for.
    Message(MessageRow<S>),
}

impl<S: DeepView, B: DeepView> DeepView for PostEvent<S, B> {
    type V = PostEvent<S::V, B::V>;

    open spec fn deep_view(&self) -> Self::V {
        match self {
            PostEvent::Done => PostEvent::Done,
            PostEvent::Failed { detail } => PostEvent::Failed { detail: detail.deep_view() },
            PostEvent::Unprepared { detail } => PostEvent::Unprepared {
                detail: detail.deep_view(),
            },
            PostEvent::Field { name, file_name, content_type } => PostEvent::Field {
                name: name.deep_view(),
                file_name: file_name.deep_view(),
                content_type: content_type.deep_view(),
            },
            PostEvent::NoField => PostEvent::NoField,
            PostEvent::Chunk { data } => PostEvent::Chunk { data: data.deep_view() },
            PostEvent::NoChunk => PostEvent::NoChunk,
            PostEvent::Inserted { id } => PostEvent::Inserted { id: *id },
            PostEvent::Message(row) => PostEvent::Message(row.deep_view()),
        }
    }
}

/// A file that is being sent: the name it is stored under, the name for
/// display, its type, and how many bytes have come.
#[derive(Debug, PartialEq, Eq)]
pub struct IncomingFile<S> {
    pub file_id: S,
    pub file_name: S,
    pub mime_type: S,
    pub file_size: i64,
}

impl<S: DeepView> DeepView for IncomingFile<S> {
    type V = IncomingFile<S::V>;

    open spec fn deep_view(&self) -> Self::V {
        IncomingFile {
            file_id: self.file_id.deep_view(),
            file_name: self.file_name.deep_view(),
            mime_type: self.mime_type.deep_view(),
            file_size: self.file_size,
        }
    }
}

/// The states of a request that adds a message.
#[derive(Debug, PartialEq, Eq)]
pub enum PostState<S> {
    ReadingField { file_id: S },
    Creating { file: IncomingFile<S> },
    Receiving { file: IncomingFile<S> },
    Writing { file: IncomingFile<S> },
    OpeningForFile { file: IncomingFile<S> },
    OpeningForText { text: S },
    Inserting,
    Showing,
}

impl<S: DeepView> DeepView for PostState<S> {
    type V = PostState<S::V>;

    open spec fn deep_view(&self) -> Self::V {
        match self {
            PostState::ReadingField { file_id } => PostState::ReadingField {
                file_id: file_id.deep_view(),
            },
            PostState::Creating { file } => PostState::Creating { file: file.deep_view() },
            PostState::Receiving { file } => PostState::Receiving { file: file.deep_view() },
            PostState::Writing { file } => PostState::Writing { file: file.deep_view() },
            PostState::OpeningForFile { file } => PostState::OpeningForFile {
                file: file.deep_view(),
            },
            PostState::OpeningForText { text } => PostState::OpeningForText {
                text: text.deep_view(),
            },
            PostState::Inserting => PostState::Inserting,
            PostState::Showing => PostState::Showing,
        }
    }
}

/// A request that adds a message.
pub type Post = PostState<String>;

pub type PostStep = Step<Post, PostAction<String, Vec<u8>>, MessageDto<String>, AppError>;

/// A state as a mathematical value.
pub type Posting = PostState<Seq<char>>;

/// An action as a mathematical value.
pub type PostDo = PostAction<Seq<char>, Seq<u8>>;

/// An event as a mathematical value.
pub type PostGot = PostEvent<Seq<char>, Seq<u8>>;

/// A step as a mathematical value.
pub type PostStepModel = Step<Posting, PostDo, MessageDto<Seq<char>>, Refusal>;

/// How a request begins that adds a text.
pub open spec fn text_start(text: Seq<char>) -> PostStepModel {
    Step::Ask(PostState::OpeningForText { text }, PostAction::OpenStore)
}

/// How a request begins that adds a file; it is stored under `file_id`.
pub open spec fn file_start(file_id: Seq<char>) -> PostStepModel {
    Step::Ask(PostState::ReadingField { file_id }, PostAction::NextField)
}

/// The state waits for such an event.
pub open spec fn post_accepts(state: Posting, event: PostGot) -> bool {
    match state {
        PostState::ReadingField { .. } => event is Field || event is NoField || event is Failed,
        PostState::Receiving { file } => match event {
            PostEvent::Chunk { data } => data.len() <= i64::MAX ==> fits_i64(
                file.file_size + data.len(),
            ),
            _ => event is NoChunk || event is Failed,
        },
        PostState::OpeningForFile { .. } | PostState::OpeningForText { .. } => event is Done
            || event is Failed,
        PostState::Inserting => event is Inserted || event is Failed,
        PostState::Showing => event is Message || event is Unprepared || event is Failed,
        _ => event is Done || event is Failed,
    }
}

/// How the request goes on from `state` after `event`, at the time `now`.
pub open spec fn post_next(state: Posting, event: PostGot, now: Seq<char>) -> PostStepModel
    recommends
        post_accepts(state, event),
{
    match state {
        PostState::ReadingField { file_id } => match event {
            PostEvent::Failed { detail } => Step::Refuse(
                refusal(BAD_REQUEST, "读取上传失败: "@ + detail),
            ),
            PostEvent::Field { name, file_name, content_type } => if name == Some("file"@) {
                Step::Ask(
                    PostState::Creating {
                        file: IncomingFile {
                            file_id,
                            file_name: match file_name {
                                Some(file_name) => file_name,
                                None => "file"@,
                            },
                            mime_type: match content_type {
                                Some(content_type) => content_type,
                                None => "application/octet-stream"@,
                            },
                            file_size: 0,
                        },
                    },
                    PostAction::CreateFile { file_id },
                )
            } else {
                Step::Ask(PostState::ReadingField { file_id }, PostAction::NextField)
            },
            _ => Step::Refuse(refusal(BAD_REQUEST, "缺少文件"@)),
        },
        PostState::Creating { file } => match event {
            PostEvent::Failed { detail } => Step::Refuse(failure("创建文件失败: "@, detail)),
            _ => Step::Ask(PostState::Receiving { file }, PostAction::NextChunk),
        },
        PostState::Receiving { file } => match event {
            PostEvent::Failed { detail } => Step::Refuse(
                refusal(BAD_REQUEST, "读取分片失败: "@ + detail),
            ),
            PostEvent::Chunk { data } => if data.len() > i64::MAX {
                Step::Refuse(refusal(INTERNAL_SERVER_ERROR, "文件过大"@))
            } else {
                Step::Ask(
                    PostState::Writing {
                        file: IncomingFile {
                            file_size: (file.file_size + data.len()) as i64,
                            ..file
                        },
                    },
                    PostAction::WriteFile { file_id: file.file_id, data },
                )
            },
            _ => Step::Ask(PostState::OpeningForFile { file }, PostAction::OpenStore),
        },
        PostState::Writing { file } => match event {
            PostEvent::Failed { detail } => Step::Refuse(failure("写入文件失败: "@, detail)),
            _ => Step::Ask(PostState::Receiving { file }, PostAction::NextChunk),
        },
        PostState::OpeningForFile { file } => match event {
            PostEvent::Failed { detail } => Step::Refuse(failure("数据库打开失败: "@, detail)),
            _ => Step::Ask(
                PostState::Inserting,
                PostAction::InsertFile {
                    file_id: file.file_id,
                    file_name: file.file_name,
                    file_size: file.file_size,
                    mime_type: file.mime_type,
                    at: now,
                },
            ),
        },
        PostState::OpeningForText { text } => match event {
            PostEvent::Failed { detail } => Step::Refuse(failure("数据库打开失败: "@, detail)),
            _ => Step::Ask(PostState::Inserting, PostAction::InsertText { text, at: now }),
        },
        PostState::Inserting => match event {
            PostEvent::Inserted { id } => Step::Ask(
                PostState::Showing,
                PostAction::FindMessage { id },
            ),
            PostEvent::Failed { detail } => Step::Refuse(failure("写入失败: "@, detail)),
            _ => arbitrary(),
        },
        PostState::Showing => match event {
            PostEvent::Message(row) => Step::Reply(shown(row)),
            PostEvent::Unprepared { detail } => Step::Refuse(failure("查询失败: "@, detail)),
            _ => Step::Refuse(refusal(NOT_FOUND, "消息不存在"@)),
        },
    }
}

/// How a request begins that adds a text.
pub fn create_text_message(text: String) -> (r: PostStep)
    ensures
        r.deep_view() == text_start(text@),
{
    Step::Ask(PostState::OpeningForText { text }, PostAction::OpenStore)
}

/// How a request begins that adds a file; it is stored under `file_id`.
pub fn create_file_message_as(file_id: String) -> (r: PostStep)
    ensures
        r.deep_view() == file_start(file_id@),
{
    Step::Ask(PostState::ReadingField { file_id }, PostAction::NextField)
}

/// How a request begins that adds a file; it is stored under a random token.
pub fn create_file_message() -> (r: PostStep)
    ensures
        exists|file_id: Seq<char>| #[trigger]
            is_token(file_id) && r.deep_view() == file_start(file_id),
{
    let file_id = create_token();
    let ghost name = file_id@;
    let step = create_file_message_as(file_id);
    assert(is_token(name));
    step
}

/// Whether the field of this name holds the file.
fn is_file_field(name: &Option<String>) -> (r: bool)
    ensures
        r == (name.deep_view() == Some("file"@)),
{
    match name {
        Some(name) => same_text(name.as_str(), "file"),
        None => false,
    }
}

impl PostState<String> {
    /// Whether the state waits for such an event. Bytes beyond what an `i64`
    /// can count are not accepted.
    pub fn accepts(&self, event: &PostEvent<String, Vec<u8>>) -> (r: bool)
        ensures
            r == post_accepts(self.deep_view(), event.deep_view()),
    {
        match self {
            PostState::ReadingField { .. } => matches!(
                event,
                PostEvent::Field { .. } | PostEvent::NoField | PostEvent::Failed { .. }
            ),
            PostState::Receiving { file } => match event {
                PostEvent::Chunk { data } => if data.len() as u64 > i64::MAX as u64 {
                    true
                } else {
                    file.file_size.checked_add(data.len() as i64).is_some()
                },
                PostEvent::NoChunk => true,
                PostEvent::Failed { .. } => true,
                _ => false,
            },
            PostState::Inserting => matches!(
                event,
                PostEvent::Inserted { .. } | PostEvent::Failed { .. }
            ),
            PostState::Showing => matches!(
                event,
                PostEvent::Message(_) | PostEvent::Unprepared { .. } | PostEvent::Failed { .. }
            ),
            _ => matches!(event, PostEvent::Done | PostEvent::Failed { .. }),
        }
    }

    /// How the request goes on after `event`, at the time `now`.
    pub fn next(self, event: PostEvent<String, Vec<u8>>, now: &str) -> (r: PostStep)
        requires
            post_accepts(self.deep_view(), event.deep_view()),
        ensures
            r.deep_view() == post_next(self.deep_view(), event.deep_view(), now@),
    {
        match self {
            PostState::ReadingField { file_id } => match event {
                PostEvent::Failed { detail } => Step::Refuse(
                    AppError {
                        status: BAD_REQUEST,
                        message: concat("读取上传失败: ", detail.as_str()),
                    },
                ),
                PostEvent::Field { name, file_name, content_type } => if is_file_field(&name) {
                    let file_name = match file_name {
                        Some(file_name) => file_name,
                        None => "file".to_owned(),
                    };
                    let mime_type = match content_type {
                        Some(content_type) => content_type,
                        None => "application/octet-stream".to_owned(),
                    };
                    let id = file_id.clone();
                    Step::Ask(
                        PostState::Creating {
                            file: IncomingFile { file_id, file_name, mime_type, file_size: 0 },
                        },
                        PostAction::CreateFile { file_id: id },
                    )
                } else {
                    Step::Ask(PostState::ReadingField { file_id }, PostAction::NextField)
                },
                _ => Step::Refuse(AppError::new(BAD_REQUEST, "缺少文件")),
            },
            PostState::Creating { file } => match event {
                PostEvent::Failed { detail } => Step::Refuse(
                    AppError::failed("创建文件失败: ", detail.as_str()),
                ),
                _ => Step::Ask(PostState::Receiving { file }, PostAction::NextChunk),
            },
            PostState::Receiving { file } => match event {
                PostEvent::Failed { detail } => Step::Refuse(
                    AppError {
                        status: BAD_REQUEST,
                        message: concat("读取分片失败: ", detail.as_str()),
                    },
                ),
                PostEvent::Chunk { data } => if data.len() as u64 > i64::MAX as u64 {
                    Step::Refuse(AppError::new(INTERNAL_SERVER_ERROR, "文件过大"))
                } else {
                    let file_size: i64 = file.file_size + data.len() as i64;
                    let file_id = file.file_id.clone();
                    Step::Ask(
                        PostState::Writing {
                            file: IncomingFile {
                                file_id: file.file_id,
                                file_name: file.file_name,
                                mime_type: file.mime_type,
                                file_size,
                            },
                        },
                        PostAction::WriteFile { file_id, data },
                    )
                },
                _ => Step::Ask(PostState::OpeningForFile { file }, PostAction::OpenStore),
            },
            PostState::Writing { file } => match event {
                PostEvent::Failed { detail } => Step::Refuse(
                    AppError::failed("写入文件失败: ", detail.as_str()),
                ),
                _ => Step::Ask(PostState::Receiving { file }, PostAction::NextChunk),
            },
            PostState::OpeningForFile { file } => match event {
                PostEvent::Failed { detail } => Step::Refuse(
                    AppError::failed("数据库打开失败: ", detail.as_str()),
                ),
                _ => Step::Ask(
                    PostState::Inserting,
                    PostAction::InsertFile {
                        file_id: file.file_id,
                        file_name: file.file_name,
                        file_size: file.file_size,
                        mime_type: file.mime_type,
                        at: now.to_owned(),
                    },
                ),
            },
            PostState::OpeningForText { text } => match event {
                PostEvent::Failed { detail } => Step::Refuse(
                    AppError::failed("数据库打开失败: ", detail.as_str()),
                ),
                _ => Step::Ask(
                    PostState::Inserting,
                    PostAction::InsertText { text, at: now.to_owned() },
                ),
            },
            PostState::Inserting => match event {
                PostEvent::Inserted { id } => Step::Ask(
                    PostState::Showing,
                    PostAction::FindMessage { id },
                ),
                PostEvent::Failed { detail } => Step::Refuse(
                    AppError::failed("写入失败: ", detail.as_str()),
                ),
                _ => vstd::pervasive::unreached(),
            },
            PostState::Showing => match event {
                PostEvent::Message(row) => Step::Reply(row_to_dto(row)),
                PostEvent::Unprepared { detail } => Step::Refuse(
                    AppError::failed("查询失败: ", detail.as_str()),
                ),
                _ => Step::Refuse(AppError::new(NOT_FOUND, "消息不存在")),
            },
        }
    }
}

} // verus!
