//! Handing out a stored file, whole or in part.
use vstd::prelude::*;
use vstd::string::*;

use crate::error::{failure, refusal, AppError, Refusal, NOT_FOUND, OK, PARTIAL_CONTENT};
use crate::headers::{header_text, header_to_str, Headers, RequestHeaders};
use crate::outside::{header_safe, is_header_value};
use crate::range::{granted_range_lies_in_the_file, parse_range_header, range_of};
use crate::step::Step;
use crate::text::{decimal, push_u64, remove_char, same_text, u64_text, without_char};

verus! {

/// What a download asks of the storage. `S` is the type of text.
#[derive(Debug, PartialEq, Eq)]
pub enum DownloadAction<S> {
    /// Open the database.
    OpenStore,
    /// Read the name and the type of the file.
    FindFile { file_id: S },
    /// Open the stored file.
    OpenFile { file_id: S },
    /// Read how many bytes the opened file has.
    ReadSize,
    /// Go to the byte `start` of the opened file.
    Seek { start: u64 },
}

impl<S: DeepView> DeepView for DownloadAction<S> {
    type V = DownloadAction<S::V>;

    open spec fn deep_view(&self) -> Self::V {
        match self {
            DownloadAction::OpenStore => DownloadAction::OpenStore,
            DownloadAction::FindFile { file_id } => DownloadAction::FindFile {
                file_id: file_id.deep_view(),
            },
            DownloadAction::OpenFile { file_id } => DownloadAction::OpenFile {
                file_id: file_id.deep_view(),
            },
            DownloadAction::ReadSize => DownloadAction::ReadSize,
            DownloadAction::Seek { start } => DownloadAction::Seek { start: *start },
        }
    }
}

/// What comes of an action.
#[derive(Debug, PartialEq, Eq)]
pub enum DownloadEvent<S> {
    /// It is done.
    Done,
    /// It failed.
    Failed { detail: S },
    /// It failed before anything was read.
    Unprepared { detail: S },
    /// The name and the type of the file.
    File { file_name: Option<S>, mime_type: Option<S> },
    /// How many bytes the file has.
    Size(u64),
}

impl<S: DeepView> DeepView for DownloadEvent<S> {
    type V = DownloadEvent<S::V>;

    open spec fn deep_view(&self) -> Self::V {
        match self {
            DownloadEvent::Done => DownloadEvent::Done,
            DownloadEvent::Failed { detail } => DownloadEvent::Failed {
                detail: detail.deep_view(),
            },
            DownloadEvent::Unprepared { detail } => DownloadEvent::Unprepared {
                detail: detail.deep_view(),
            },
            DownloadEvent::File { file_name, mime_type } => DownloadEvent::File {
                file_name: file_name.deep_view(),
                mime_type: mime_type.deep_view(),
            },
            DownloadEvent::Size(size) => DownloadEvent::Size(*size),
        }
    }
}

/// What a download asks for: the file, the header `Range`, and whether the file
/// is to be saved rather than shown.
#[derive(Debug, PartialEq, Eq)]
pub struct DownloadRequest<S> {
    pub file_id: S,
    pub range: Option<S>,
    pub save: bool,
}

impl<S: DeepView> DeepView for DownloadRequest<S> {
    type V = DownloadRequest<S::V>;

    open spec fn deep_view(&self) -> Self::V {
        DownloadRequest {
            file_id: self.file_id.deep_view(),
            range: self.range.deep_view(),
            save: self.save,
        }
    }
}

/// The answer: the bytes of the opened file from `start` on, `length` of them,
/// and the headers.
#[derive(Debug, PartialEq, Eq)]
pub struct FileResponse<S> {
    pub status: u16,
    pub start: u64,
    pub length: u64,
    pub content_type: S,
    pub accept_ranges: S,
    pub content_length: S,
    pub content_range: Option<S>,
    pub content_disposition: Option<S>,
}

impl<S: DeepView> DeepView for FileResponse<S> {
    type V = FileResponse<S::V>;

    open spec fn deep_view(&self) -> Self::V {
        FileResponse {
            status: self.status,
            start: self.start,
            length: self.length,
            content_type: self.content_type.deep_view(),
            accept_ranges: self.accept_ranges.deep_view(),
            content_length: self.content_length.deep_view(),
            content_range: self.content_range.deep_view(),
            content_disposition: self.content_disposition.deep_view(),
        }
    }
}

/// The states of a request for a file.
#[derive(Debug, PartialEq, Eq)]
pub enum DownloadState<S> {
    Opening { request: DownloadRequest<S> },
    Finding { request: DownloadRequest<S> },
    OpeningFile { request: DownloadRequest<S>, file_name: S, mime_type: S },
    Measuring { request: DownloadRequest<S>, file_name: S, mime_type: S },
    Seeking { response: FileResponse<S> },
}

impl<S: DeepView> DeepView for DownloadState<S> {
    type V = DownloadState<S::V>;

    open spec fn deep_view(&self) -> Self::V {
        match self {
            DownloadState::Opening { request } => DownloadState::Opening {
                request: request.deep_view(),
            },
            DownloadState::Finding { request } => DownloadState::Finding {
                request: request.deep_view(),
            },
            DownloadState::OpeningFile { request, file_name, mime_type } =>
                DownloadState::OpeningFile {
                request: request.deep_view(),
                file_name: file_name.deep_view(),
                mime_type: mime_type.deep_view(),
            },
            DownloadState::Measuring { request, file_name, mime_type } =>
                DownloadState::Measuring {
                request: request.deep_view(),
                file_name: file_name.deep_view(),
                mime_type: mime_type.deep_view(),
            },
            DownloadState::Seeking { response } => DownloadState::Seeking {
                response: response.deep_view(),
            },
        }
    }
}

/// A request for a file.
pub type Download = DownloadState<String>;

pub type DownloadStep = Step<Download, DownloadAction<String>, FileResponse<String>, AppError>;

/// A request as a mathematical value.
pub type Asked = DownloadRequest<Seq<char>>;

/// A response as a mathematical value.
pub type Served = FileResponse<Seq<char>>;

/// The bytes that a request gets of a file of `total_size` bytes: the first one
/// and how many, and whether that is a part of the file.
pub open spec fn granted(range: Option<(u64, u64)>, total_size: u64) -> (u64, u64, bool) {
    match range {
        Some((start, end)) => (start, (end - start + 1) as u64, true),
        None => (0, total_size, false),
    }
}

/// The value of the header that tells which bytes are sent.
pub open spec fn content_range_text(start: u64, length: u64, total_size: u64) -> Seq<char> {
    "bytes "@ + decimal(start as nat) + "-"@ + decimal((start + length - 1) as nat) + "/"@
        + decimal(total_size as nat)
}

/// The value of the header that asks the client to save the file under its name.
pub open spec fn disposition_text(file_name: Seq<char>) -> Seq<char> {
    let text = "attachment; filename=\""@ + without_char(file_name, '"') + "\""@;
    if header_safe(text) {
        text
    } else {
        "attachment"@
    }
}

/// The answer to a request for `range` of a file of `total_size` bytes.
pub open spec fn file_response(
    range: Option<(u64, u64)>,
    save: bool,
    file_name: Seq<char>,
    mime_type: Seq<char>,
    total_size: u64,
) -> Served {
    let (start, length, partial) = granted(range, total_size);
    FileResponse {
        status: if partial {
            PARTIAL_CONTENT
        } else {
            OK
        },
        start,
        length,
        content_type: if header_safe(mime_type) {
            mime_type
        } else {
            "application/octet-stream"@
        },
        accept_ranges: "bytes"@,
        content_length: decimal(length as nat),
        content_range: if partial {
            Some(content_range_text(start, length, total_size))
        } else {
            None
        },
        content_disposition: if save {
            Some(disposition_text(file_name))
        } else {
            None
        },
    }
}

/// The range that the request asks for of a file of `total_size` bytes.
pub open spec fn asked_range(request: Asked, total_size: u64) -> Result<
    Option<(u64, u64)>,
    Refusal,
> {
    match request.range {
        Some(header) => range_of(header, total_size),
        None => Ok(None),
    }
}

/// The request for the file `file_id`; `download` is the query parameter of
/// that name.
pub open spec fn asked(
    file_id: Seq<char>,
    headers: Headers,
    download: Option<Seq<char>>,
) -> Asked {
    DownloadRequest {
        file_id,
        range: header_text(headers.range),
        save: download == Some("1"@),
    }
}

/// How a request begins.
pub open spec fn download_start(request: Asked) -> Step<
    DownloadState<Seq<char>>,
    DownloadAction<Seq<char>>,
    Served,
    Refusal,
> {
    Step::Ask(DownloadState::Opening { request }, DownloadAction::OpenStore)
}

/// The state waits for such an event.
pub open spec fn download_accepts(
    state: DownloadState<Seq<char>>,
    event: DownloadEvent<Seq<char>>,
) -> bool {
    match state {
        DownloadState::Finding { .. } => event is File || event is Unprepared || event is Failed,
        DownloadState::Measuring { .. } => event is Size || event is Failed,
        _ => event is Done || event is Failed,
    }
}

/// How the request goes on from `state` after `event`.
pub open spec fn download_next(
    state: DownloadState<Seq<char>>,
    event: DownloadEvent<Seq<char>>,
) -> Step<DownloadState<Seq<char>>, DownloadAction<Seq<char>>, Served, Refusal>
    recommends
        download_accepts(state, event),
{
    match state {
        DownloadState::Opening { request } => match event {
            DownloadEvent::Failed { detail } => Step::Refuse(
                failure("数据库打开失败: "@, detail),
            ),
            _ => Step::Ask(
                DownloadState::Finding { request },
                DownloadAction::FindFile { file_id: request.file_id },
            ),
        },
        DownloadState::Finding { request } => match event {
            DownloadEvent::File { file_name, mime_type } => Step::Ask(
                DownloadState::OpeningFile {
                    request,
                    file_name: match file_name {
                        Some(file_name) => file_name,
                        None => "file"@,
                    },
                    mime_type: match mime_type {
                        Some(mime_type) => mime_type,
                        None => "application/octet-stream"@,
                    },
                },
                DownloadAction::OpenFile { file_id: request.file_id },
            ),
            DownloadEvent::Unprepared { detail } => Step::Refuse(failure("查询失败: "@, detail)),
            _ => Step::Refuse(refusal(NOT_FOUND, "文件不存在"@)),
        },
        DownloadState::OpeningFile { request, file_name, mime_type } => match event {
            DownloadEvent::Failed { detail } => Step::Refuse(refusal(NOT_FOUND, "文件不存在"@)),
            _ => Step::Ask(
                DownloadState::Measuring { request, file_name, mime_type },
                DownloadAction::ReadSize,
            ),
        },
        DownloadState::Measuring { request, file_name, mime_type } => match event {
            DownloadEvent::Size(total_size) => match asked_range(request, total_size) {
                Err(refused) => Step::Refuse(refused),
                Ok(range) => {
                    let response = file_response(
                        range,
                        request.save,
                        file_name,
                        mime_type,
                        total_size,
                    );
                    if response.length > 0 {
                        Step::Ask(
                            DownloadState::Seeking { response },
                            DownloadAction::Seek { start: response.start },
                        )
                    } else {
                        Step::Reply(response)
                    }
                },
            },
            DownloadEvent::Failed { detail } => Step::Refuse(
                failure("读取文件信息失败: "@, detail),
            ),
            _ => arbitrary(),
        },
        DownloadState::Seeking { response } => match event {
            DownloadEvent::Failed { detail } => Step::Refuse(
                failure("定位文件失败: "@, detail),
            ),
            _ => Step::Reply(response),
        },
    }
}

/// How a request for the file `file_id` begins; `download` is the query
/// parameter of that name.
pub fn direct_file(
    file_id: String,
    headers: &RequestHeaders<Vec<u8>>,
    download: &Option<String>,
) -> (r: DownloadStep)
    ensures
        r.deep_view() == download_start(
            asked(file_id@, headers.deep_view(), download.deep_view()),
        ),
{
    let range = header_to_str(&headers.range);
    let save = match download {
        Some(text) => same_text(text.as_str(), "1"),
        None => false,
    };
    Step::Ask(
        DownloadState::Opening { request: DownloadRequest { file_id, range, save } },
        DownloadAction::OpenStore,
    )
}

/// The value of the header that tells which bytes are sent.
fn content_range(start: u64, end: u64, total_size: u64) -> (r: String)
    requires
        start <= end < total_size,
    ensures
        r@ == content_range_text(start, (end - start + 1) as u64, total_size),
{
    let mut text = "bytes ".to_owned();
    push_u64(&mut text, start);
    text.append("-");
    push_u64(&mut text, end);
    text.append("/");
    push_u64(&mut text, total_size);
    text
}

/// The value of the header that asks the client to save the file under its name.
fn disposition(file_name: &str) -> (r: String)
    ensures
        r@ == disposition_text(file_name@),
{
    let mut text = "attachment; filename=\"".to_owned();
    text.append(remove_char(file_name, '"').as_str());
    text.append("\"");
    if is_header_value(text.as_str()) {
        text
    } else {
        "attachment".to_owned()
    }
}

/// The answer to a request for `range` of a file of `total_size` bytes.
pub fn respond(
    range: Option<(u64, u64)>,
    save: bool,
    file_name: &str,
    mime_type: String,
    total_size: u64,
) -> (r: FileResponse<String>)
    requires
        range matches Some((start, end)) ==> start <= end < total_size,
    ensures
        r.deep_view() == file_response(range, save, file_name@, mime_type@, total_size),
{
    let (start, length, status) = match range {
        Some((start, end)) => (start, end - start + 1, PARTIAL_CONTENT),
        None => (0, total_size, OK),
    };
    let content_range = match range {
        Some((start, end)) => Some(content_range(start, end, total_size)),
        None => None,
    };
    let content_type = if is_header_value(mime_type.as_str()) {
        mime_type
    } else {
        "application/octet-stream".to_owned()
    };
    let content_disposition = if save {
        Some(disposition(file_name))
    } else {
        None
    };
    FileResponse {
        status,
        start,
        length,
        content_type,
        accept_ranges: "bytes".to_owned(),
        content_length: u64_text(length),
        content_range,
        content_disposition,
    }
}

impl DownloadState<String> {
    /// Whether the state waits for such an event.
    pub fn accepts(&self, event: &DownloadEvent<String>) -> (r: bool)
        ensures
            r == download_accepts(self.deep_view(), event.deep_view()),
    {
        match self {
            DownloadState::Finding { .. } => matches!(
                event,
                DownloadEvent::File { .. } | DownloadEvent::Unprepared { .. }
                | DownloadEvent::Failed { .. }
            ),
            DownloadState::Measuring { .. } => matches!(
                event,
                DownloadEvent::Size(_) | DownloadEvent::Failed { .. }
            ),
            _ => matches!(event, DownloadEvent::Done | DownloadEvent::Failed { .. }),
        }
    }

    /// How the request goes on after `event`.
    pub fn next(self, event: DownloadEvent<String>) -> (r: DownloadStep)
        requires
            download_accepts(self.deep_view(), event.deep_view()),
        ensures
            r.deep_view() == download_next(self.deep_view(), event.deep_view()),
    {
        match self {
            DownloadState::Opening { request } => match event {
                DownloadEvent::Failed { detail } => Step::Refuse(
                    AppError::failed("数据库打开失败: ", detail.as_str()),
                ),
                _ => {
                    let file_id = request.file_id.clone();
                    Step::Ask(
                        DownloadState::Finding { request },
                        DownloadAction::FindFile { file_id },
                    )
                },
            },
            DownloadState::Finding { request } => match event {
                DownloadEvent::File { file_name, mime_type } => {
                    let file_name = match file_name {
                        Some(file_name) => file_name,
                        None => "file".to_owned(),
                    };
                    let mime_type = match mime_type {
                        Some(mime_type) => mime_type,
                        None => "application/octet-stream".to_owned(),
                    };
                    let file_id = request.file_id.clone();
                    Step::Ask(
                        DownloadState::OpeningFile { request, file_name, mime_type },
                        DownloadAction::OpenFile { file_id },
                    )
                },
                DownloadEvent::Unprepared { detail } => Step::Refuse(
                    AppError::failed("查询失败: ", detail.as_str()),
                ),
                _ => Step::Refuse(AppError::new(NOT_FOUND, "文件不存在")),
            },
            DownloadState::OpeningFile { request, file_name, mime_type } => match event {
                DownloadEvent::Failed { .. } => Step::Refuse(
                    AppError::new(NOT_FOUND, "文件不存在"),
                ),
                _ => Step::Ask(
                    DownloadState::Measuring { request, file_name, mime_type },
                    DownloadAction::ReadSize,
                ),
            },
            DownloadState::Measuring { request, file_name, mime_type } => match event {
                DownloadEvent::Size(total_size) => {
                    let range = match &request.range {
                        Some(header) => match parse_range_header(header.as_str(), total_size) {
                            Ok(range) => range,
                            Err(error) => {
                                return Step::Refuse(error);
                            },
                        },
                        None => None,
                    };
                    proof {
                        if let Some(header) = request.range {
                            granted_range_lies_in_the_file(header@, total_size);
                        }
                    }
                    let response = respond(
                        range,
                        request.save,
                        file_name.as_str(),
                        mime_type,
                        total_size,
                    );
                    if response.length > 0 {
                        let start = response.start;
                        Step::Ask(
                            DownloadState::Seeking { response },
                            DownloadAction::Seek { start },
                        )
                    } else {
                        Step::Reply(response)
                    }
                },
                DownloadEvent::Failed { detail } => Step::Refuse(
                    AppError::failed("读取文件信息失败: ", detail.as_str()),
                ),
                _ => vstd::pervasive::unreached(),
            },
            DownloadState::Seeking { response } => match event {
                DownloadEvent::Failed { detail } => Step::Refuse(
                    AppError::failed("定位文件失败: ", detail.as_str()),
                ),
                _ => Step::Reply(response),
            },
        }
    }
}

} // verus!
