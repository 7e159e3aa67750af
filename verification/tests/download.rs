use fastfile::download::{
    direct_file, respond, DownloadAction, DownloadEvent, DownloadStep, FileResponse,
};
use fastfile::error::{AppError, INTERNAL_SERVER_ERROR, NOT_FOUND, RANGE_NOT_SATISFIABLE};
use fastfile::headers::RequestHeaders;
use fastfile::range::parse_range_header;
use fastfile::step::Step;

fn headers(range: Option<&str>) -> RequestHeaders<Vec<u8>> {
    RequestHeaders {
        authorization: None,
        cookie: None,
        range: range.map(|r| r.as_bytes().to_vec()),
        upload_id: None,
        start_byte: None,
        chunk_sha256: None,
    }
}

fn refused(message: &str) -> Result<Option<(u64, u64)>, AppError> {
    Err(AppError { status: RANGE_NOT_SATISFIABLE, message: message.to_string() })
}

/// The stored file that the requests below ask for.
const CONTENT: &[u8] = b"0123456789";

/// Works the request off; the answer comes with the bytes that it sends.
fn work_off(mut step: DownloadStep) -> Result<(FileResponse<String>, Vec<u8>), AppError> {
    let mut at = 0;
    loop {
        let (state, action) = match step {
            Step::Ask(state, action) => (state, action),
            Step::Reply(reply) => {
                let end = at + reply.length as usize;
                return Ok((reply, CONTENT[at..end].to_vec()));
            }
            Step::Refuse(error) => return Err(error),
        };
        let missing = || DownloadEvent::Failed { detail: "none".to_string() };
        let event = match action {
            DownloadAction::OpenStore => DownloadEvent::Done,
            DownloadAction::FindFile { file_id } if file_id == "gone" => missing(),
            DownloadAction::FindFile { .. } => DownloadEvent::File {
                file_name: Some("a\"b.txt".to_string()),
                mime_type: Some("text/plain".to_string()),
            },
            DownloadAction::OpenFile { file_id } if file_id == "lost" => missing(),
            DownloadAction::OpenFile { .. } => DownloadEvent::Done,
            DownloadAction::ReadSize => DownloadEvent::Size(CONTENT.len() as u64),
            DownloadAction::Seek { start } => {
                at = start as usize;
                DownloadEvent::Done
            }
        };
        assert!(state.accepts(&event));
        step = state.next(event);
    }
}

#[test]
fn ranges_that_are_granted() {
    for (header, range) in [
        ("bytes=0-4", (0, 4)),
        ("  bytes=2-2 ", (2, 2)),
        ("bytes=3-", (3, 9)),
        ("bytes=3-100", (3, 9)),
        ("bytes=-4", (6, 9)),
        ("bytes=-100", (0, 9)),
        ("bytes=+1-+2", (1, 2)),
    ] {
        assert_eq!(parse_range_header(header, 10), Ok(Some(range)), "{header}");
    }
}

#[test]
fn headers_that_ask_for_the_whole_file() {
    for header in ["", "items=0-4", "bytes 0-4", "Bytes=0-4"] {
        assert_eq!(parse_range_header(header, 10), Ok(None), "{header}");
    }
    assert_eq!(parse_range_header("bytes=0-4", 0), Ok(None));
    assert_eq!(parse_range_header("bytes=nonsense", 0), Ok(None));
}

#[test]
fn ranges_that_are_refused() {
    assert_eq!(parse_range_header("bytes=0-1,3-4", 10), refused("暂不支持多段下载"));
    for header in ["bytes=", "bytes=5", "bytes=a-", "bytes=1-b", "bytes=-", "bytes=-x"] {
        assert_eq!(parse_range_header(header, 10), refused("Range 格式错误"), "{header}");
    }
    for header in ["bytes=-0", "bytes=10-", "bytes=5-4", "bytes=10-20"] {
        assert_eq!(parse_range_header(header, 10), refused("Range 超出范围"), "{header}");
    }
}

#[test]
fn whole_file_is_served() {
    let step = direct_file("id".to_string(), &headers(None), &None);
    let (reply, sent) = work_off(step).unwrap();
    assert_eq!(
        reply,
        FileResponse {
            status: 200,
            start: 0,
            length: 10,
            content_type: "text/plain".to_string(),
            accept_ranges: "bytes".to_string(),
            content_length: "10".to_string(),
            content_range: None,
            content_disposition: None,
        }
    );
    assert_eq!(sent, CONTENT);
}

#[test]
fn part_of_a_file_is_served() {
    let download = Some("1".to_string());
    let step = direct_file("id".to_string(), &headers(Some("bytes=3-5")), &download);
    let (reply, sent) = work_off(step).unwrap();
    assert_eq!(
        reply,
        FileResponse {
            status: 206,
            start: 3,
            length: 3,
            content_type: "text/plain".to_string(),
            accept_ranges: "bytes".to_string(),
            content_length: "3".to_string(),
            content_range: Some("bytes 3-5/10".to_string()),
            content_disposition: Some("attachment; filename=\"ab.txt\"".to_string()),
        }
    );
    assert_eq!(sent, b"345");
}

#[test]
fn file_is_saved_only_on_demand() {
    for (download, save) in [(None, false), (Some("0"), false), (Some(""), false), (Some("1"), true)]
    {
        let download = download.map(str::to_string);
        let (reply, _) = work_off(direct_file("id".to_string(), &headers(None), &download)).unwrap();
        assert_eq!(reply.content_disposition.is_some(), save);
    }
}

#[test]
fn missing_file_is_not_found() {
    for id in ["gone", "lost"] {
        let error = work_off(direct_file(id.to_string(), &headers(None), &None)).unwrap_err();
        assert_eq!(
            error,
            AppError { status: NOT_FOUND, message: "文件不存在".to_string() }
        );
    }
}

#[test]
fn refused_range_reaches_the_client() {
    let step = direct_file("id".to_string(), &headers(Some("bytes=99-")), &None);
    let error = work_off(step).unwrap_err();
    assert_eq!(
        error,
        AppError { status: RANGE_NOT_SATISFIABLE, message: "Range 超出范围".to_string() }
    );
}

#[test]
fn values_that_no_header_can_hold_are_replaced() {
    let reply = respond(None, true, "a\nb", "text/\u{1}".to_string(), 5);
    assert_eq!(reply.content_type, "application/octet-stream");
    assert_eq!(reply.content_disposition.as_deref(), Some("attachment"));
    let reply = respond(None, true, "文件.txt", "text/plain".to_string(), 0);
    assert_eq!(reply.content_type, "text/plain");
    assert_eq!(reply.content_disposition.as_deref(), Some("attachment; filename=\"文件.txt\""));
    assert_eq!((reply.length, reply.content_length.as_str()), (0, "0"));
}

#[test]
fn empty_file_is_served_without_seeking() {
    let Step::Ask(state, _) = direct_file("id".to_string(), &headers(Some("bytes=0-")), &None)
    else {
        panic!()
    };
    let Step::Ask(state, _) = state.next(DownloadEvent::Done) else { panic!() };
    let found = DownloadEvent::File { file_name: None, mime_type: None };
    let Step::Ask(state, _) = state.next(found) else { panic!() };
    let Step::Ask(state, _) = state.next(DownloadEvent::Done) else { panic!() };
    let Step::Reply(reply) = state.next(DownloadEvent::Size(0)) else { panic!() };
    assert_eq!((reply.status, reply.length), (200, 0));
    assert_eq!(reply.content_type, "application/octet-stream");
}

#[test]
fn failures_of_a_download_are_told() {
    let fail = || DownloadEvent::Failed { detail: "disk".to_string() };
    let told = |step: DownloadStep, message: &str| {
        assert_eq!(
            step,
            Step::Refuse(AppError {
                status: INTERNAL_SERVER_ERROR,
                message: message.to_string(),
            })
        );
    };
    let begin = || {
        let Step::Ask(state, _) = direct_file("id".to_string(), &headers(None), &None) else {
            panic!()
        };
        state
    };
    told(begin().next(fail()), "数据库打开失败: disk");
    let Step::Ask(state, _) = begin().next(DownloadEvent::Done) else { panic!() };
    told(
        state.next(DownloadEvent::Unprepared { detail: "sql".to_string() }),
        "查询失败: sql",
    );
    let measure = || {
        let Step::Ask(state, _) = begin().next(DownloadEvent::Done) else { panic!() };
        let found = DownloadEvent::File { file_name: None, mime_type: None };
        let Step::Ask(state, _) = state.next(found) else { panic!() };
        let Step::Ask(state, _) = state.next(DownloadEvent::Done) else { panic!() };
        state
    };
    told(measure().next(fail()), "读取文件信息失败: disk");
    let Step::Ask(state, _) = measure().next(DownloadEvent::Size(5)) else { panic!() };
    told(state.next(fail()), "定位文件失败: disk");
}
