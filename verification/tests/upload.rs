use std::collections::BTreeMap;

use fastfile::error::{AppError, BAD_REQUEST, CONFLICT, INTERNAL_SERVER_ERROR, NOT_FOUND};
use fastfile::headers::RequestHeaders;
use fastfile::message::{MessageDto, MessageRow};
use fastfile::parts::{can_total, contiguous_end, total_uploaded_bytes, UploadedPart};
use fastfile::stamp::sha256_hex;
use fastfile::step::Step;
use fastfile::upload::{SessionRow, StoreAction, StoreEvent, UploadAction, UploadEvent};
use fastfile::upload_cancel::{cancel_upload, UploadCancelResponse};
use fastfile::upload_chunk::{can_place, upload_chunk, ChunkStep, UploadChunkResponse};
use fastfile::upload_complete::{complete_upload, complete_upload_as, CompleteStep};
use fastfile::upload_init::{
    init_upload, init_upload_as, InitStep, UploadInitRequest, UploadInitResponse,
};

const NOW: &str = "2026-01-02T03:04:05Z";

/// The uploads, temporary files, stored files and messages, in memory.
#[derive(Default)]
struct Memory {
    sessions: BTreeMap<String, (String, SessionRow<String>)>,
    parts: BTreeMap<String, BTreeMap<i64, UploadedPart<String>>>,
    temps: BTreeMap<String, Vec<u8>>,
    files: BTreeMap<String, Vec<u8>>,
    rows: Vec<MessageRow<String>>,
    /// Renaming a file fails.
    other_disk: bool,
}

fn none<T>() -> Result<T, String> {
    Err("none".to_string())
}

fn session(row: &SessionRow<String>) -> SessionRow<String> {
    SessionRow {
        upload_id: row.upload_id.clone(),
        file_name: row.file_name.clone(),
        file_size: row.file_size,
        mime_type: row.mime_type.clone(),
        received_bytes: row.received_bytes,
        temp_path: row.temp_path.clone(),
        status: row.status.clone(),
    }
}

fn part(start_byte: i64, end_byte: i64, checksum: &str) -> UploadedPart<String> {
    UploadedPart { start_byte, end_byte, checksum: checksum.to_string() }
}

impl Memory {
    fn perform(&mut self, action: StoreAction) -> StoreEvent {
        match self.try_perform(action) {
            Ok(event) => event,
            Err(detail) => UploadEvent::Failed { detail },
        }
    }

    fn try_perform(&mut self, action: StoreAction) -> Result<StoreEvent, String> {
        Ok(match action {
            UploadAction::OpenStore => UploadEvent::Done,
            UploadAction::FindSessionByKey { file_key } => {
                match self.sessions.values().find(|(key, _)| *key == file_key) {
                    Some((_, row)) => UploadEvent::Session(session(row)),
                    None => return none(),
                }
            }
            UploadAction::FindSession { upload_id } => match self.sessions.get(&upload_id) {
                Some((_, row)) => UploadEvent::Session(session(row)),
                None => return none(),
            },
            UploadAction::LoadParts { upload_id } => UploadEvent::Parts(self.parts_of(&upload_id)),
            UploadAction::FindPart { upload_id, start_byte } => {
                match self.parts.get(&upload_id).and_then(|parts| parts.get(&start_byte)) {
                    Some(p) => UploadEvent::Part(part(p.start_byte, p.end_byte, &p.checksum)),
                    None => return none(),
                }
            }
            UploadAction::CountOverlaps { upload_id, start_byte, end_byte } => {
                let parts = self.parts_of(&upload_id);
                let shared = |p: &&UploadedPart<String>| {
                    p.start_byte < end_byte && p.end_byte > start_byte
                };
                UploadEvent::Count(parts.iter().filter(shared).count() as i64)
            }
            UploadAction::InsertSession {
                upload_id,
                file_key,
                file_name,
                file_size,
                mime_type,
                temp_path,
                at,
            } => {
                assert_eq!(at, NOW);
                let row = SessionRow {
                    upload_id: upload_id.clone(),
                    file_name,
                    file_size,
                    mime_type,
                    received_bytes: 0,
                    temp_path,
                    status: "uploading".to_string(),
                };
                self.sessions.insert(upload_id, (file_key, row));
                UploadEvent::Done
            }
            UploadAction::SetReceived { upload_id, received_bytes, .. } => {
                self.sessions.get_mut(&upload_id).unwrap().1.received_bytes = received_bytes;
                UploadEvent::Done
            }
            UploadAction::InsertPart { upload_id, part, chunk_size, .. } => {
                assert_eq!(chunk_size, part.end_byte - part.start_byte);
                self.parts.entry(upload_id).or_default().insert(part.start_byte, part);
                UploadEvent::Done
            }
            UploadAction::DeleteSession { upload_id } => {
                self.sessions.remove(&upload_id);
                UploadEvent::Done
            }
            UploadAction::DeleteParts { upload_id } => {
                self.parts.remove(&upload_id);
                UploadEvent::Done
            }
            UploadAction::CreateTemp { file_name } => {
                let temp_path = format!("/tmp/{file_name}");
                self.temps.insert(temp_path.clone(), Vec::new());
                UploadEvent::Created { temp_path }
            }
            UploadAction::WriteTemp { temp_path, start_byte, data } => {
                let file = self.temps.entry(temp_path).or_default();
                let start = start_byte as usize;
                if file.len() < start + data.len() {
                    file.resize(start + data.len(), 0);
                }
                file[start..start + data.len()].copy_from_slice(&data);
                UploadEvent::Done
            }
            UploadAction::RemoveTemp { temp_path } => match self.temps.remove(&temp_path) {
                Some(_) => UploadEvent::Done,
                None => return none(),
            },
            UploadAction::RenameTemp { temp_path, file_id } => {
                if self.other_disk {
                    return Err("cross-device".to_string());
                }
                let content = self.temps.remove(&temp_path).ok_or("missing")?;
                self.files.insert(file_id, content);
                UploadEvent::Done
            }
            UploadAction::CopyTemp { temp_path, file_id } => {
                let content = self.temps.get(&temp_path).ok_or("missing")?.clone();
                self.files.insert(file_id, content);
                UploadEvent::Done
            }
            UploadAction::InsertFile { file_id, file_name, file_size, mime_type, at } => {
                let id = self.rows.len() as i64 + 1;
                self.rows.push(MessageRow {
                    id,
                    kind: "file".to_string(),
                    text_content: None,
                    file_id: Some(file_id),
                    file_name: Some(file_name),
                    file_size: Some(file_size),
                    mime_type: Some(mime_type),
                    created_at: at,
                });
                UploadEvent::Inserted { id }
            }
            UploadAction::FindMessage { id } => {
                let row = &self.rows[id as usize - 1];
                UploadEvent::Message(MessageRow {
                    id: row.id,
                    kind: row.kind.clone(),
                    text_content: None,
                    file_id: row.file_id.clone(),
                    file_name: row.file_name.clone(),
                    file_size: row.file_size,
                    mime_type: row.mime_type.clone(),
                    created_at: row.created_at.clone(),
                })
            }
        })
    }

    fn parts_of(&self, upload_id: &str) -> Vec<UploadedPart<String>> {
        match self.parts.get(upload_id) {
            Some(parts) => {
                parts.values().map(|p| part(p.start_byte, p.end_byte, &p.checksum)).collect()
            }
            None => Vec::new(),
        }
    }

    fn init(
        &mut self,
        mut step: InitStep,
    ) -> Result<UploadInitResponse<String, Vec<UploadedPart<String>>>, AppError> {
        loop {
            step = match step {
                Step::Ask(state, action) => {
                    let event = self.perform(action);
                    assert!(state.accepts(&event));
                    state.next(event, NOW)
                }
                Step::Reply(reply) => return Ok(reply),
                Step::Refuse(error) => return Err(error),
            }
        }
    }

    fn chunk(&mut self, mut step: ChunkStep) -> Result<UploadChunkResponse<String>, AppError> {
        loop {
            step = match step {
                Step::Ask(state, action) => {
                    let event = self.perform(action);
                    assert!(state.accepts(&event));
                    state.next(event, NOW)
                }
                Step::Reply(reply) => return Ok(reply),
                Step::Refuse(error) => return Err(error),
            }
        }
    }

    /// Like `chunk`, but broken off after `actions` actions.
    fn chunk_broken_off(&mut self, mut step: ChunkStep, actions: usize) {
        for _ in 0..actions {
            step = match step {
                Step::Ask(state, action) => {
                    let event = self.perform(action);
                    state.next(event, NOW)
                }
                ended => ended,
            }
        }
    }

    fn complete(&mut self, mut step: CompleteStep) -> Result<MessageDto<String>, AppError> {
        loop {
            step = match step {
                Step::Ask(state, action) => {
                    let event = self.perform(action);
                    assert!(state.accepts(&event));
                    state.next(event, NOW)
                }
                Step::Reply(reply) => return Ok(reply),
                Step::Refuse(error) => return Err(error),
            }
        }
    }

    fn cancel(&mut self, upload_id: &str) -> Result<UploadCancelResponse, AppError> {
        let mut step = cancel_upload(upload_id.to_string());
        loop {
            step = match step {
                Step::Ask(state, action) => {
                    let event = self.perform(action);
                    assert!(state.accepts(&event));
                    state.next(event)
                }
                Step::Reply(reply) => return Ok(reply),
                Step::Refuse(error) => return Err(error),
            }
        }
    }

    fn send(
        &mut self,
        upload_id: &str,
        start: &str,
        checksum: &str,
        data: &[u8],
    ) -> Result<UploadChunkResponse<String>, AppError> {
        let headers = headers(Some(upload_id), Some(start), Some(checksum));
        assert!(can_place(&headers, data.len()));
        self.chunk(upload_chunk(&headers, data.to_vec()))
    }

    fn send_ok(&mut self, upload_id: &str, start: i64, data: &[u8]) -> i64 {
        let reply = self.send(upload_id, &start.to_string(), &sha256_hex(data), data).unwrap();
        reply.received_bytes
    }
}

fn headers(
    upload_id: Option<&str>,
    start_byte: Option<&str>,
    chunk_sha256: Option<&str>,
) -> RequestHeaders<Vec<u8>> {
    let bytes = |value: Option<&str>| value.map(|v| v.as_bytes().to_vec());
    RequestHeaders {
        authorization: None,
        cookie: None,
        range: None,
        upload_id: bytes(upload_id),
        start_byte: bytes(start_byte),
        chunk_sha256: bytes(chunk_sha256),
    }
}

fn request(file_key: &str, file_name: &str, file_size: i64) -> UploadInitRequest<String> {
    UploadInitRequest {
        file_key: file_key.to_string(),
        file_name: file_name.to_string(),
        file_size,
        mime_type: Some("video/mp4".to_string()),
    }
}

fn begun(memory: &mut Memory, file_size: i64) {
    let step = init_upload_as(request("key", "a.mp4", file_size), "up".to_string());
    memory.init(step).unwrap();
}

fn error(status: u16, message: &str) -> AppError {
    AppError { status, message: message.to_string() }
}

#[test]
fn new_upload_has_received_nothing() {
    let mut memory = Memory::default();
    let step = init_upload_as(request("key", "a.mp4", 10), "up".to_string());
    assert_eq!(
        memory.init(step),
        Ok(UploadInitResponse {
            upload_id: "up".to_string(),
            chunk_size: 4 * 1024 * 1024,
            parallel_limit: 4,
            received_bytes: 0,
            total_bytes: 10,
            completed_parts: Vec::new(),
            done: false,
        })
    );
    assert_eq!(memory.temps["/tmp/up.part"], b"");
    let reply = memory.init(init_upload(request("other", "b", 1))).unwrap();
    assert_eq!(reply.upload_id.len(), 48);
}

#[test]
fn requests_to_begin_that_are_refused() {
    for (bad, message) in [
        (request(" \t", "a", 1), "file_key 不能为空"),
        (request("k", "\u{3000}", 1), "file_name 不能为空"),
        (request("k", "a", 0), "file_size 必须大于 0"),
        (request("k", "a", -5), "file_size 必须大于 0"),
    ] {
        let step = init_upload_as(bad, "up".to_string());
        assert_eq!(step, Step::Refuse(error(BAD_REQUEST, message)));
    }
}

#[test]
fn parts_in_any_order_make_the_file() {
    let mut memory = Memory::default();
    begun(&mut memory, 10);
    assert_eq!(memory.send_ok("up", 7, b"hij"), 3);
    assert_eq!(memory.send_ok("up", 0, b"abcd"), 7);
    let last = memory.send("up", "4", &sha256_hex(b"efg"), b"efg").unwrap();
    assert_eq!(
        last,
        UploadChunkResponse {
            upload_id: "up".to_string(),
            received_bytes: 10,
            total_bytes: 10,
            done: true,
        }
    );
    let dto =
        memory.complete(complete_upload_as("up".to_string(), "file1".to_string())).unwrap();
    assert_eq!(memory.files["file1"], b"abcdefghij");
    assert_eq!(dto.file_name.as_deref(), Some("a.mp4"));
    assert_eq!(dto.file_size, Some(10));
    assert_eq!(dto.mime_type.as_deref(), Some("video/mp4"));
    assert_eq!(dto.file_url.as_deref(), Some("/f/file1/a.mp4"));
    assert_eq!(dto.created_at, NOW);
    assert!(memory.sessions.is_empty() && memory.parts.is_empty() && memory.temps.is_empty());
    let again = memory.complete(complete_upload("up".to_string())).unwrap_err();
    assert_eq!(again, error(NOT_FOUND, "上传会话不存在"));
}

#[test]
fn file_is_copied_where_it_cannot_be_renamed() {
    let mut memory = Memory { other_disk: true, ..Memory::default() };
    begun(&mut memory, 3);
    memory.send_ok("up", 0, b"abc");
    let dto = memory.complete(complete_upload("up".to_string())).unwrap();
    assert_eq!(memory.files[&dto.file_id.unwrap()], b"abc");
    assert!(memory.temps.is_empty());
}

#[test]
fn file_that_is_neither_renamed_nor_copied() {
    let mut memory = Memory { other_disk: true, ..Memory::default() };
    begun(&mut memory, 3);
    memory.send_ok("up", 0, b"abc");
    memory.temps.clear();
    let refused = memory.complete(complete_upload("up".to_string())).unwrap_err();
    assert_eq!(
        refused,
        error(
            INTERNAL_SERVER_ERROR,
            "搬运文件失败: cross-device; copy fallback failed: missing"
        )
    );
    assert!(memory.rows.is_empty());
}

#[test]
fn upload_is_taken_up_again() {
    let mut memory = Memory::default();
    begun(&mut memory, 10);
    memory.send_ok("up", 4, b"efg");
    let step = init_upload_as(request("key", "a.mp4", 10), "new".to_string());
    let reply = memory.init(step).unwrap();
    assert_eq!(reply.upload_id, "up");
    assert_eq!(reply.received_bytes, 3);
    assert_eq!(reply.completed_parts, vec![part(4, 7, &sha256_hex(b"efg"))]);
    assert!(!reply.done);
    memory.send_ok("up", 0, b"abcd");
    memory.send_ok("up", 7, b"hij");
    let step = init_upload_as(request("key", "a.mp4", 10), "new".to_string());
    assert!(memory.init(step).unwrap().done);
}

#[test]
fn upload_of_another_file_gives_way() {
    let mut memory = Memory::default();
    begun(&mut memory, 10);
    memory.send_ok("up", 0, b"abcd");
    let step = init_upload_as(request("key", "a.mp4", 11), "new".to_string());
    let reply = memory.init(step).unwrap();
    assert_eq!((reply.upload_id.as_str(), reply.received_bytes), ("new", 0));
    assert_eq!(memory.sessions.keys().collect::<Vec<_>>(), vec!["new"]);
    assert_eq!(memory.temps.keys().collect::<Vec<_>>(), vec!["/tmp/new.part"]);
    assert!(memory.parts.is_empty());
}

#[test]
fn broken_off_part_does_no_harm() {
    for actions in 0..10 {
        let mut memory = Memory::default();
        begun(&mut memory, 6);
        memory.send_ok("up", 0, b"abc");
        let sent = headers(Some("up"), Some("3"), Some(&sha256_hex(b"def")));
        memory.chunk_broken_off(upload_chunk(&sent, b"def".to_vec()), actions);
        let step = init_upload_as(request("key", "a.mp4", 6), "new".to_string());
        let reply = memory.init(step).unwrap();
        assert_eq!(reply.upload_id, "up");
        assert_eq!(reply.completed_parts[0], part(0, 3, &sha256_hex(b"abc")));
        assert_eq!(reply.done, reply.completed_parts.len() == 2);
        assert_eq!(memory.send_ok("up", 3, b"def"), 6);
        memory.complete(complete_upload_as("up".to_string(), "f".to_string())).unwrap();
        assert_eq!(memory.files["f"], b"abcdef");
    }
}

/// Two uploads of which the first was received whole, and the second in part.
fn two_uploads() -> Memory {
    let mut memory = Memory::default();
    memory.init(init_upload_as(request("one", "a.mp4", 4), "u1".to_string())).unwrap();
    memory.init(init_upload_as(request("two", "a.mp4", 4), "u2".to_string())).unwrap();
    memory.send_ok("u1", 0, b"wxyz");
    memory.send_ok("u2", 2, b"cd");
    memory
}

/// The second of the two uploads goes on as if nothing had happened.
fn second_goes_on(memory: &mut Memory) {
    let step = init_upload_as(request("two", "a.mp4", 4), "new".to_string());
    let reply = memory.init(step).unwrap();
    assert_eq!((reply.upload_id.as_str(), reply.received_bytes), ("u2", 2));
    assert_eq!(memory.send_ok("u2", 0, b"ab"), 4);
    memory.complete(complete_upload_as("u2".to_string(), "second".to_string())).unwrap();
    assert_eq!(memory.files["second"], b"abcd");
}

#[test]
fn broken_off_beginning_does_no_harm() {
    for actions in 0..10 {
        let mut memory = two_uploads();
        let mut step = init_upload_as(request("one", "b.mp4", 9), "u3".to_string());
        for _ in 0..actions {
            step = match step {
                Step::Ask(state, action) => state.next(memory.perform(action), NOW),
                ended => ended,
            }
        }
        second_goes_on(&mut memory);
    }
}

#[test]
fn broken_off_completion_does_no_harm() {
    for actions in 0..10 {
        let mut memory = two_uploads();
        let mut step = complete_upload_as("u1".to_string(), "first".to_string());
        for _ in 0..actions {
            step = match step {
                Step::Ask(state, action) => state.next(memory.perform(action), NOW),
                ended => ended,
            }
        }
        for row in &memory.rows {
            assert_eq!(memory.files[row.file_id.as_ref().unwrap()], b"wxyz");
        }
        second_goes_on(&mut memory);
        if memory.sessions.contains_key("u1") && memory.temps.is_empty() {
            let refused = memory.complete(complete_upload("u1".to_string())).unwrap_err();
            assert_eq!(
                refused,
                error(
                    INTERNAL_SERVER_ERROR,
                    "搬运文件失败: missing; copy fallback failed: missing"
                )
            );
        }
    }
}

#[test]
fn broken_off_cancellation_does_no_harm() {
    for actions in 0..6 {
        let mut memory = two_uploads();
        let mut step = cancel_upload("u1".to_string());
        for _ in 0..actions {
            step = match step {
                Step::Ask(state, action) => state.next(memory.perform(action)),
                ended => ended,
            }
        }
        second_goes_on(&mut memory);
    }
}

#[test]
fn parts_brought_at_the_same_time() {
    // Bit `n` of the schedule says which of the two requests has the turn `n`.
    for schedule in 0u32..1 << 12 {
        let mut memory = Memory::default();
        begun(&mut memory, 6);
        let first = headers(Some("up"), Some("0"), Some(&sha256_hex(b"abc")));
        let second = headers(Some("up"), Some("3"), Some(&sha256_hex(b"def")));
        let mut steps = [
            upload_chunk(&second, b"def".to_vec()),
            upload_chunk(&first, b"abc".to_vec()),
        ];
        let turns = (0..12).map(|n| (schedule >> n) as usize & 1).chain([0, 1].repeat(10));
        for turn in turns {
            let step = std::mem::replace(
                &mut steps[turn],
                Step::Refuse(error(INTERNAL_SERVER_ERROR, "taken")),
            );
            steps[turn] = match step {
                Step::Ask(state, action) => {
                    let event = memory.perform(action);
                    assert!(state.accepts(&event));
                    state.next(event, NOW)
                }
                ended => ended,
            };
        }
        assert!(steps.iter().all(|step| matches!(step, Step::Reply(_))));
        let step = init_upload_as(request("key", "a.mp4", 6), "new".to_string());
        assert!(memory.init(step).unwrap().done);
        memory.complete(complete_upload_as("up".to_string(), "f".to_string())).unwrap();
        assert_eq!(memory.files["f"], b"abcdef");
    }
}

#[test]
fn part_that_is_sent_again_changes_nothing() {
    let mut memory = Memory::default();
    begun(&mut memory, 10);
    let first = memory.send("up", "0", &sha256_hex(b"abc"), b"abc").unwrap();
    let again = memory.send("up", "0", &sha256_hex(b"abc"), b"abc").unwrap();
    assert_eq!(first, again);
    assert_eq!(memory.parts_of("up").len(), 1);
}

#[test]
fn parts_that_are_refused() {
    let mut memory = Memory::default();
    begun(&mut memory, 10);
    memory.send_ok("up", 2, b"cde");
    let sum = sha256_hex(b"xyz");
    for (id, start, checksum, data, refused) in [
        ("no", "0", sum.as_str(), b"xyz" as &[u8], error(NOT_FOUND, "上传会话不存在")),
        ("up", "8", sum.as_str(), b"xyz", error(BAD_REQUEST, "分片超出文件总大小")),
        ("up", "2", sum.as_str(), b"xyz", error(CONFLICT, "分片校验不匹配")),
        ("up", "2", sum.as_str(), b"xy", error(CONFLICT, "分片校验不匹配")),
        ("up", "1", sum.as_str(), b"xyz", error(CONFLICT, "分片范围与已有数据重叠")),
        ("up", "4", sum.as_str(), b"xyz", error(CONFLICT, "分片范围与已有数据重叠")),
        ("up", "5", "00", b"xyz", error(BAD_REQUEST, "分片校验失败")),
        ("up", "5", &sum.to_uppercase(), b"xyz", error(BAD_REQUEST, "分片校验失败")),
    ] {
        assert_eq!(memory.send(id, start, checksum, data), Err(refused));
    }
    assert_eq!(memory.temps["/tmp/up.part"], b"\0\0cde");
    memory.sessions.get_mut("up").unwrap().1.status = "done".to_string();
    assert_eq!(
        memory.send("up", "5", &sum, b"xyz"),
        Err(error(CONFLICT, "上传会话不可用"))
    );
    assert_eq!(
        memory.complete(complete_upload("up".to_string())),
        Err(error(CONFLICT, "上传会话不可完成"))
    );
}

#[test]
fn headers_of_a_part_that_are_refused() {
    let bad = |headers: RequestHeaders<Vec<u8>>, body: &[u8], message: &str| {
        assert!(can_place(&headers, body.len()));
        assert_eq!(
            upload_chunk(&headers, body.to_vec()),
            Step::Refuse(error(BAD_REQUEST, message))
        );
    };
    bad(headers(None, Some("0"), Some("x")), b"a", "缺少 x-upload-id");
    bad(headers(Some("é"), Some("0"), Some("x")), b"a", "缺少 x-upload-id");
    bad(headers(Some("up"), None, Some("x")), b"a", "缺少 x-start-byte");
    bad(headers(Some("up"), Some("1.5"), Some("x")), b"a", "缺少 x-start-byte");
    bad(headers(Some("up"), Some("0"), None), b"a", "缺少 x-chunk-sha256");
    bad(headers(Some("up"), Some("-1"), Some("x")), b"a", "分片范围无效");
    bad(headers(Some("up"), Some("0"), Some("x")), b"", "分片范围无效");
    let far = headers(Some("up"), Some("9223372036854775807"), Some("x"));
    assert!(!can_place(&far, 1));
    assert!(can_place(&far, 0));
}

#[test]
fn unfinished_upload_cannot_be_completed() {
    let mut memory = Memory::default();
    begun(&mut memory, 10);
    memory.send_ok("up", 0, b"abcd");
    assert_eq!(
        memory.complete(complete_upload("up".to_string())),
        Err(error(CONFLICT, "文件尚未上传完成，已上传 4/10"))
    );
    memory.sessions.get_mut("up").unwrap().1.received_bytes = 10;
    assert_eq!(
        memory.complete(complete_upload("up".to_string())),
        Err(error(CONFLICT, "文件分片尚未完整上传"))
    );
    memory.send_ok("up", 6, b"ghij");
    memory.sessions.get_mut("up").unwrap().1.received_bytes = 10;
    assert_eq!(
        memory.complete(complete_upload("up".to_string())),
        Err(error(CONFLICT, "文件分片不完整，无法合并"))
    );
    assert!(memory.files.is_empty() && memory.rows.is_empty());
}

#[test]
fn cancelled_upload_is_gone() {
    let mut memory = Memory::default();
    begun(&mut memory, 10);
    memory.send_ok("up", 0, b"abcd");
    assert_eq!(memory.cancel("up"), Ok(UploadCancelResponse { cancelled: true }));
    assert!(memory.sessions.is_empty() && memory.parts.is_empty() && memory.temps.is_empty());
    assert_eq!(memory.cancel("up"), Ok(UploadCancelResponse { cancelled: false }));
    assert_eq!(
        memory.send("up", "4", &sha256_hex(b"e"), b"e"),
        Err(error(NOT_FOUND, "上传会话不存在"))
    );
}

#[test]
fn uploads_leave_each_other_alone() {
    let mut memory = Memory::default();
    for (key, id) in [("one", "u1"), ("two", "u2"), ("three", "u3")] {
        memory.init(init_upload_as(request(key, "a.mp4", 4), id.to_string())).unwrap();
        memory.send_ok(id, 2, b"cd");
    }
    memory.cancel("u1").unwrap();
    memory.init(init_upload_as(request("two", "b.mp4", 4), "u4".to_string())).unwrap();
    memory.send_ok("u4", 0, b"xxxx");
    memory.complete(complete_upload_as("u4".to_string(), "x".to_string())).unwrap();
    assert_eq!(memory.send_ok("u3", 0, b"ab"), 4);
    memory.complete(complete_upload_as("u3".to_string(), "f".to_string())).unwrap();
    assert_eq!(memory.files["f"], b"abcd");
    assert_eq!(memory.files["x"], b"xxxx");
    let ids: Vec<i64> = memory.rows.iter().map(|row| row.id).collect();
    assert_eq!(ids, vec![1, 2]);
}

#[test]
fn bytes_of_parts_are_summed() {
    assert_eq!(total_uploaded_bytes(&[]), 0);
    assert_eq!(total_uploaded_bytes(&[part(0, 4, ""), part(10, 11, "")]), 5);
    assert!(can_total(&[part(0, i64::MAX, "")]));
    assert!(!can_total(&[part(0, i64::MAX, ""), part(0, 1, "")]));
    assert!(!can_total(&[part(-1, i64::MAX, "")]));
}

#[test]
fn gaps_between_parts_are_seen() {
    assert_eq!(contiguous_end(&[]), Some(0));
    assert_eq!(contiguous_end(&[part(0, 4, ""), part(4, 9, "")]), Some(9));
    assert_eq!(contiguous_end(&[part(0, 4, ""), part(5, 9, "")]), None);
    assert_eq!(contiguous_end(&[part(1, 4, "")]), None);
}

#[test]
fn failures_of_a_part_are_told() {
    let sent = headers(Some("up"), Some("0"), Some(&sha256_hex(b"abc")));
    let row = || {
        UploadEvent::Session(SessionRow {
            upload_id: "up".to_string(),
            file_name: "a".to_string(),
            file_size: 10,
            mime_type: None,
            received_bytes: 0,
            temp_path: "/tmp/up.part".to_string(),
            status: "uploading".to_string(),
        })
    };
    let fail = || UploadEvent::Failed { detail: "d".to_string() };
    let detail = || "d".to_string();
    let after = |events: Vec<StoreEvent>| {
        let mut step = upload_chunk(&sent, b"abc".to_vec());
        for event in events {
            let Step::Ask(state, _) = step else { panic!() };
            assert!(state.accepts(&event));
            step = state.next(event, NOW);
        }
        step
    };
    let told = |events: Vec<StoreEvent>, message: &str| {
        assert_eq!(after(events), Step::Refuse(error(INTERNAL_SERVER_ERROR, message)));
    };
    let found = || vec![UploadEvent::Done, row(), fail()];
    let counted = || {
        let mut events = found();
        events.push(UploadEvent::Count(0));
        events
    };
    let with = |mut events: Vec<StoreEvent>, more: Vec<StoreEvent>| {
        events.extend(more);
        events
    };
    told(vec![fail()], "数据库打开失败: d");
    told(with(found(), vec![fail()]), "查询分片冲突失败: d");
    told(with(counted(), vec![UploadEvent::Unopened { detail: detail() }]), "打开临时文件失败: d");
    told(with(counted(), vec![UploadEvent::Unplaced { detail: detail() }]), "定位临时文件失败: d");
    told(with(counted(), vec![fail()]), "写入分片失败: d");
    told(with(counted(), vec![UploadEvent::Done, fail()]), "记录分片失败: d");
    let recorded = || with(counted(), vec![UploadEvent::Done, UploadEvent::Done]);
    told(with(recorded(), vec![UploadEvent::Unprepared { detail: detail() }]), "查询分片失败: d");
    told(with(recorded(), vec![fail()]), "读取分片失败: d");
    let parts = UploadEvent::Parts(vec![part(0, 3, "x")]);
    told(with(recorded(), vec![parts, fail()]), "更新上传进度失败: d");
}

#[test]
fn failures_of_a_beginning_are_told() {
    let row = |file_size: i64| {
        UploadEvent::Session(SessionRow {
            upload_id: "old".to_string(),
            file_name: "a.mp4".to_string(),
            file_size,
            mime_type: None,
            received_bytes: 0,
            temp_path: "/tmp/old.part".to_string(),
            status: "uploading".to_string(),
        })
    };
    let fail = || UploadEvent::Failed { detail: "d".to_string() };
    let told = |events: Vec<StoreEvent>, message: &str| {
        let mut step = init_upload_as(request("key", "a.mp4", 10), "up".to_string());
        for event in events {
            let Step::Ask(state, _) = step else { panic!() };
            assert!(state.accepts(&event));
            step = state.next(event, NOW);
        }
        assert_eq!(step, Step::Refuse(error(INTERNAL_SERVER_ERROR, message)));
    };
    told(vec![fail()], "数据库打开失败: d");
    told(
        vec![UploadEvent::Done, row(10), UploadEvent::Unprepared { detail: "d".to_string() }],
        "查询分片失败: d",
    );
    told(vec![UploadEvent::Done, row(10), fail()], "读取分片失败: d");
    told(
        vec![UploadEvent::Done, row(10), UploadEvent::Parts(Vec::new()), fail()],
        "更新会话失败: d",
    );
    told(vec![UploadEvent::Done, row(9), fail()], "清理旧会话失败: d");
    told(vec![UploadEvent::Done, row(9), UploadEvent::Done, fail()], "清理旧分片失败: d");
    told(
        vec![UploadEvent::Done, row(9), UploadEvent::Done, UploadEvent::Done, fail(), fail()],
        "创建临时文件失败: d",
    );
    told(
        vec![
            UploadEvent::Done,
            fail(),
            UploadEvent::Created { temp_path: "/tmp/up.part".to_string() },
            fail(),
        ],
        "创建上传会话失败: d",
    );
}

#[test]
fn failures_of_a_completion_are_told() {
    let row = || {
        UploadEvent::Session(SessionRow {
            upload_id: "up".to_string(),
            file_name: "a".to_string(),
            file_size: 3,
            mime_type: None,
            received_bytes: 3,
            temp_path: "/tmp/up.part".to_string(),
            status: "uploading".to_string(),
        })
    };
    let fail = || UploadEvent::Failed { detail: "d".to_string() };
    let unprepared = || UploadEvent::Unprepared { detail: "d".to_string() };
    let told = |events: Vec<StoreEvent>, refused: AppError| {
        let mut step = complete_upload_as("up".to_string(), "f".to_string());
        for event in events {
            let Step::Ask(state, _) = step else { panic!() };
            assert!(state.accepts(&event));
            step = state.next(event, NOW);
        }
        assert_eq!(step, Step::Refuse(refused));
    };
    let internal = |message: &str| error(INTERNAL_SERVER_ERROR, message);
    let parts = || UploadEvent::Parts(vec![part(0, 3, "x")]);
    let so_far = |count: usize, last: StoreEvent| {
        let mut events = vec![
            UploadEvent::Done,
            row(),
            parts(),
            UploadEvent::Done,
            UploadEvent::Inserted { id: 1 },
            UploadEvent::Done,
            UploadEvent::Done,
        ];
        events.truncate(count);
        events.push(last);
        events
    };
    told(so_far(0, fail()), internal("数据库打开失败: d"));
    told(so_far(2, unprepared()), internal("查询分片失败: d"));
    told(so_far(2, fail()), internal("读取分片失败: d"));
    told(so_far(4, fail()), internal("写入消息失败: d"));
    told(so_far(5, fail()), internal("清理上传会话失败: d"));
    told(so_far(6, fail()), internal("清理上传分片失败: d"));
    told(so_far(7, unprepared()), internal("查询失败: d"));
    told(so_far(7, fail()), error(NOT_FOUND, "消息不存在"));
}

#[test]
fn failures_of_a_cancellation_are_told() {
    let row = || {
        UploadEvent::Session(SessionRow {
            upload_id: "up".to_string(),
            file_name: "a".to_string(),
            file_size: 3,
            mime_type: None,
            received_bytes: 0,
            temp_path: "/tmp/up.part".to_string(),
            status: "uploading".to_string(),
        })
    };
    let fail = || UploadEvent::Failed { detail: "d".to_string() };
    let after = |events: Vec<StoreEvent>| {
        let mut step = cancel_upload("up".to_string());
        for event in events {
            let Step::Ask(state, _) = step else { panic!() };
            assert!(state.accepts(&event));
            step = state.next(event);
        }
        step
    };
    let internal = |message: &str| Step::Refuse(error(INTERNAL_SERVER_ERROR, message));
    assert_eq!(after(vec![fail()]), internal("数据库打开失败: d"));
    assert_eq!(after(vec![UploadEvent::Done, row(), fail()]), internal("删除会话失败: d"));
    assert_eq!(
        after(vec![UploadEvent::Done, row(), UploadEvent::Done, fail()]),
        internal("删除分片失败: d")
    );
    assert_eq!(
        after(vec![UploadEvent::Done, row(), UploadEvent::Done, UploadEvent::Done, fail()]),
        Step::Reply(UploadCancelResponse { cancelled: true })
    );
}
