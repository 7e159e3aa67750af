use std::collections::{BTreeMap, BTreeSet};

use fastfile::delete::{
    choose_ids, delete_messages, in_list, DeleteAction, DeleteEvent, DeleteResponse, DeleteStep,
};
use fastfile::download::{direct_file, DownloadAction, DownloadEvent};
use fastfile::error::{AppError, BAD_REQUEST, INTERNAL_SERVER_ERROR, NOT_FOUND};
use fastfile::headers::RequestHeaders;
use fastfile::list::{list_messages, ListAction, ListEvent, ListStep};
use fastfile::message::{file_url, row_to_dto, MessageDto, MessageRow};
use fastfile::post::{
    create_file_message, create_file_message_as, create_text_message, PostAction, PostEvent,
    PostStep,
};
use fastfile::step::Step;

/// The messages and files of the service, in memory.
#[derive(Default)]
struct Memory {
    rows: Vec<MessageRow<String>>,
    last_id: i64,
    files: BTreeMap<String, Vec<u8>>,
    progress: BTreeSet<String>,
}

/// A field of a form: its name, the name and type of its file, and its bytes.
struct Field {
    name: Option<&'static str>,
    file_name: Option<&'static str>,
    content_type: Option<&'static str>,
    chunks: Vec<&'static [u8]>,
}

fn owned(text: Option<&str>) -> Option<String> {
    text.map(str::to_string)
}

fn copy(row: &MessageRow<String>) -> MessageRow<String> {
    MessageRow {
        id: row.id,
        kind: row.kind.clone(),
        text_content: row.text_content.clone(),
        file_id: row.file_id.clone(),
        file_name: row.file_name.clone(),
        file_size: row.file_size,
        mime_type: row.mime_type.clone(),
        created_at: row.created_at.clone(),
    }
}

impl Memory {
    fn post(
        &mut self,
        fields: Vec<Field>,
        mut step: PostStep,
    ) -> Result<MessageDto<String>, AppError> {
        let mut fields = fields.into_iter();
        let mut chunks = Vec::new().into_iter();
        loop {
            let (state, action) = match step {
                Step::Ask(state, action) => (state, action),
                Step::Reply(reply) => return Ok(reply),
                Step::Refuse(error) => return Err(error),
            };
            let event = match action {
                PostAction::NextField => match fields.next() {
                    Some(field) => {
                        chunks = field.chunks.into_iter();
                        PostEvent::Field {
                            name: owned(field.name),
                            file_name: owned(field.file_name),
                            content_type: owned(field.content_type),
                        }
                    }
                    None => PostEvent::NoField,
                },
                PostAction::CreateFile { file_id } => {
                    self.files.insert(file_id, Vec::new());
                    PostEvent::Done
                }
                PostAction::NextChunk => match chunks.next() {
                    Some(data) => PostEvent::Chunk { data: data.to_vec() },
                    None => PostEvent::NoChunk,
                },
                PostAction::WriteFile { file_id, data } => {
                    self.files.get_mut(&file_id).unwrap().extend(data);
                    PostEvent::Done
                }
                PostAction::OpenStore => PostEvent::Done,
                PostAction::InsertText { text, at } => {
                    self.last_id += 1;
                    self.rows.push(MessageRow {
                        id: self.last_id,
                        kind: "text".to_string(),
                        text_content: Some(text),
                        file_id: None,
                        file_name: None,
                        file_size: None,
                        mime_type: None,
                        created_at: at,
                    });
                    PostEvent::Inserted { id: self.last_id }
                }
                PostAction::InsertFile { file_id, file_name, file_size, mime_type, at } => {
                    self.last_id += 1;
                    self.rows.push(MessageRow {
                        id: self.last_id,
                        kind: "file".to_string(),
                        text_content: None,
                        file_id: Some(file_id),
                        file_name: Some(file_name),
                        file_size: Some(file_size),
                        mime_type: Some(mime_type),
                        created_at: at,
                    });
                    PostEvent::Inserted { id: self.last_id }
                }
                PostAction::FindMessage { id } => {
                    let row = self.rows.iter().find(|row| row.id == id).unwrap();
                    PostEvent::Message(copy(row))
                }
            };
            assert!(state.accepts(&event));
            step = state.next(event, "2026-01-02T03:04:05Z");
        }
    }

    fn list(&self) -> Vec<MessageDto<String>> {
        let mut step = list_messages();
        loop {
            let (state, action) = match step {
                Step::Ask(state, action) => (state, action),
                Step::Reply(reply) => return reply,
                Step::Refuse(error) => panic!("{}", error.message),
            };
            let event = match action {
                ListAction::OpenStore => ListEvent::Done,
                ListAction::LoadMessages => {
                    ListEvent::Messages(self.rows.iter().map(copy).collect())
                }
            };
            assert!(state.accepts(&event));
            step = state.next(event);
        }
    }

    /// The bytes that the link of the file gives, to a client without a session.
    fn fetch(&self, file_id: &str) -> Result<Vec<u8>, AppError> {
        let headers = RequestHeaders {
            authorization: None,
            cookie: None,
            range: None,
            upload_id: None,
            start_byte: None,
            chunk_sha256: None,
        };
        let mut step = direct_file(file_id.to_string(), &headers, &None);
        let mut content: &[u8] = &[];
        loop {
            let (state, action) = match step {
                Step::Ask(state, action) => (state, action),
                Step::Reply(reply) => return Ok(content[..reply.length as usize].to_vec()),
                Step::Refuse(error) => return Err(error),
            };
            let missing = || DownloadEvent::Failed { detail: "none".to_string() };
            let event = match action {
                DownloadAction::OpenStore => DownloadEvent::Done,
                DownloadAction::FindFile { file_id } => {
                    match self.rows.iter().find(|row| row.file_id.as_ref() == Some(&file_id)) {
                        Some(row) => DownloadEvent::File {
                            file_name: row.file_name.clone(),
                            mime_type: row.mime_type.clone(),
                        },
                        None => missing(),
                    }
                }
                DownloadAction::OpenFile { file_id } => match self.files.get(&file_id) {
                    Some(file) => {
                        content = file;
                        DownloadEvent::Done
                    }
                    None => missing(),
                },
                DownloadAction::ReadSize => DownloadEvent::Size(content.len() as u64),
                DownloadAction::Seek { start } => {
                    content = &content[start as usize..];
                    DownloadEvent::Done
                }
            };
            assert!(state.accepts(&event));
            step = state.next(event);
        }
    }

    fn delete(&mut self, ids: Vec<i64>) -> Result<DeleteResponse, AppError> {
        let mut step = delete_messages(&ids);
        loop {
            let (state, action) = match step {
                Step::Ask(state, action) => (state, action),
                Step::Reply(reply) => return Ok(reply),
                Step::Refuse(error) => return Err(error),
            };
            let event = match action {
                DeleteAction::OpenStore => DeleteEvent::Done,
                DeleteAction::FindFiles { sql, ids } => {
                    assert_eq!(sql.matches('?').count(), ids.len());
                    let found = self.rows.iter().filter(|row| ids.contains(&row.id));
                    DeleteEvent::FileIds(found.map(|row| row.file_id.clone()).collect())
                }
                DeleteAction::FileExists { file_id } => {
                    DeleteEvent::Exists(self.files.contains_key(&file_id))
                }
                DeleteAction::RemoveFile { file_id } => {
                    self.files.remove(&file_id).unwrap();
                    DeleteEvent::Done
                }
                DeleteAction::DropProgress { sql, file_ids } => {
                    assert_eq!(sql.matches('?').count(), file_ids.len());
                    self.progress.retain(|id| !file_ids.contains(id));
                    DeleteEvent::Done
                }
                DeleteAction::DeleteRows { sql, ids } => {
                    assert_eq!(sql.matches('?').count(), ids.len());
                    let before = self.rows.len();
                    self.rows.retain(|row| !ids.contains(&row.id));
                    DeleteEvent::Count(before - self.rows.len())
                }
            };
            assert!(state.accepts(&event));
            step = state.next(event);
        }
    }
}

#[test]
fn text_is_added_as_it_is() {
    let mut memory = Memory::default();
    let long = "长".repeat(100_000);
    let shown = memory.post(Vec::new(), create_text_message(long.clone())).unwrap();
    assert_eq!(
        shown,
        MessageDto {
            id: 1,
            kind: "text".to_string(),
            text: Some(long),
            created_at: "2026-01-02T03:04:05Z".to_string(),
            file_id: None,
            file_name: None,
            file_size: None,
            mime_type: None,
            file_url: None,
            download_url: None,
        }
    );
    memory.post(Vec::new(), create_text_message(String::new())).unwrap();
    let all = memory.list();
    assert_eq!(all.len(), 2);
    assert_eq!(all[0], shown);
    assert_eq!(all[1].text.as_deref(), Some(""));
}

#[test]
fn file_in_one_piece_is_stored_byte_for_byte() {
    let mut memory = Memory::default();
    let note = Field {
        name: Some("note"),
        file_name: None,
        content_type: None,
        chunks: vec![b"skipped"],
    };
    let file = Field {
        name: Some("file"),
        file_name: Some("报告 1.pdf"),
        content_type: Some("application/pdf"),
        chunks: vec![b"ab", b"", b"cde"],
    };
    let step = create_file_message_as("id1".to_string());
    let shown = memory.post(vec![note, file], step).unwrap();
    assert_eq!(memory.files["id1"], b"abcde");
    assert_eq!(
        shown,
        MessageDto {
            id: 1,
            kind: "file".to_string(),
            text: None,
            created_at: "2026-01-02T03:04:05Z".to_string(),
            file_id: Some("id1".to_string()),
            file_name: Some("报告 1.pdf".to_string()),
            file_size: Some(5),
            mime_type: Some("application/pdf".to_string()),
            file_url: Some("/f/id1/%E6%8A%A5%E5%91%8A%201.pdf".to_string()),
            download_url: Some("/f/id1/%E6%8A%A5%E5%91%8A%201.pdf?download=1".to_string()),
        }
    );
}

#[test]
fn file_without_name_or_type_gets_the_usual_ones() {
    let mut memory = Memory::default();
    let file = Field { name: Some("file"), file_name: None, content_type: None, chunks: vec![] };
    let shown = memory.post(vec![file], create_file_message()).unwrap();
    assert_eq!(shown.file_name.as_deref(), Some("file"));
    assert_eq!(shown.mime_type.as_deref(), Some("application/octet-stream"));
    assert_eq!(shown.file_size, Some(0));
    let id = shown.file_id.unwrap();
    assert_eq!(id.len(), 48);
    assert_eq!(shown.file_url, Some(format!("/f/{id}/file")));
}

#[test]
fn form_without_a_file_is_refused() {
    let mut memory = Memory::default();
    let nameless = Field { name: None, file_name: None, content_type: None, chunks: vec![] };
    let error = memory.post(vec![nameless], create_file_message()).unwrap_err();
    assert_eq!(error, AppError { status: BAD_REQUEST, message: "缺少文件".to_string() });
    assert!(memory.files.is_empty() && memory.rows.is_empty());
}

#[test]
fn links_are_percent_encoded() {
    assert_eq!(file_url("x", &Some("a b/ü~-_.!".to_string())), "/f/x/a%20b%2F%C3%BC~-_.%21");
    assert_eq!(file_url("x", &None), "/f/x/file");
    let row = MessageRow {
        id: 7,
        kind: "file".to_string(),
        text_content: None,
        file_id: Some("x".to_string()),
        file_name: None,
        file_size: None,
        mime_type: None,
        created_at: "t".to_string(),
    };
    let dto = row_to_dto(row);
    assert_eq!(dto.file_url.as_deref(), Some("/f/x/file"));
    assert_eq!(dto.download_url.as_deref(), Some("/f/x/file?download=1"));
    assert_eq!(dto.file_name, None);
}

#[test]
fn ids_are_chosen_once_and_in_order() {
    assert_eq!(choose_ids(&vec![3, 1, 3, 0, -2, 2, 1]), vec![1, 2, 3]);
    assert_eq!(choose_ids(&vec![0, -1]), Vec::<i64>::new());
    assert_eq!(choose_ids(&vec![i64::MAX, i64::MIN]), vec![i64::MAX]);
}

#[test]
fn statements_have_a_place_for_each_value() {
    assert_eq!(in_list("X IN (", 0), "X IN ()");
    assert_eq!(in_list("X IN (", 1), "X IN (?)");
    assert_eq!(in_list("X IN (", 3), "X IN (?,?,?)");
}

#[test]
fn deleted_messages_take_their_files_along() {
    let mut memory = Memory::default();
    for id in ["a", "b", "c"] {
        let file = Field {
            name: Some("file"),
            file_name: Some("n"),
            content_type: None,
            chunks: vec![b"x"],
        };
        memory.post(vec![file], create_file_message_as(id.to_string())).unwrap();
    }
    memory.post(Vec::new(), create_text_message("t".to_string())).unwrap();
    memory.progress.extend(["a".to_string(), "b".to_string()]);
    memory.files.remove("c");

    let answer = memory.delete(vec![4, 1, 1, 3, 99, 0, -4]).unwrap();
    assert_eq!(answer, DeleteResponse { deleted: 3 });
    let left: Vec<i64> = memory.list().iter().map(|dto| dto.id).collect();
    assert_eq!(left, vec![2]);
    assert_eq!(memory.files.keys().collect::<Vec<_>>(), vec!["b"]);
    assert_eq!(memory.progress.iter().collect::<Vec<_>>(), vec!["b"]);

    let shown = memory.post(Vec::new(), create_text_message("u".to_string())).unwrap();
    assert_eq!(shown.id, 5);
}

#[test]
fn link_is_good_until_its_message_is_deleted() {
    let mut memory = Memory::default();
    let file = |chunk: &'static [u8]| Field {
        name: Some("file"),
        file_name: Some("n"),
        content_type: None,
        chunks: vec![chunk],
    };
    let not_found = AppError { status: NOT_FOUND, message: "文件不存在".to_string() };
    memory.post(vec![file(b"one")], create_file_message_as("a".to_string())).unwrap();
    memory.post(vec![file(b"two")], create_file_message_as("b".to_string())).unwrap();
    assert_eq!(memory.fetch("a").unwrap(), b"one");
    memory.delete(vec![2]).unwrap();
    memory.post(Vec::new(), create_text_message("t".to_string())).unwrap();
    assert_eq!(memory.fetch("a").unwrap(), b"one");
    assert_eq!(memory.fetch("b").unwrap_err(), not_found);
    memory.delete(vec![1]).unwrap();
    assert_eq!(memory.fetch("a").unwrap_err(), not_found);
    memory.post(vec![file(b"three")], create_file_message_as("c".to_string())).unwrap();
    memory.delete(vec![3]).unwrap();
    assert_eq!(memory.fetch("a").unwrap_err(), not_found);
    assert_eq!(memory.fetch("c").unwrap(), b"three");
}

#[test]
fn deleting_nothing_asks_for_nothing() {
    for ids in [vec![], vec![0, -1]] {
        assert_eq!(
            delete_messages(&ids),
            Step::Reply(DeleteResponse { deleted: 0 })
        );
    }
}

#[test]
fn delete_statements() {
    let Step::Ask(state, action) = delete_messages(&vec![2, 1]) else { panic!() };
    assert_eq!(action, DeleteAction::OpenStore);
    let Step::Ask(state, action) = state.next(DeleteEvent::Done) else { panic!() };
    assert_eq!(
        action,
        DeleteAction::FindFiles {
            sql: "SELECT file_id FROM messages WHERE id IN (?,?)".to_string(),
            ids: vec![1, 2],
        }
    );
    let found = DeleteEvent::FileIds(vec![None, Some("f".to_string())]);
    let Step::Ask(state, action) = state.next(found) else { panic!() };
    assert_eq!(action, DeleteAction::FileExists { file_id: "f".to_string() });
    let Step::Ask(state, action) = state.next(DeleteEvent::Exists(false)) else { panic!() };
    assert_eq!(
        action,
        DeleteAction::DropProgress {
            sql: "DELETE FROM video_progress WHERE file_id IN (?)".to_string(),
            file_ids: vec!["f".to_string()],
        }
    );
    let Step::Ask(_, action) = state.next(DeleteEvent::Done) else { panic!() };
    assert_eq!(
        action,
        DeleteAction::DeleteRows {
            sql: "DELETE FROM messages WHERE id IN (?,?)".to_string(),
            ids: vec![1, 2],
        }
    );
}

fn internal(message: &str) -> AppError {
    AppError { status: INTERNAL_SERVER_ERROR, message: message.to_string() }
}

#[test]
fn failures_of_a_deletion_are_told() {
    let fail = || DeleteEvent::Failed { detail: "disk".to_string() };
    let told = |step: DeleteStep, message: &str| assert_eq!(step, Step::Refuse(internal(message)));
    let begin = || {
        let Step::Ask(state, _) = delete_messages(&vec![1]) else { panic!() };
        state
    };
    let find = || {
        let Step::Ask(state, _) = begin().next(DeleteEvent::Done) else { panic!() };
        state
    };
    let check = || {
        let found = DeleteEvent::FileIds(vec![Some("f".to_string())]);
        let Step::Ask(state, _) = find().next(found) else { panic!() };
        state
    };
    told(begin().next(fail()), "数据库打开失败: disk");
    told(find().next(DeleteEvent::Unprepared { detail: "sql".to_string() }), "查询失败: sql");
    told(find().next(fail()), "读取失败: disk");
    let Step::Ask(state, _) = check().next(DeleteEvent::Exists(true)) else { panic!() };
    told(state.next(fail()), "删除文件失败: disk");
    let Step::Ask(state, _) = check().next(DeleteEvent::Exists(false)) else { panic!() };
    told(state.next(fail()), "清理视频进度失败: disk");
    let Step::Ask(state, _) = find().next(DeleteEvent::FileIds(vec![None])) else { panic!() };
    told(state.next(fail()), "删除失败: disk");
}

#[test]
fn failures_of_a_list_are_told() {
    let told = |step: ListStep, message: &str| assert_eq!(step, Step::Refuse(internal(message)));
    let begin = || {
        let Step::Ask(state, _) = list_messages() else { panic!() };
        state
    };
    let load = || {
        let Step::Ask(state, _) = begin().next(ListEvent::Done) else { panic!() };
        state
    };
    let detail = || "d".to_string();
    told(begin().next(ListEvent::Failed { detail: detail() }), "数据库打开失败: d");
    told(load().next(ListEvent::Unprepared { detail: detail() }), "查询失败: d");
    told(load().next(ListEvent::Failed { detail: detail() }), "读取失败: d");
    told(load().next(ListEvent::RowFailed { detail: detail() }), "读取行失败: d");
}

#[test]
fn failures_of_a_post_are_told() {
    let fail = || PostEvent::Failed { detail: "d".to_string() };
    let told = |step: PostStep, error: AppError| assert_eq!(step, Step::Refuse(error));
    let next = |step: PostStep, event: PostEvent<String, Vec<u8>>| {
        let Step::Ask(state, _) = step else { panic!() };
        assert!(state.accepts(&event));
        state.next(event, "now")
    };
    let bad = |message: &str| AppError { status: BAD_REQUEST, message: message.to_string() };
    let begin = || create_file_message_as("id".to_string());
    let create = || {
        next(
            begin(),
            PostEvent::Field { name: owned(Some("file")), file_name: None, content_type: None },
        )
    };
    let receive = || next(create(), PostEvent::Done);
    told(next(begin(), fail()), bad("读取上传失败: d"));
    told(next(create(), fail()), internal("创建文件失败: d"));
    told(next(receive(), fail()), bad("读取分片失败: d"));
    let write = next(receive(), PostEvent::Chunk { data: vec![1] });
    told(next(write, fail()), internal("写入文件失败: d"));
    let open = || next(receive(), PostEvent::NoChunk);
    told(next(open(), fail()), internal("数据库打开失败: d"));
    let insert = || next(open(), PostEvent::Done);
    told(next(insert(), fail()), internal("写入失败: d"));
    let show = || next(insert(), PostEvent::Inserted { id: 9 });
    told(next(show(), PostEvent::Unprepared { detail: "s".to_string() }), internal("查询失败: s"));
    told(
        next(show(), fail()),
        AppError { status: NOT_FOUND, message: "消息不存在".to_string() },
    );
    let text = || create_text_message("t".to_string());
    told(next(text(), fail()), internal("数据库打开失败: d"));
}

#[test]
fn form_events_that_are_not_waited_for() {
    let Step::Ask(state, _) = create_file_message_as("id".to_string()) else { panic!() };
    assert!(!state.accepts(&PostEvent::Done));
    assert!(!state.accepts(&PostEvent::NoChunk));
    assert!(state.accepts(&PostEvent::NoField));
}
