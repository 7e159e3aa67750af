//! The storage as a mathematical value: the tables of the database, and the
//! files. It says what the actions of the service mean.
use vstd::prelude::*;

use crate::message::{MessageRow, Row};
use crate::parts::{overlap_count, with_part, Part};
use crate::upload::{uploading, Action, Event, SessionRow, UploadAction, UploadEvent};

verus! {

/// A row of the table of uploads.
#[verifier::ext_equal]
pub struct Session {
    pub file_key: Seq<char>,
    pub row: SessionRow<Seq<char>>,
}

/// Everything that is stored.
#[verifier::ext_equal]
pub struct Store {
    /// Where temporary files are created: what stands before their names.
    pub temp_dir: Seq<char>,
    /// The uploads, by their names.
    pub sessions: Map<Seq<char>, Session>,
    /// The parts of the uploads, in the order of their first bytes.
    pub parts: Map<Seq<char>, Seq<Part>>,
    /// The messages, in the order of their numbers.
    pub messages: Seq<Row>,
    /// The greatest number that a message ever had.
    pub last_id: int,
    /// The state of the user interface.
    pub ui: Map<Seq<char>, Seq<char>>,
    /// The files for which a playback position is known.
    pub progress: Set<Seq<char>>,
    /// The temporary files, by their paths.
    pub temps: Map<Seq<char>, Seq<u8>>,
    /// The stored files, by their names.
    pub files: Map<Seq<char>, Seq<u8>>,
}

/// The message with the number `id`, if there is one.
pub open spec fn find_row(messages: Seq<Row>, id: i64) -> Option<Row>
    decreases messages.len(),
{
    if messages.len() == 0 {
        None
    } else if messages.last().id == id {
        Some(messages.last())
    } else {
        find_row(messages.drop_last(), id)
    }
}

/// The message for the file `file_id`, if there is one.
pub open spec fn find_file(messages: Seq<Row>, file_id: Seq<char>) -> Option<Row>
    decreases messages.len(),
{
    if messages.len() == 0 {
        None
    } else if messages.last().file_id == Some(file_id) {
        Some(messages.last())
    } else {
        find_file(messages.drop_last(), file_id)
    }
}

/// The part that begins at `start_byte`, if there is one.
pub open spec fn find_part(parts: Seq<Part>, start_byte: i64) -> Option<Part>
    decreases parts.len(),
{
    if parts.len() == 0 {
        None
    } else if parts.last().start_byte == start_byte {
        Some(parts.last())
    } else {
        find_part(parts.drop_last(), start_byte)
    }
}

/// A file after `data` was written from `start` on: what lies between its end
/// and `start` becomes zero.
pub open spec fn write_at(content: Seq<u8>, start: int, data: Seq<u8>) -> Seq<u8> {
    let end = start + data.len();
    Seq::new(
        (if end < content.len() {
            content.len() as int
        } else {
            end
        }) as nat,
        |i: int|
            if start <= i < end {
                data[i - start]
            } else if i < content.len() {
                content[i]
            } else {
                0u8
            },
    )
}

/// A failure of which nothing is told.
pub open spec fn failed() -> Event {
    UploadEvent::Failed { detail: Seq::empty() }
}

impl Store {
    /// The parts that the upload has.
    pub open spec fn parts_of(self, upload_id: Seq<char>) -> Seq<Part> {
        if self.parts.contains_key(upload_id) {
            self.parts[upload_id]
        } else {
            Seq::empty()
        }
    }

    /// The upload has the file key.
    pub open spec fn has_key(self, upload_id: Seq<char>, file_key: Seq<char>) -> bool {
        self.sessions.contains_key(upload_id) && self.sessions[upload_id].file_key == file_key
    }

    /// The temporary file at the path, empty where there is none.
    pub open spec fn temp(self, path: Seq<char>) -> Seq<u8> {
        if self.temps.contains_key(path) {
            self.temps[path]
        } else {
            Seq::empty()
        }
    }

    /// A message that is added gets this number.
    pub open spec fn next_id(self) -> i64 {
        (self.last_id + 1) as i64
    }

    /// There is a number for one more message.
    pub open spec fn has_room(self) -> bool {
        self.last_id < i64::MAX
    }

    /// What is stored after `row` was added to the messages.
    pub open spec fn with_message(self, row: Row) -> Store {
        Store { messages: self.messages.push(row), last_id: row.id as int, ..self }
    }

    /// What is stored after an action of an upload, and what comes back, where
    /// the storage does what it is asked.
    pub open spec fn perform(self, action: Action) -> (Store, Event) {
        match action {
            UploadAction::OpenStore => (self, UploadEvent::Done),
            UploadAction::FindSessionByKey { file_key } => if exists|id: Seq<char>| #[trigger]
                self.has_key(id, file_key) {
                let id = choose|id: Seq<char>| #[trigger] self.has_key(id, file_key);
                (self, UploadEvent::Session(self.sessions[id].row))
            } else {
                (self, failed())
            },
            UploadAction::FindSession { upload_id } => if self.sessions.contains_key(upload_id) {
                (self, UploadEvent::Session(self.sessions[upload_id].row))
            } else {
                (self, failed())
            },
            UploadAction::LoadParts { upload_id } => (
                self,
                UploadEvent::Parts(self.parts_of(upload_id)),
            ),
            UploadAction::FindPart { upload_id, start_byte } => match find_part(
                self.parts_of(upload_id),
                start_byte,
            ) {
                Some(part) => (self, UploadEvent::Part(part)),
                None => (self, failed()),
            },
            UploadAction::CountOverlaps { upload_id, start_byte, end_byte } => (
                self,
                UploadEvent::Count(
                    overlap_count(self.parts_of(upload_id), start_byte, end_byte) as i64,
                ),
            ),
            UploadAction::InsertSession {
                upload_id,
                file_key,
                file_name,
                file_size,
                mime_type,
                temp_path,
                at: _,
            } => if self.sessions.contains_key(upload_id) || exists|id: Seq<char>| #[trigger]
                self.has_key(id, file_key) {
                (self, failed())
            } else {
                let row = SessionRow {
                    upload_id,
                    file_name,
                    file_size,
                    mime_type,
                    received_bytes: 0,
                    temp_path,
                    status: uploading(),
                };
                (
                    Store {
                        sessions: self.sessions.insert(upload_id, Session { file_key, row }),
                        ..self
                    },
                    UploadEvent::Done,
                )
            },
            UploadAction::SetReceived { upload_id, received_bytes, at: _ } =>
                if self.sessions.contains_key(upload_id) {
                let session = self.sessions[upload_id];
                let row = SessionRow { received_bytes, ..session.row };
                (
                    Store {
                        sessions: self.sessions.insert(upload_id, Session { row, ..session }),
                        ..self
                    },
                    UploadEvent::Done,
                )
            } else {
                (self, UploadEvent::Done)
            },
            UploadAction::InsertPart { upload_id, part, chunk_size: _, at: _ } => if find_part(
                self.parts_of(upload_id),
                part.start_byte,
            ) is Some {
                (self, failed())
            } else {
                (
                    Store {
                        parts: self.parts.insert(
                            upload_id,
                            with_part(self.parts_of(upload_id), part),
                        ),
                        ..self
                    },
                    UploadEvent::Done,
                )
            },
            UploadAction::DeleteSession { upload_id } => (
                Store { sessions: self.sessions.remove(upload_id), ..self },
                UploadEvent::Done,
            ),
            UploadAction::DeleteParts { upload_id } => (
                Store { parts: self.parts.remove(upload_id), ..self },
                UploadEvent::Done,
            ),
            UploadAction::CreateTemp { file_name } => {
                let temp_path = self.temp_dir + file_name;
                (
                    Store { temps: self.temps.insert(temp_path, Seq::empty()), ..self },
                    UploadEvent::Created { temp_path },
                )
            },
            UploadAction::WriteTemp { temp_path, start_byte, data } => (
                Store {
                    temps: self.temps.insert(
                        temp_path,
                        write_at(self.temp(temp_path), start_byte as int, data),
                    ),
                    ..self
                },
                UploadEvent::Done,
            ),
            UploadAction::RemoveTemp { temp_path } => if self.temps.contains_key(temp_path) {
                (Store { temps: self.temps.remove(temp_path), ..self }, UploadEvent::Done)
            } else {
                (self, failed())
            },
            UploadAction::RenameTemp { temp_path, file_id } => if self.temps.contains_key(
                temp_path,
            ) {
                (
                    Store {
                        files: self.files.insert(file_id, self.temps[temp_path]),
                        temps: self.temps.remove(temp_path),
                        ..self
                    },
                    UploadEvent::Done,
                )
            } else {
                (self, failed())
            },
            UploadAction::CopyTemp { temp_path, file_id } => if self.temps.contains_key(
                temp_path,
            ) {
                (
                    Store { files: self.files.insert(file_id, self.temps[temp_path]), ..self },
                    UploadEvent::Done,
                )
            } else {
                (self, failed())
            },
            UploadAction::InsertFile { file_id, file_name, file_size, mime_type, at } =>
                if find_file(self.messages, file_id) is Some || !self.has_room() {
                (self, failed())
            } else {
                (
                    self.with_message(
                        MessageRow {
                            id: self.next_id(),
                            kind: "file"@,
                            text_content: None,
                            file_id: Some(file_id),
                            file_name: Some(file_name),
                            file_size: Some(file_size),
                            mime_type: Some(mime_type),
                            created_at: at,
                        },
                    ),
                    UploadEvent::Inserted { id: self.next_id() },
                )
            },
            UploadAction::FindMessage { id } => match find_row(self.messages, id) {
                Some(row) => (self, UploadEvent::Message(row)),
                None => (self, failed()),
            },
        }
    }
}

} // verus!
