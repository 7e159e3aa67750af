//! What an upload asks of the storage, and what comes back.
use vstd::prelude::*;

use crate::message::MessageRow;
use crate::parts::UploadedPart;

verus! {

/// The status of a session that takes parts.
pub open spec fn uploading() -> Seq<char> {
    "uploading"@
}

/// A session in which a file is uploaded part by part. `S` is the type of text,
/// `String` or its mathematical value.
#[derive(Debug, PartialEq, Eq)]
pub struct SessionRow<S> {
    pub upload_id: S,
    pub file_name: S,
    pub file_size: i64,
    pub mime_type: Option<S>,
    pub received_bytes: i64,
    pub temp_path: S,
    pub status: S,
}

impl<S: DeepView> DeepView for SessionRow<S> {
    type V = SessionRow<S::V>;

    open spec fn deep_view(&self) -> Self::V {
        SessionRow {
            upload_id: self.upload_id.deep_view(),
            file_name: self.file_name.deep_view(),
            file_size: self.file_size,
            mime_type: self.mime_type.deep_view(),
            received_bytes: self.received_bytes,
            temp_path: self.temp_path.deep_view(),
            status: self.status.deep_view(),
        }
    }
}

/// What an upload asks of the storage. `B` is the type of bytes.
#[allow(inconsistent_fields)]
#[derive(Debug, PartialEq, Eq)]
pub enum UploadAction<S, B> {
    /// Open the database.
    OpenStore,
    /// Read the session that has the file key.
    FindSessionByKey { file_key: S },
    /// Read the session.
    FindSession { upload_id: S },
    /// Read the parts of the session, in the order of their first bytes.
    LoadParts { upload_id: S },
    /// Read the part of the session that begins at the byte.
    FindPart { upload_id: S, start_byte: i64 },
    /// Count the parts of the session that share a byte with the range.
    CountOverlaps { upload_id: S, start_byte: i64, end_byte: i64 },
    /// Record a new session, with the status `uploading` and nothing received.
    InsertSession {
        upload_id: S,
        file_key: S,
        file_name: S,
        file_size: i64,
        mime_type: Option<S>,
        temp_path: S,
        at: S,
    },
    /// Record how much the session has received.
    SetReceived { upload_id: S, received_bytes: i64, at: S },
    /// Record a part of the session.
    InsertPart { upload_id: S, part: UploadedPart<S>, chunk_size: i64, at: S },
    /// Delete the session.
    DeleteSession { upload_id: S },
    /// Delete the parts of the session.
    DeleteParts { upload_id: S },
    /// Create an empty file of this name among the temporary files.
    CreateTemp { file_name: S },
    /// Write the bytes into the temporary file, from `start_byte` on.
    WriteTemp { temp_path: S, start_byte: i64, data: B },
    /// Remove the temporary file.
    RemoveTemp { temp_path: S },
    /// Make the temporary file the stored file `file_id` by renaming it.
    RenameTemp { temp_path: S, file_id: S },
    /// Copy the temporary file to the stored file `file_id`.
    CopyTemp { temp_path: S, file_id: S },
    /// Record a message of the kind `file`.
    InsertFile { file_id: S, file_name: S, file_size: i64, mime_type: S, at: S },
    /// Read the message.
    FindMessage { id: i64 },
}

impl<S: DeepView, B: DeepView> DeepView for UploadAction<S, B> {
    type V = UploadAction<S::V, B::V>;

    open spec fn deep_view(&self) -> Self::V {
        match self {
            UploadAction::OpenStore => UploadAction::OpenStore,
            UploadAction::FindSessionByKey { file_key } => UploadAction::FindSessionByKey {
                file_key: file_key.deep_view(),
            },
            UploadAction::FindSession { upload_id } => UploadAction::FindSession {
                upload_id: upload_id.deep_view(),
            },
            UploadAction::LoadParts { upload_id } => UploadAction::LoadParts {
                upload_id: upload_id.deep_view(),
            },
            UploadAction::FindPart { upload_id, start_byte } => UploadAction::FindPart {
                upload_id: upload_id.deep_view(),
                start_byte: *start_byte,
            },
            UploadAction::CountOverlaps { upload_id, start_byte, end_byte } =>
                UploadAction::CountOverlaps {
                upload_id: upload_id.deep_view(),
                start_byte: *start_byte,
                end_byte: *end_byte,
            },
            UploadAction::InsertSession {
                upload_id,
                file_key,
                file_name,
                file_size,
                mime_type,
                temp_path,
                at,
            } => UploadAction::InsertSession {
                upload_id: upload_id.deep_view(),
                file_key: file_key.deep_view(),
                file_name: file_name.deep_view(),
                file_size: *file_size,
                mime_type: mime_type.deep_view(),
                temp_path: temp_path.deep_view(),
                at: at.deep_view(),
            },
            UploadAction::SetReceived { upload_id, received_bytes, at } =>
                UploadAction::SetReceived {
                upload_id: upload_id.deep_view(),
                received_bytes: *received_bytes,
                at: at.deep_view(),
            },
            UploadAction::InsertPart { upload_id, part, chunk_size, at } =>
                UploadAction::InsertPart {
                upload_id: upload_id.deep_view(),
                part: part.deep_view(),
                chunk_size: *chunk_size,
                at: at.deep_view(),
            },
            UploadAction::DeleteSession { upload_id } => UploadAction::DeleteSession {
                upload_id: upload_id.deep_view(),
            },
            UploadAction::DeleteParts { upload_id } => UploadAction::DeleteParts {
                upload_id: upload_id.deep_view(),
            },
            UploadAction::CreateTemp { file_name } => UploadAction::CreateTemp {
                file_name: file_name.deep_view(),
            },
            UploadAction::WriteTemp { temp_path, start_byte, data } => UploadAction::WriteTemp {
                temp_path: temp_path.deep_view(),
                start_byte: *start_byte,
                data: data.deep_view(),
            },
            UploadAction::RemoveTemp { temp_path } => UploadAction::RemoveTemp {
                temp_path: temp_path.deep_view(),
            },
            UploadAction::RenameTemp { temp_path, file_id } => UploadAction::RenameTemp {
                temp_path: temp_path.deep_view(),
                file_id: file_id.deep_view(),
            },
            UploadAction::CopyTemp { temp_path, file_id } => UploadAction::CopyTemp {
                temp_path: temp_path.deep_view(),
                file_id: file_id.deep_view(),
            },
            UploadAction::InsertFile { file_id, file_name, file_size, mime_type, at } =>
                UploadAction::InsertFile {
                file_id: file_id.deep_view(),
                file_name: file_name.deep_view(),
                file_size: *file_size,
                mime_type: mime_type.deep_view(),
                at: at.deep_view(),
            },
            UploadAction::FindMessage { id } => UploadAction::FindMessage { id: *id },
        }
    }
}

/// What comes of an action. `P` is the type of a list of parts.
#[derive(Debug, PartialEq, Eq)]
pub enum UploadEvent<S, P> {
    /// It is done.
    Done,
    /// It failed.
    Failed { detail: S },
    /// It failed before anything was read.
    Unprepared { detail: S },
    /// The temporary file could not be opened.
    Unopened { detail: S },
    /// The place in the temporary file could not be reached.
    Unplaced { detail: S },
    /// The session that was asked for.
    Session(SessionRow<S>),
    /// The parts that were asked for.
    Parts(P),
    /// The part that was asked for.
    Part(UploadedPart<S>),
    /// How many there are.
    Count(i64),
    /// The temporary file was created at this path.
    Created { temp_path: S },
    /// The message was recorded under this number.
    Inserted { id: i64 },
    /// The message that was asked for.
    Message(MessageRow<S>),
}

impl<S: DeepView, P: DeepView> DeepView for UploadEvent<S, P> {
    type V = UploadEvent<S::V, P::V>;

    open spec fn deep_view(&self) -> Self::V {
        match self {
            UploadEvent::Done => UploadEvent::Done,
            UploadEvent::Failed { detail } => UploadEvent::Failed { detail: detail.deep_view() },
            UploadEvent::Unprepared { detail } => UploadEvent::Unprepared {
                detail: detail.deep_view(),
            },
            UploadEvent::Unopened { detail } => UploadEvent::Unopened {
                detail: detail.deep_view(),
            },
            UploadEvent::Unplaced { detail } => UploadEvent::Unplaced {
                detail: detail.deep_view(),
            },
            UploadEvent::Session(row) => UploadEvent::Session(row.deep_view()),
            UploadEvent::Parts(parts) => UploadEvent::Parts(parts.deep_view()),
            UploadEvent::Part(part) => UploadEvent::Part(part.deep_view()),
            UploadEvent::Count(count) => UploadEvent::Count(*count),
            UploadEvent::Created { temp_path } => UploadEvent::Created {
                temp_path: temp_path.deep_view(),
            },
            UploadEvent::Inserted { id } => UploadEvent::Inserted { id: *id },
            UploadEvent::Message(row) => UploadEvent::Message(row.deep_view()),
        }
    }
}

/// An action as the service asks for it.
pub type StoreAction = UploadAction<String, Vec<u8>>;

/// What came of an action, as the service is told.
pub type StoreEvent = UploadEvent<String, Vec<UploadedPart<String>>>;

/// An action as a mathematical value.
pub type Action = UploadAction<Seq<char>, Seq<u8>>;

/// An event as a mathematical value.
pub type Event = UploadEvent<Seq<char>, Seq<UploadedPart<Seq<char>>>>;

} // verus!
