//! Messages as they are stored and as they are shown.
use vstd::prelude::*;
use vstd::string::*;
use vstd::utf8::encode_utf8;

use crate::outside::{percent_encode, percent_text};

verus! {

/// A row of the table of messages. `S` is the type of text, `String` or its
/// mathematical value.
#[derive(Debug, PartialEq, Eq)]
pub struct MessageRow<S> {
    pub id: i64,
    pub kind: S,
    pub text_content: Option<S>,
    pub file_id: Option<S>,
    pub file_name: Option<S>,
    pub file_size: Option<i64>,
    pub mime_type: Option<S>,
    pub created_at: S,
}

/// A message as the user gets it.
#[derive(Debug, PartialEq, Eq)]
pub struct MessageDto<S> {
    pub id: i64,
    pub kind: S,
    pub text: Option<S>,
    pub created_at: S,
    pub file_id: Option<S>,
    pub file_name: Option<S>,
    pub file_size: Option<i64>,
    pub mime_type: Option<S>,
    pub file_url: Option<S>,
    pub download_url: Option<S>,
}

impl<S: DeepView> DeepView for MessageRow<S> {
    type V = MessageRow<S::V>;

    open spec fn deep_view(&self) -> Self::V {
        MessageRow {
            id: self.id,
            kind: self.kind.deep_view(),
            text_content: self.text_content.deep_view(),
            file_id: self.file_id.deep_view(),
            file_name: self.file_name.deep_view(),
            file_size: self.file_size,
            mime_type: self.mime_type.deep_view(),
            created_at: self.created_at.deep_view(),
        }
    }
}

impl<S: DeepView> DeepView for MessageDto<S> {
    type V = MessageDto<S::V>;

    open spec fn deep_view(&self) -> Self::V {
        MessageDto {
            id: self.id,
            kind: self.kind.deep_view(),
            text: self.text.deep_view(),
            created_at: self.created_at.deep_view(),
            file_id: self.file_id.deep_view(),
            file_name: self.file_name.deep_view(),
            file_size: self.file_size,
            mime_type: self.mime_type.deep_view(),
            file_url: self.file_url.deep_view(),
            download_url: self.download_url.deep_view(),
        }
    }
}

/// A row as a mathematical value.
pub type Row = MessageRow<Seq<char>>;

/// The path under which the file `file_id` is served; the name is for display.
pub open spec fn file_path(file_id: Seq<char>, file_name: Option<Seq<char>>) -> Seq<char> {
    let name = match file_name {
        Some(name) => name,
        None => "file"@,
    };
    "/f/"@ + file_id + "/"@ + percent_text(encode_utf8(name))
}

/// The message that the row `row` is shown as.
pub open spec fn shown(row: Row) -> MessageDto<Seq<char>> {
    let file_url = match row.file_id {
        Some(file_id) => Some(file_path(file_id, row.file_name)),
        None => None,
    };
    MessageDto {
        id: row.id,
        kind: row.kind,
        text: row.text_content,
        created_at: row.created_at,
        file_id: row.file_id,
        file_name: row.file_name,
        file_size: row.file_size,
        mime_type: row.mime_type,
        file_url,
        download_url: match file_url {
            Some(url) => Some(url + "?download=1"@),
            None => None,
        },
    }
}

/// The path under which the file `file_id` is served.
pub fn file_url(file_id: &str, file_name: &Option<String>) -> (r: String)
    ensures
        r@ == file_path(file_id@, file_name.deep_view()),
{
    let display = match file_name {
        Some(name) => percent_encode(name.as_str()),
        None => percent_encode("file"),
    };
    let mut url = "/f/".to_owned();
    url.append(file_id);
    url.append("/");
    url.append(display.as_str());
    url
}

/// The message that the row `row` is shown as.
pub fn row_to_dto(row: MessageRow<String>) -> (r: MessageDto<String>)
    ensures
        r.deep_view() == shown(row.deep_view()),
{
    let url = match &row.file_id {
        Some(file_id) => Some(file_url(file_id.as_str(), &row.file_name)),
        None => None,
    };
    let download = match &url {
        Some(url) => {
            let mut text = url.clone();
            text.append("?download=1");
            Some(text)
        },
        None => None,
    };
    MessageDto {
        id: row.id,
        kind: row.kind,
        text: row.text_content,
        created_at: row.created_at,
        file_id: row.file_id,
        file_name: row.file_name,
        file_size: row.file_size,
        mime_type: row.mime_type,
        file_url: url,
        download_url: download,
    }
}

} // verus!
