//! What can be relied on about how requests are read: the headers, a part of a
//! file, and the request to begin an upload.
use vstd::prelude::*;

use crate::error::Refusal;
use crate::headers::{header_text, visible, Headers};
use crate::parallel::is_of;
use crate::session_laws::{ascii_bytes, visible_text_is_read_back};
use crate::step::Step;
use crate::text::{decimal, decimal_writes, is_digit, parsed_i64, white_space};
use crate::text_laws::{blank, decimal_is_read_back, trimming_takes_the_ends_away};
use crate::upload::Action;
use crate::upload_chunk::{chunk_start, end_fits, sent_chunk, Chunk, ChunkResponse};
use crate::upload_init::{init_refusal, init_start, Init, InitRequest, InitResponse};

verus! {

/// How a request that brings a part goes on.
pub type ChunkGoes = Step<Chunk, Action, ChunkResponse, Refusal>;

/// How a request that begins an upload goes on.
pub type InitGoes = Step<Init, Action, InitResponse, Refusal>;

/// A header has a text exactly if each of its bytes is a tab or a visible
/// character of ASCII, and each character of the text is the one of its byte.
pub proof fn header_text_is_its_bytes(value: Option<Seq<u8>>, text: Seq<char>)
    ensures
        header_text(value) == Some(text) <==> (value matches Some(bytes) && bytes.len()
            == text.len() && forall|i: int|
            0 <= i < text.len() ==> (#[trigger] text[i]) as u32 == bytes[i] && (text[i] == '\t'
                || ' ' <= text[i] <= '~')),
{
    if let Some(bytes) = value {
        if header_text(value) == Some(text) {
            assert forall|i: int| 0 <= i < text.len() implies (#[trigger] text[i]) as u32
                == bytes[i] && (text[i] == '\t' || ' ' <= text[i] <= '~') by {
                assert(visible(bytes[i]));
            }
        }
        if bytes.len() == text.len() && forall|i: int|
            0 <= i < text.len() ==> (#[trigger] text[i]) as u32 == bytes[i] && (text[i] == '\t'
                || ' ' <= text[i] <= '~') {
            assert forall|i: int| 0 <= i < bytes.len() implies visible(
                #[trigger] bytes[i],
            ) by {
                assert(text[i] as u32 == bytes[i]);
            }
            assert(Seq::new(bytes.len(), |i: int| bytes[i] as char) =~= text);
        }
    }
}

/// A part is taken from a request as it was sent: for the upload that the headers
/// name, at the byte that they name, with the checksum that they name, and with
/// all bytes of the body.
pub proof fn chunk_is_taken_as_it_was_sent(headers: Headers, body: Seq<u8>)
    ensures
        sent_chunk(headers, body) matches Ok(chunk) ==> {
            &&& header_text(headers.upload_id) == Some(chunk.upload_id)
            &&& header_text(headers.start_byte) matches Some(text) && parsed_i64(text) == Some(
                chunk.start_byte as int,
            )
            &&& header_text(headers.chunk_sha256) == Some(chunk.checksum)
            &&& chunk.data == body
            &&& chunk.size == body.len()
            &&& chunk.start_byte + body.len() <= i64::MAX ==> chunk.end_byte == chunk.start_byte
                + body.len()
        },
{
}

/// A part is taken from a request exactly if the three headers are there, the
/// first byte is a number that is not negative, and there are bytes, as many as
/// can be counted. The refusal tells what is missing. The end of the part cannot be
/// counted only where it lies behind the greatest `i64`.
pub proof fn chunk_is_taken_where_nothing_is_missing(headers: Headers, body: Seq<u8>)
    ensures
        ({
            let id = header_text(headers.upload_id);
            let start = match header_text(headers.start_byte) {
                Some(text) => parsed_i64(text),
                None => None,
            };
            let checksum = header_text(headers.chunk_sha256);
            let answer = sent_chunk(headers, body);
            &&& answer is Ok <==> id is Some && start is Some && checksum is Some && start->0 >= 0
                && 0 < body.len() <= i64::MAX
            &&& id is None ==> answer->Err_0 == (Refusal {
                status: 400,
                message: "缺少 x-upload-id"@,
            })
            &&& id is Some && start is None ==> answer->Err_0 == (Refusal {
                status: 400,
                message: "缺少 x-start-byte"@,
            })
            &&& id is Some && start is Some && checksum is None ==> answer->Err_0 == (Refusal {
                status: 400,
                message: "缺少 x-chunk-sha256"@,
            })
            &&& id is Some && start is Some && checksum is Some && body.len() > i64::MAX
                ==> answer->Err_0 == (Refusal { status: 400, message: "分片过大"@ })
            &&& id is Some && start is Some && checksum is Some && body.len() <= i64::MAX && (
            start->0 < 0 || body.len() == 0) ==> answer->Err_0 == (Refusal {
                status: 400,
                message: "分片范围无效"@,
            })
            &&& end_fits(headers, body.len() as int) <==> !(id is Some && start is Some
                && checksum is Some && body.len() <= i64::MAX && start->0 + body.len() > i64::MAX)
            &&& match answer {
                Ok(request) => chunk_start(headers, body) == ChunkGoes::Ask(
                    Chunk::Opening { request },
                    Action::OpenStore,
                ),
                Err(refused) => chunk_start(headers, body) == ChunkGoes::Refuse(refused),
            }
        }),
{
}

/// A client that sends the bytes `a..b` of a file, and `a` in decimal, brings
/// just these bytes of the file, wherever in the file they lie.
pub proof fn bytes_of_a_file_are_sent(
    headers: Headers,
    upload_id: Seq<char>,
    checksum: Seq<char>,
    file: Seq<u8>,
    a: int,
    b: int,
)
    requires
        forall|i: int| 0 <= i < upload_id.len() ==> ' ' <= #[trigger] upload_id[i] <= '~',
        forall|i: int| 0 <= i < checksum.len() ==> ' ' <= #[trigger] checksum[i] <= '~',
        headers.upload_id == Some(ascii_bytes(upload_id)),
        headers.start_byte == Some(ascii_bytes(decimal(a as nat))),
        headers.chunk_sha256 == Some(ascii_bytes(checksum)),
        0 <= a < b <= file.len() <= i64::MAX,
    ensures
        end_fits(headers, b - a),
        sent_chunk(headers, file.subrange(a, b)) matches Ok(chunk) && {
            &&& chunk.upload_id == upload_id
            &&& chunk.start_byte == a
            &&& chunk.end_byte == b
            &&& chunk.size == b - a
            &&& chunk.checksum == checksum
            &&& chunk.data == file.subrange(a, b)
            &&& is_of(chunk, upload_id, file)
        },
{
    visible_text_is_read_back(upload_id);
    visible_text_is_read_back(checksum);
    decimal_writes(a as nat);
    assert forall|i: int| 0 <= i < decimal(a as nat).len() implies ' ' <= #[trigger] decimal(
        a as nat,
    )[i] <= '~' by {
        assert(is_digit(decimal(a as nat)[i]));
    }
    visible_text_is_read_back(decimal(a as nat));
    decimal_is_read_back(a as nat);
}

/// A request to begin an upload is refused exactly if the file key or the name
/// has nothing but white space, or the file has no bytes. There is no largest
/// file, and no name or type that is refused.
pub proof fn any_named_file_can_be_uploaded(request: InitRequest)
    ensures
        init_refusal(request) is None <==> {
            &&& exists|i: int|
                0 <= i < request.file_key.len() && !white_space(#[trigger] request.file_key[i])
            &&& exists|i: int|
                0 <= i < request.file_name.len() && !white_space(#[trigger] request.file_name[i])
            &&& request.file_size > 0
        },
        blank(request.file_key) ==> init_refusal(request) == Some(
            Refusal { status: 400, message: "file_key 不能为空"@ },
        ),
        !blank(request.file_key) && blank(request.file_name) ==> init_refusal(request) == Some(
            Refusal { status: 400, message: "file_name 不能为空"@ },
        ),
        !blank(request.file_key) && !blank(request.file_name) && request.file_size <= 0
            ==> init_refusal(request) == Some(
            Refusal { status: 400, message: "file_size 必须大于 0"@ },
        ),
{
    trimming_takes_the_ends_away(request.file_key);
    trimming_takes_the_ends_away(request.file_name);
}

/// A request that is not refused goes on with what the client told, unchanged,
/// and one that is refused asks nothing of the storage.
pub proof fn upload_begins_with_what_was_told(request: InitRequest, token: Seq<char>)
    ensures
        !blank(request.file_key) && !blank(request.file_name) && request.file_size > 0
            ==> init_start(request, token) == InitGoes::Ask(
            Init::Opening { request, token },
            Action::OpenStore,
        ),
        blank(request.file_key) || blank(request.file_name) || request.file_size <= 0 ==> (
        init_start(request, token) matches Step::Refuse(refused) && refused.status == 400),
{
    any_named_file_can_be_uploaded(request);
}

} // verus!
