//! What a client gets for a link: which bytes of the file, and what the answer
//! tells of them.
use vstd::prelude::*;

use crate::download::{asked, asked_range, file_response, Asked, Served};
use crate::download_laws::{run_download, sent, DownloadStepModel, Reading};
use crate::error::Refusal;
use crate::headers::{header_text, Headers};
use crate::message::Row;
use crate::outside::header_safe;
use crate::range::{granted_range_lies_in_the_file, range_of};
use crate::range_laws::{first_to_last, from_first_on_is_granted};
use crate::range_laws::{from_first_to_last_is_granted, the_last_bytes_are_granted};
use crate::session_laws::{ascii_bytes, visible_text_is_read_back};
use crate::step::{run, Step};
use crate::store::find_file;
use crate::text::{decimal, decimal_writes, is_digit, without_char};
use crate::text_laws::one_character_is_taken_out;

verus! {

/// The text can stand in a header: it has no control characters but the tab.
pub open spec fn no_controls(text: Seq<char>) -> bool {
    forall|i: int|
        0 <= i < text.len() ==> #[trigger] text[i] == '\t' || text[i] >= ' ' && text[i]
            != '\u{7f}'
}

/// The answer tells the type and, where the file is to be saved, the name that
/// its message has.
pub open spec fn tells_of(response: Served, row: Row, download: Option<Seq<char>>) -> bool {
    &&& row.mime_type is Some && no_controls(row.mime_type->0) ==> response.content_type
        == row.mime_type->0
    &&& row.mime_type is None || !no_controls(row.mime_type->0) ==> response.content_type
        == "application/octet-stream"@
    &&& response.accept_ranges == "bytes"@
    &&& response.content_disposition is Some <==> download == Some("1"@)
    &&& response.content_disposition matches Some(text) ==> {
        let name = match row.file_name {
            Some(name) => name,
            None => "file"@,
        };
        &&& no_controls(name) && !name.contains('"') ==> text == "attachment; filename=\""@ + name
            + "\""@
        &&& no_controls(without_char(name, '"')) ==> text == "attachment; filename=\""@
            + without_char(name, '"') + "\""@
        &&& !no_controls(without_char(name, '"')) ==> text == "attachment"@
    }
}

/// The answer brings all bytes of the file.
pub open spec fn brings_all(
    end: (Reading, DownloadStepModel),
    file: Seq<u8>,
    row: Row,
    download: Option<Seq<char>>,
) -> bool {
    end.1 matches Step::Reply(response) && {
        &&& response.status == 200
        &&& response.start == 0
        &&& response.length == file.len()
        &&& response.content_length == decimal(file.len())
        &&& response.content_range is None
        &&& sent(end.0, response) == file
        &&& tells_of(response, row, download)
    }
}

/// The answer brings the bytes from `first` to `last` of the file.
pub open spec fn brings_part(
    end: (Reading, DownloadStepModel),
    file: Seq<u8>,
    first: int,
    last: int,
    row: Row,
    download: Option<Seq<char>>,
) -> bool {
    end.1 matches Step::Reply(response) && {
        &&& response.status == 206
        &&& response.start == first
        &&& response.length == last - first + 1
        &&& response.content_length == decimal((last - first + 1) as nat)
        &&& response.content_range == Some(
            "bytes "@ + decimal(first as nat) + "-"@ + decimal(last as nat) + "/"@ + decimal(
                file.len(),
            ),
        )
        &&& sent(end.0, response) == file.subrange(first, last + 1)
        &&& tells_of(response, row, download)
    }
}

/// The request is refused for a range that lies outside the file.
pub open spec fn refuses_range(end: (Reading, DownloadStepModel)) -> bool {
    end.1 matches Step::Refuse(refused) && refused == (Refusal {
        status: 416,
        message: "Range 超出范围"@,
    })
}

/// The message and the stored bytes of the file.
pub open spec fn stored_as(
    reading: Reading,
    file_id: Seq<char>,
    row: Row,
    file: Seq<u8>,
) -> bool {
    &&& find_file(reading.store.messages, file_id) == Some(row)
    &&& reading.store.files.contains_key(file_id)
    &&& reading.store.files[file_id] == file
    &&& file.len() <= u64::MAX
}

proof fn name_in_quotes(name: Seq<char>)
    ensures
        header_safe("attachment; filename=\""@ + without_char(name, '"') + "\""@) <==> no_controls(
            without_char(name, '"'),
        ),
        !name.contains('"') ==> without_char(name, '"') == name,
{
    reveal_strlit("attachment; filename=\"");
    reveal_strlit("\"");
    let head = "attachment; filename=\""@;
    let bare = without_char(name, '"');
    let text = head + bare + "\""@;
    one_character_is_taken_out(name, '"', seq![]);
    if header_safe(text) {
        assert forall|i: int| 0 <= i < bare.len() implies #[trigger] bare[i] == '\t' || bare[i]
            >= ' ' && bare[i] != '\u{7f}' by {
            assert(text[head.len() + i] == bare[i]);
        }
    }
    if no_controls(bare) {
        assert forall|i: int| 0 <= i < text.len() implies (#[trigger] text[i] >= ' ' && text[i]
            != '\u{7f}') || text[i] == '\u{9}' by {
            if i < head.len() {
                assert(text[i] == head[i]);
            } else if i < head.len() + bare.len() {
                assert(text[i] == bare[i - head.len()]);
            } else {
                assert(text[i] == "\""@[0]);
            }
        }
    }
}

proof fn answer_tells_of_the_message(
    range: Option<(u64, u64)>,
    download: Option<Seq<char>>,
    row: Row,
    total_size: u64,
)
    ensures
        tells_of(
            file_response(
                range,
                download == Some("1"@),
                name_of(row),
                type_of(row),
                total_size,
            ),
            row,
            download,
        ),
{
    name_in_quotes(name_of(row));
    match row.mime_type {
        Some(mime_type) => {
            assert(header_safe(mime_type) <==> no_controls(mime_type));
        },
        None => {},
    }
}

/// The name that the message has for its file.
spec fn name_of(row: Row) -> Seq<char> {
    match row.file_name {
        Some(name) => name,
        None => "file"@,
    }
}

/// The type that the message has for its file.
spec fn type_of(row: Row) -> Seq<char> {
    match row.mime_type {
        Some(mime_type) => mime_type,
        None => "application/octet-stream"@,
    }
}

proof fn download_ends(reading: Reading, request: Asked, row: Row, file: Seq<u8>)
    requires
        stored_as(reading, request.file_id, row, file),
    ensures
        match asked_range(request, file.len() as u64) {
            Ok(range) => {
                let (end, step) = run_download(reading, request);
                let response = file_response(
                    range,
                    request.save,
                    name_of(row),
                    type_of(row),
                    file.len() as u64,
                );
                &&& step == DownloadStepModel::Reply(response)
                &&& end.content == file
                &&& end.at == response.start
            },
            Err(refused) => run_download(reading, request).1 == DownloadStepModel::Refuse(refused),
        },
{
    reveal_with_fuel(run, 6);
    if let Some(header) = request.range {
        granted_range_lies_in_the_file(header, file.len() as u64);
    }
}

proof fn answer_tells_of_the_file(
    reading: Reading,
    file_id: Seq<char>,
    headers: Headers,
    download: Option<Seq<char>>,
    row: Row,
    file: Seq<u8>,
)
    requires
        stored_as(reading, file_id, row, file),
    ensures
        ({
            let request = asked(file_id, headers, download);
            let end = run_download(reading, request);
            match asked_range(request, file.len() as u64) {
                Ok(None) => brings_all(end, file, row, download),
                Ok(Some((first, last))) => brings_part(
                    end,
                    file,
                    first as int,
                    last as int,
                    row,
                    download,
                ),
                Err(refused) => end.1 == DownloadStepModel::Refuse(refused),
            }
        }),
{
    let request = asked(file_id, headers, download);
    let total_size = file.len() as u64;
    download_ends(reading, request, row, file);
    if let Some(header) = request.range {
        granted_range_lies_in_the_file(header, total_size);
    }
    if let Ok(range) = asked_range(request, total_size) {
        answer_tells_of_the_message(range, download, row, total_size);
    }
    assert(file.subrange(0, file.len() as int) =~= file);
}

/// Without a range, or with one that cannot be read as text, all bytes of the
/// file are sent, with the type and under the name that its message has.
pub proof fn whole_file_is_sent(
    reading: Reading,
    file_id: Seq<char>,
    headers: Headers,
    download: Option<Seq<char>>,
    row: Row,
    file: Seq<u8>,
)
    requires
        stored_as(reading, file_id, row, file),
        header_text(headers.range) is None,
    ensures
        brings_all(
            run_download(reading, asked(file_id, headers, download)),
            file,
            row,
            download,
        ),
{
    answer_tells_of_the_file(reading, file_id, headers, download, row, file);
}

/// Whatever the header asks for is what is sent: the bytes of the range that it
/// is granted, the whole file, or the refusal.
pub proof fn granted_bytes_are_sent(
    reading: Reading,
    file_id: Seq<char>,
    headers: Headers,
    download: Option<Seq<char>>,
    row: Row,
    file: Seq<u8>,
    text: Seq<char>,
)
    requires
        stored_as(reading, file_id, row, file),
        header_text(headers.range) == Some(text),
    ensures
        ({
            let end = run_download(reading, asked(file_id, headers, download));
            match range_of(text, file.len() as u64) {
                Ok(None) => brings_all(end, file, row, download),
                Ok(Some((first, last))) => brings_part(
                    end,
                    file,
                    first as int,
                    last as int,
                    row,
                    download,
                ),
                Err(refused) => end.1 == DownloadStepModel::Refuse(refused),
            }
        }),
{
    answer_tells_of_the_file(reading, file_id, headers, download, row, file);
}

proof fn decimal_is_visible(n: nat)
    ensures
        forall|i: int| 0 <= i < decimal(n).len() ==> ' ' <= #[trigger] decimal(n)[i] <= '~',
{
    decimal_writes(n);
    assert forall|i: int| 0 <= i < decimal(n).len() implies ' ' <= #[trigger] decimal(n)[i]
        <= '~' by {
        assert(is_digit(decimal(n)[i]));
    }
}

proof fn range_is_read(first: Seq<char>, last: Seq<char>)
    requires
        forall|i: int| 0 <= i < first.len() ==> ' ' <= #[trigger] first[i] <= '~',
        forall|i: int| 0 <= i < last.len() ==> ' ' <= #[trigger] last[i] <= '~',
    ensures
        header_text(Some(ascii_bytes(first_to_last(first, last)))) == Some(
            first_to_last(first, last),
        ),
{
    let text = first_to_last(first, last);
    assert forall|i: int| 0 <= i < text.len() implies ' ' <= #[trigger] text[i] <= '~' by {
        if 6 <= i < 6 + first.len() {
            assert(text[i] == first[i - 6]);
        } else if i >= 7 + first.len() {
            assert(text[i] == last[i - 7 - first.len()]);
        }
    }
    visible_text_is_read_back(text);
}

/// For `bytes=a-b` the bytes from `a` to `b` are sent, or to the end of the file
/// where `b` lies behind it, of a file of any size.
pub proof fn bytes_from_first_to_last_are_sent(
    reading: Reading,
    file_id: Seq<char>,
    headers: Headers,
    download: Option<Seq<char>>,
    row: Row,
    file: Seq<u8>,
    a: u64,
    b: u64,
)
    requires
        stored_as(reading, file_id, row, file),
        file.len() > 0,
        headers.range == Some(ascii_bytes(first_to_last(decimal(a as nat), decimal(b as nat)))),
    ensures
        ({
            let end = run_download(reading, asked(file_id, headers, download));
            if a <= b && a < file.len() {
                let last = if b < file.len() {
                    b as int
                } else {
                    file.len() - 1
                };
                brings_part(end, file, a as int, last, row, download)
            } else {
                refuses_range(end)
            }
        }),
{
    decimal_is_visible(a as nat);
    decimal_is_visible(b as nat);
    range_is_read(decimal(a as nat), decimal(b as nat));
    from_first_to_last_is_granted(a, b, file.len() as u64);
    answer_tells_of_the_file(reading, file_id, headers, download, row, file);
}

/// For `bytes=a-` all bytes from `a` on are sent.
pub proof fn bytes_from_first_on_are_sent(
    reading: Reading,
    file_id: Seq<char>,
    headers: Headers,
    download: Option<Seq<char>>,
    row: Row,
    file: Seq<u8>,
    a: u64,
)
    requires
        stored_as(reading, file_id, row, file),
        file.len() > 0,
        headers.range == Some(ascii_bytes(first_to_last(decimal(a as nat), seq![]))),
    ensures
        ({
            let end = run_download(reading, asked(file_id, headers, download));
            if a < file.len() {
                brings_part(end, file, a as int, file.len() - 1, row, download)
            } else {
                refuses_range(end)
            }
        }),
{
    decimal_is_visible(a as nat);
    range_is_read(decimal(a as nat), seq![]);
    from_first_on_is_granted(a, file.len() as u64);
    answer_tells_of_the_file(reading, file_id, headers, download, row, file);
}

/// For `bytes=-n` the last `n` bytes are sent, or all where the file has fewer.
pub proof fn last_bytes_are_sent(
    reading: Reading,
    file_id: Seq<char>,
    headers: Headers,
    download: Option<Seq<char>>,
    row: Row,
    file: Seq<u8>,
    n: u64,
)
    requires
        stored_as(reading, file_id, row, file),
        file.len() > 0,
        headers.range == Some(ascii_bytes(first_to_last(seq![], decimal(n as nat)))),
    ensures
        ({
            let end = run_download(reading, asked(file_id, headers, download));
            if n == 0 {
                refuses_range(end)
            } else if n < file.len() {
                brings_part(end, file, file.len() - n, file.len() - 1, row, download)
            } else {
                brings_part(end, file, 0, file.len() - 1, row, download)
            }
        }),
{
    decimal_is_visible(n as nat);
    range_is_read(seq![], decimal(n as nat));
    the_last_bytes_are_granted(n, file.len() as u64);
    answer_tells_of_the_file(reading, file_id, headers, download, row, file);
}

/// The ranges `0..k` and `k..` of a file, sent one after the other, are the file.
pub proof fn two_ranges_make_the_file(
    reading: Reading,
    file_id: Seq<char>,
    download: Option<Seq<char>>,
    head: Headers,
    tail: Headers,
    row: Row,
    file: Seq<u8>,
    k: u64,
)
    requires
        stored_as(reading, file_id, row, file),
        0 < k < file.len(),
        head.range == Some(ascii_bytes(first_to_last(decimal(0), decimal((k - 1) as nat)))),
        tail.range == Some(ascii_bytes(first_to_last(decimal(k as nat), seq![]))),
    ensures
        ({
            let first = run_download(reading, asked(file_id, head, download));
            let second = run_download(reading, asked(file_id, tail, download));
            &&& first.1 is Reply
            &&& second.1 is Reply
            &&& sent(first.0, first.1->Reply_0) + sent(second.0, second.1->Reply_0) == file
        }),
{
    bytes_from_first_to_last_are_sent(
        reading,
        file_id,
        head,
        download,
        row,
        file,
        0,
        (k - 1) as u64,
    );
    bytes_from_first_on_are_sent(reading, file_id, tail, download, row, file, k);
    assert(file.subrange(0, k as int) + file.subrange(k as int, file.len() as int) =~= file);
}

} // verus!
