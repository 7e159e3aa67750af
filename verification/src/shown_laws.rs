//! What a client is shown of the messages: what was sent, as it was sent.
use vstd::prelude::*;
use vstd::utf8::encode_utf8;

use crate::list::all_shown;
use crate::message::{shown, MessageDto, Row};
use crate::message_laws::{file_field, file_is_added, joined, list_shows_all_messages};
use crate::message_laws::{run_list, run_post, text_is_added, Form, FormField};
use crate::outside::percent_text;
use crate::post::{file_start, text_start};
use crate::step::Step;
use crate::store::{find_file, Store};

verus! {

/// A message shows what its row holds: each field as it is, and the links of its
/// file where it has one.
pub open spec fn shows(message: MessageDto<Seq<char>>, row: Row) -> bool {
    &&& message.id == row.id
    &&& message.kind == row.kind
    &&& message.text == row.text_content
    &&& message.created_at == row.created_at
    &&& message.file_id == row.file_id
    &&& message.file_name == row.file_name
    &&& message.file_size == row.file_size
    &&& message.mime_type == row.mime_type
    &&& row.file_id is None ==> message.file_url is None && message.download_url is None
    &&& row.file_id matches Some(file_id) ==> {
        let name = match row.file_name {
            Some(name) => name,
            None => "file"@,
        };
        let url = "/f/"@ + file_id + "/"@ + percent_text(encode_utf8(name));
        &&& message.file_url == Some(url)
        &&& message.download_url == Some(url + "?download=1"@)
    }
}

/// Every row is shown as it is.
pub proof fn rows_are_shown_as_they_are(row: Row)
    ensures
        shows(shown(row), row),
{
}

/// The list has one message for each row, in the same order, and each shows its
/// row.
pub proof fn the_list_shows_every_row(store: Store)
    ensures
        run_list(store).0 == store,
        run_list(store).1 matches Step::Reply(list) && {
            &&& list.len() == store.messages.len()
            &&& forall|i: int| 0 <= i < list.len() ==> shows(#[trigger] list[i], store.messages[i])
        },
{
    list_shows_all_messages(store);
}

/// A text that is posted is, character for character, the text of the answer and
/// of the last message in the list. All that was there before is shown as before.
pub proof fn a_posted_text_is_shown_as_it_was_sent(form: Form, text: Seq<char>, now: Seq<char>)
    requires
        0 <= form.store.last_id,
        form.store.has_room(),
    ensures
        ({
            let (after, end) = run_post(form, text_start(text), now, 4);
            let before = run_list(form.store).1;
            let list = run_list(after.store).1;
            &&& end matches Step::Reply(answer) && {
                &&& answer.text == Some(text)
                &&& answer.kind == "text"@
                &&& answer.created_at == now
                &&& answer.id == form.store.last_id + 1
                &&& answer.file_id is None && answer.file_name is None && answer.file_size is None
                &&& answer.mime_type is None && answer.file_url is None
                &&& answer.download_url is None
                &&& list->Reply_0 == before->Reply_0.push(answer)
            }
            &&& list is Reply && before is Reply
            &&& after.store.files == form.store.files
            &&& after.store.sessions == form.store.sessions
        }),
{
    text_is_added(form, text, now);
    let (after, end) = run_post(form, text_start(text), now, 4);
    list_shows_all_messages(form.store);
    list_shows_all_messages(after.store);
    assert(all_shown(after.store.messages) =~= all_shown(form.store.messages).push(
        end->Reply_0,
    ));
}

/// The field that holds the file is the first of that name.
pub proof fn the_first_file_field_counts(fields: Seq<FormField>)
    ensures
        0 <= file_field(fields) <= fields.len(),
        forall|i: int|
            0 <= i < file_field(fields) ==> (#[trigger] fields[i]).name != Some("file"@),
        file_field(fields) < fields.len() ==> fields[file_field(fields)].name == Some("file"@),
    decreases fields.len(),
{
    if fields.len() > 0 && fields[0].name != Some("file"@) {
        let rest = fields.skip(1);
        the_first_file_field_counts(rest);
        assert forall|i: int| 0 <= i < file_field(fields) implies (#[trigger] fields[i]).name
            != Some("file"@) by {
            if i > 0 {
                assert(fields[i] == rest[i - 1]);
            }
        }
        if file_field(fields) < fields.len() {
            assert(fields[file_field(fields)] == rest[file_field(rest)]);
        }
    }
}

/// A file that is posted in the field `at` of a form, however large, is stored
/// byte for byte. The answer, and the last message in the list, have the name and
/// the type that the field tells, and the size of the file.
pub proof fn a_posted_file_is_shown_as_it_was_sent(
    form: Form,
    at: int,
    file_id: Seq<char>,
    now: Seq<char>,
    fuel: nat,
)
    requires
        0 <= form.store.last_id,
        form.store.has_room(),
        find_file(form.store.messages, file_id) is None,
        0 <= at < form.fields.len(),
        form.fields[at].name == Some("file"@),
        forall|i: int| 0 <= i < at ==> (#[trigger] form.fields[i]).name != Some("file"@),
        joined(form.fields[at].chunks).len() <= i64::MAX,
        fuel >= form.fields.len() + 2 * form.fields[at].chunks.len() + 6,
    ensures
        ({
            let field = form.fields[at];
            let content = joined(field.chunks);
            let (after, end) = run_post(form, file_start(file_id), now, fuel);
            let before = run_list(form.store).1;
            let list = run_list(after.store).1;
            &&& after.store.files == form.store.files.insert(file_id, content)
            &&& end matches Step::Reply(answer) && {
                &&& answer.text is None
                &&& answer.kind == "file"@
                &&& answer.created_at == now
                &&& answer.id == form.store.last_id + 1
                &&& answer.file_id == Some(file_id)
                &&& answer.file_size == Some(content.len() as i64)
                &&& field.file_name is Some ==> answer.file_name == field.file_name
                &&& field.file_name is None ==> answer.file_name == Some("file"@)
                &&& field.content_type is Some ==> answer.mime_type == field.content_type
                &&& field.content_type is None ==> answer.mime_type == Some(
                    "application/octet-stream"@,
                )
                &&& list->Reply_0 == before->Reply_0.push(answer)
            }
            &&& list is Reply && before is Reply
            &&& after.store.sessions == form.store.sessions
        }),
{
    the_first_file_field_counts(form.fields);
    let found = file_field(form.fields);
    if found < at {
        assert(form.fields[found].name == Some("file"@));
    }
    assert(found == at);
    file_is_added(form, file_id, now, fuel);
    let (after, end) = run_post(form, file_start(file_id), now, fuel);
    list_shows_all_messages(form.store);
    list_shows_all_messages(after.store);
    assert(all_shown(after.store.messages) =~= all_shown(form.store.messages).push(
        end->Reply_0,
    ));
}

/// In a link a name is written byte by byte: letters, digits and the signs `-`,
/// `_`, `.` and `~` as they are, every other byte as `%` and its two digits.
pub proof fn names_in_links(b: u8, rest: Seq<u8>)
    ensures
        percent_text(seq![]) == Seq::<char>::empty(),
        65 <= b <= 90 || 97 <= b <= 122 || 48 <= b <= 57 || b == 45 || b == 95 || b == 46 || b
            == 126 ==> percent_text(seq![b] + rest) == seq![b as char] + percent_text(rest),
        !(65 <= b <= 90 || 97 <= b <= 122 || 48 <= b <= 57 || b == 45 || b == 95 || b == 46 || b
            == 126) ==> percent_text(seq![b] + rest) == seq![
            '%',
            "0123456789ABCDEF"@[(b / 16) as int],
            "0123456789ABCDEF"@[(b % 16) as int],
        ] + percent_text(rest),
{
    let whole = seq![b] + rest;
    assert(whole.skip(1) =~= rest);
    assert(percent_text(seq![]) =~= Seq::<char>::empty());
    reveal_strlit("0123456789ABCDEF");
}

} // verus!
