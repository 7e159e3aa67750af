//! What is read from the headers of a request.
use vstd::prelude::*;

use crate::text::{after_prefix, chars_of, find_char, first_index_is_first};
use crate::text::{pieces, string_of, strip_prefix, trim, trimmed};

verus! {

/// The headers of a request that the service reads, each as it was sent. `B` is
/// the type of bytes, `Vec<u8>` or its mathematical value.
#[derive(Debug, PartialEq, Eq)]
pub struct RequestHeaders<B> {
    pub authorization: Option<B>,
    pub cookie: Option<B>,
    pub range: Option<B>,
    pub upload_id: Option<B>,
    pub start_byte: Option<B>,
    pub chunk_sha256: Option<B>,
}

impl<B: DeepView> DeepView for RequestHeaders<B> {
    type V = RequestHeaders<B::V>;

    open spec fn deep_view(&self) -> Self::V {
        RequestHeaders {
            authorization: self.authorization.deep_view(),
            cookie: self.cookie.deep_view(),
            range: self.range.deep_view(),
            upload_id: self.upload_id.deep_view(),
            start_byte: self.start_byte.deep_view(),
            chunk_sha256: self.chunk_sha256.deep_view(),
        }
    }
}

/// Headers as a mathematical value.
pub type Headers = RequestHeaders<Seq<u8>>;

/// A visible character of ASCII, the space or the tab.
pub open spec fn visible(b: u8) -> bool {
    32 <= b < 127 || b == 9
}

/// The text of a header, if the header is there and holds only visible
/// characters of ASCII, spaces and tabs.
pub open spec fn header_text(value: Option<Seq<u8>>) -> Option<Seq<char>> {
    match value {
        Some(bytes) => if forall|i: int| 0 <= i < bytes.len() ==> visible(#[trigger] bytes[i]) {
            Some(Seq::new(bytes.len(), |i: int| bytes[i] as char))
        } else {
            None
        },
        None => None,
    }
}

/// The text of a header, if the header is there and holds only visible
/// characters of ASCII, spaces and tabs.
pub fn header_to_str(value: &Option<Vec<u8>>) -> (r: Option<String>)
    ensures
        r.deep_view() == header_text(value.deep_view()),
{
    match value {
        Some(bytes) => {
            let ghost raw = bytes.deep_view();
            let mut out = String::new();
            let mut i: usize = 0;
            while i < bytes.len()
                invariant
                    raw == bytes.deep_view(),
                    value.deep_view() == Some(raw),
                    i <= bytes@.len() == raw.len(),
                    out@.len() == i,
                    forall|j: int| 0 <= j < i ==> visible(#[trigger] raw[j]),
                    forall|j: int| 0 <= j < i ==> out@[j] == raw[j] as char,
                decreases bytes.len() - i,
            {
                let b = bytes[i];
                assert(raw[i as int] == b);
                if !((32 <= b && b < 127) || b == 9) {
                    assert(!visible(raw[i as int]));
                    return None;
                }
                out.push(b as char);
                i += 1;
            }
            assert(out@ =~= Seq::new(raw.len(), |i: int| raw[i] as char));
            Some(out)
        },
        None => None,
    }
}

/// The name of the cookie that holds the token, and the sign behind it.
pub open spec fn cookie_prefix() -> Seq<char> {
    "fastfile_token="@
}

/// What follows the name of the cookie in the first of `parts` that begins with
/// it, white space at both ends aside.
pub open spec fn first_token(parts: Seq<Seq<char>>) -> Option<Seq<char>>
    decreases parts.len(),
{
    if parts.len() == 0 {
        None
    } else {
        match after_prefix(trimmed(parts[0]), cookie_prefix()) {
            Some(token) => Some(token),
            None => first_token(parts.skip(1)),
        }
    }
}

/// The token in the cookies of the request, if there is one.
pub open spec fn cookie_token(headers: Headers) -> Option<Seq<char>> {
    match header_text(headers.cookie) {
        Some(raw) => first_token(pieces(raw, ';')),
        None => None,
    }
}

/// The token in the `Authorization` header of the request, if there is one that
/// is not empty.
pub open spec fn bearer_token(headers: Headers) -> Option<Seq<char>> {
    match header_text(headers.authorization) {
        Some(raw) => match after_prefix(raw, "Bearer "@) {
            Some(rest) => if trimmed(rest).len() > 0 {
                Some(trimmed(rest))
            } else {
                None
            },
            None => None,
        },
        None => None,
    }
}

/// The token of the request: that of the `Authorization` header, else that of
/// the cookies.
pub open spec fn auth_token(headers: Headers) -> Option<Seq<char>> {
    match bearer_token(headers) {
        Some(token) => Some(token),
        None => cookie_token(headers),
    }
}

/// The token in the cookies of the request, if there is one.
pub fn get_cookie_token(headers: &RequestHeaders<Vec<u8>>) -> (r: Option<String>)
    ensures
        r.deep_view() == cookie_token(headers.deep_view()),
{
    let raw = match header_to_str(&headers.cookie) {
        Some(raw) => raw,
        None => {
            return None;
        },
    };
    let chars = chars_of(raw.as_str());
    let mut from: usize = 0;
    assert(chars@.skip(0) =~= chars@);
    loop
        invariant
            chars@ == raw@,
            from <= chars@.len(),
            header_text(headers.deep_view().cookie) == Some(raw@),
            first_token(pieces(chars@.skip(from as int), ';')) == cookie_token(
                headers.deep_view(),
            ),
        decreases chars.len() - from,
    {
        let to = find_char(&chars, from, ';');
        let ghost rest = chars@.skip(from as int);
        let piece = trim(string_of(&chars, from, to).as_str());
        let token = strip_prefix(piece.as_str(), "fastfile_token=");
        proof {
            first_index_is_first(rest, ';');
            assert(chars@.subrange(from as int, to as int) =~= rest.take(to - from));
            if to < chars@.len() {
                assert(rest.skip(to - from + 1) =~= chars@.skip(to + 1));
                assert(pieces(rest, ';').skip(1) =~= pieces(chars@.skip(to + 1), ';'));
            } else {
                assert(rest.take(to - from) =~= rest);
                assert(pieces(rest, ';').skip(1) =~= Seq::<Seq<char>>::empty());
                assert(first_token(Seq::<Seq<char>>::empty()) is None);
            }
        }
        match token {
            Some(token) => {
                return Some(token);
            },
            None => {},
        }
        if to >= chars.len() {
            return None;
        }
        from = to + 1;
    }
}

/// The token of the request, if there is one.
pub fn get_auth_token(headers: &RequestHeaders<Vec<u8>>) -> (r: Option<String>)
    ensures
        r.deep_view() == auth_token(headers.deep_view()),
{
    match header_to_str(&headers.authorization) {
        Some(raw) => match strip_prefix(raw.as_str(), "Bearer ") {
            Some(rest) => {
                let token = trim(rest.as_str());
                if !token.as_str().is_empty() {
                    return Some(token);
                }
            },
            None => {},
        },
        None => {},
    }
    get_cookie_token(headers)
}

} // verus!
