//! What may be done without a session, and what may not.
use vstd::prelude::*;

use crate::config::RuntimeConfig;
use crate::error::AppError;
use crate::headers::{auth_token, Headers, RequestHeaders};
use crate::outside::LAST_SECOND;
use crate::parts::fits_i64;
use crate::session::{let_in, sessions_after, sessions_after_auth, sessions_after_logout};
use crate::session::{ttl_fits, unauthorized, Sessions};

verus! {

/// What can be asked of the service.
#[derive(Debug, Clone, Copy, PartialEq, Eq)]
pub enum Operation {
    IndexPage,
    Healthz,
    Auth,
    Logout,
    DirectFile,
    GetUiState,
    UpdateUiState,
    ResetUiState,
    GetVideoProgress,
    UpdateVideoProgress,
    ListMessages,
    DeleteMessages,
    CreateTextMessage,
    CreateFileMessage,
    InitUpload,
    UploadChunk,
    CompleteUpload,
    CancelUpload,
    RestartService,
}

/// The operation is open to all: the page, the sign of life, coming and going,
/// and the links to files.
pub open spec fn open_to_all(operation: Operation) -> bool {
    operation is IndexPage || operation is Healthz || operation is Auth || operation is Logout
        || operation is DirectFile
}

/// The request may have the operation at the time `now`.
pub open spec fn permitted(
    operation: Operation,
    headers: Headers,
    sessions: Map<Seq<char>, i64>,
    now: i64,
) -> bool {
    open_to_all(operation) || let_in(headers, sessions, now)
}

/// The sessions after the operation was asked for at the time `now`.
pub open spec fn sessions_after_asking(
    operation: Operation,
    headers: Headers,
    sessions: Map<Seq<char>, i64>,
    ttl: i64,
    now: i64,
) -> Map<Seq<char>, i64> {
    if open_to_all(operation) {
        sessions
    } else {
        sessions_after(headers, sessions, ttl, now)
    }
}

impl Operation {
    /// Whether the operation is open to all.
    pub fn is_open_to_all(&self) -> (r: bool)
        ensures
            r == open_to_all(*self),
    {
        matches!(
            self,
            Operation::IndexPage | Operation::Healthz | Operation::Auth | Operation::Logout
            | Operation::DirectFile
        )
    }
}

impl Sessions {
    /// Whether the request may have the operation at the time `now`.
    pub fn permit_at(
        &mut self,
        operation: Operation,
        headers: &RequestHeaders<Vec<u8>>,
        ttl: i64,
        now: i64,
    ) -> (r: Result<(), AppError>)
        requires
            !open_to_all(operation) && let_in(headers.deep_view(), old(self)@, now) ==> fits_i64(
                now + ttl,
            ),
        ensures
            r is Ok <==> permitted(operation, headers.deep_view(), old(self)@, now),
            r matches Err(error) ==> error.deep_view() == unauthorized(),
            final(self)@ == sessions_after_asking(
                operation,
                headers.deep_view(),
                old(self)@,
                ttl,
                now,
            ),
    {
        if operation.is_open_to_all() {
            Ok(())
        } else {
            self.require_auth_at(headers, ttl, now)
        }
    }

    /// Whether the request may have the operation now.
    pub fn permit(
        &mut self,
        operation: Operation,
        headers: &RequestHeaders<Vec<u8>>,
        ttl: i64,
    ) -> (r: Result<(), AppError>)
        requires
            open_to_all(operation) || (auth_token(headers.deep_view()) matches Some(token)
                && old(self)@.contains_key(token) ==> ttl_fits(ttl)),
        ensures
            exists|now: i64|
                0 <= now <= LAST_SECOND && (r is Ok <==> permitted(
                    operation,
                    headers.deep_view(),
                    old(self)@,
                    now,
                )) && final(self)@ == #[trigger] sessions_after_asking(
                    operation,
                    headers.deep_view(),
                    old(self)@,
                    ttl,
                    now,
                ),
            r matches Err(error) ==> error.deep_view() == unauthorized(),
    {
        if operation.is_open_to_all() {
            assert(old(self)@ == sessions_after_asking(
                operation,
                headers.deep_view(),
                old(self)@,
                ttl,
                0,
            ));
            Ok(())
        } else {
            let r = self.require_auth(headers, ttl);
            proof {
                let now = choose|now: i64|
                    0 <= now <= LAST_SECOND && (r is Ok <==> let_in(
                        headers.deep_view(),
                        old(self)@,
                        now,
                    )) && self@ == #[trigger] sessions_after(
                        headers.deep_view(),
                        old(self)@,
                        ttl,
                        now,
                    );
                assert(self@ == sessions_after_asking(
                    operation,
                    headers.deep_view(),
                    old(self)@,
                    ttl,
                    now,
                ));
            }
            r
        }
    }
}

/// Where no session is open, a request gets nothing but what is open to all.
pub proof fn nothing_without_a_session(
    operation: Operation,
    headers: Headers,
    sessions: Map<Seq<char>, i64>,
    now: i64,
)
    requires
        forall|token: Seq<char>| #[trigger] sessions.contains_key(token) ==> sessions[token] <= now,
    ensures
        permitted(operation, headers, sessions, now) <==> open_to_all(operation),
{
}

/// Only the right password opens a session: whatever else is asked for, every
/// token that is known afterwards was known before.
pub proof fn only_the_password_opens_sessions(
    operation: Operation,
    password: Seq<char>,
    config: RuntimeConfig<Seq<char>>,
    fresh: Seq<char>,
    headers: Headers,
    sessions: Map<Seq<char>, i64>,
    now: i64,
    token: Seq<char>,
)
    requires
        !sessions.contains_key(token),
    ensures
        !sessions_after_asking(
            operation,
            headers,
            sessions,
            config.session_ttl_seconds,
            now,
        ).contains_key(token),
        !sessions_after_logout(headers, sessions).contains_key(token),
        sessions_after_auth(password, config, fresh, sessions, now).contains_key(token)
            <==> password == config.password && token == fresh,
{
}

} // verus!
