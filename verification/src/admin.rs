//! Restarting the service from the web, and what every answer tells caches.
use vstd::prelude::*;

use crate::error::{refusal, AppError, Refusal, CONFLICT, FORBIDDEN};
use crate::step::outcome;

verus! {

/// The answer to a request to restart the service.
#[derive(Debug, PartialEq, Eq)]
pub struct RestartResponse<S> {
    pub accepted: bool,
    pub message: S,
}

impl<S: DeepView> DeepView for RestartResponse<S> {
    type V = RestartResponse<S::V>;

    open spec fn deep_view(&self) -> Self::V {
        RestartResponse { accepted: self.accepted, message: self.message.deep_view() }
    }
}

/// The answer to a request to restart the service, given whether that is allowed
/// and whether something is there that starts the service again.
pub open spec fn restart_answer(allowed: bool, supervised: bool) -> Result<
    RestartResponse<Seq<char>>,
    Refusal,
> {
    if !allowed {
        Err(
            refusal(
                FORBIDDEN,
                "已禁用网页重启，请设置 FASTFILE_ALLOW_WEB_RESTART=1 并重启服务"@,
            ),
        )
    } else if !supervised {
        Err(
            refusal(
                CONFLICT,
                "当前非 systemd 托管环境。为避免重启后拉不起来，拒绝网页重启"@,
            ),
        )
    } else {
        Ok(RestartResponse { accepted: true, message: "重启请求已接受，服务即将重启"@ })
    }
}

/// The answer to a request to restart the service, given whether that is allowed
/// and whether something is there that starts the service again.
pub fn restart_service(allowed: bool, supervised: bool) -> (r: Result<
    RestartResponse<String>,
    AppError,
>)
    ensures
        outcome(r) == restart_answer(allowed, supervised),
{
    if !allowed {
        return Err(
            AppError::new(
                FORBIDDEN,
                "已禁用网页重启，请设置 FASTFILE_ALLOW_WEB_RESTART=1 并重启服务",
            ),
        );
    }
    if !supervised {
        return Err(
            AppError::new(
                CONFLICT,
                "当前非 systemd 托管环境。为避免重启后拉不起来，拒绝网页重启",
            ),
        );
    }
    Ok(
        RestartResponse { accepted: true, message: "重启请求已接受，服务即将重启".to_owned() },
    )
}

/// The headers that keep every answer out of caches: names and values.
pub open spec fn no_cache() -> Seq<(Seq<char>, Seq<char>)> {
    seq![
        ("cache-control"@, "no-store, no-cache, must-revalidate, max-age=0"@),
        ("pragma"@, "no-cache"@),
        ("expires"@, "0"@),
    ]
}

/// The headers that keep every answer out of caches: names and values.
pub fn no_cache_headers() -> (r: Vec<(String, String)>)
    ensures
        r.deep_view() == no_cache(),
{
    let mut out: Vec<(String, String)> = Vec::new();
    out.push(
        (
            "cache-control".to_owned(),
            "no-store, no-cache, must-revalidate, max-age=0".to_owned(),
        ),
    );
    out.push(("pragma".to_owned(), "no-cache".to_owned()));
    out.push(("expires".to_owned(), "0".to_owned()));
    assert(out.deep_view() =~= no_cache());
    out
}

} // verus!
