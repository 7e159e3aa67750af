use fastfile::admin::{no_cache_headers, restart_service, RestartResponse};
use fastfile::error::{AppError, CONFLICT, FORBIDDEN};

#[test]
fn restart_needs_permission_and_a_supervisor() {
    let forbidden = AppError {
        status: FORBIDDEN,
        message: "已禁用网页重启，请设置 FASTFILE_ALLOW_WEB_RESTART=1 并重启服务".to_string(),
    };
    let conflict = AppError {
        status: CONFLICT,
        message: "当前非 systemd 托管环境。为避免重启后拉不起来，拒绝网页重启".to_string(),
    };
    assert_eq!(restart_service(false, true), Err(forbidden));
    assert_eq!(restart_service(true, false), Err(conflict));
    assert_eq!(
        restart_service(true, true),
        Ok(RestartResponse {
            accepted: true,
            message: "重启请求已接受，服务即将重启".to_string(),
        })
    );
}

#[test]
fn answers_stay_out_of_caches() {
    let headers = no_cache_headers();
    let expected = [
        ("cache-control", "no-store, no-cache, must-revalidate, max-age=0"),
        ("pragma", "no-cache"),
        ("expires", "0"),
    ];
    assert_eq!(headers.len(), expected.len());
    for (header, (name, value)) in headers.iter().zip(expected) {
        assert_eq!((header.0.as_str(), header.1.as_str()), (name, value));
    }
}
