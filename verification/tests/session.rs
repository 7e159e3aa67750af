use fastfile::access::Operation;
use fastfile::config::RuntimeConfig;
use fastfile::error::{AppError, FORBIDDEN, INTERNAL_SERVER_ERROR, UNAUTHORIZED};
use fastfile::headers::{get_auth_token, get_cookie_token, header_to_str, RequestHeaders};
use fastfile::session::{is_ttl, Sessions};

fn no_headers() -> RequestHeaders<Vec<u8>> {
    RequestHeaders {
        authorization: None,
        cookie: None,
        range: None,
        upload_id: None,
        start_byte: None,
        chunk_sha256: None,
    }
}

fn with_cookie(value: &str) -> RequestHeaders<Vec<u8>> {
    RequestHeaders { cookie: Some(value.as_bytes().to_vec()), ..no_headers() }
}

fn with_bearer(value: &str) -> RequestHeaders<Vec<u8>> {
    RequestHeaders { authorization: Some(value.as_bytes().to_vec()), ..no_headers() }
}

fn config() -> RuntimeConfig<String> {
    RuntimeConfig { password: "secret".to_string(), session_ttl_seconds: 100 }
}

fn unauthorized() -> AppError {
    AppError { status: UNAUTHORIZED, message: "未授权".to_string() }
}

#[test]
fn header_text_is_visible_ascii() {
    assert_eq!(header_to_str(&Some(b"a b\t~".to_vec())), Some("a b\t~".to_string()));
    assert_eq!(header_to_str(&Some(vec![0x7f])), None);
    assert_eq!(header_to_str(&Some("é".as_bytes().to_vec())), None);
    assert_eq!(header_to_str(&Some(Vec::new())), Some(String::new()));
    assert_eq!(header_to_str(&None), None);
}

#[test]
fn cookie_token_is_the_first_one() {
    assert_eq!(get_cookie_token(&with_cookie("fastfile_token=abc")), Some("abc".to_string()));
    assert_eq!(
        get_cookie_token(&with_cookie("a=1;  fastfile_token=x=y ; fastfile_token=z")),
        Some("x=y".to_string())
    );
    assert_eq!(get_cookie_token(&with_cookie("fastfile_token=")), Some(String::new()));
    assert_eq!(get_cookie_token(&with_cookie("xfastfile_token=abc")), None);
    assert_eq!(get_cookie_token(&with_cookie("fastfile_token=é")), None);
    assert_eq!(get_cookie_token(&no_headers()), None);
}

#[test]
fn bearer_token_goes_before_the_cookie() {
    let mut headers = with_bearer("Bearer  abc ");
    headers.cookie = Some(b"fastfile_token=def".to_vec());
    assert_eq!(get_auth_token(&headers), Some("abc".to_string()));
    headers.authorization = Some(b"Bearer   ".to_vec());
    assert_eq!(get_auth_token(&headers), Some("def".to_string()));
    headers.authorization = Some(b"bearer abc".to_vec());
    assert_eq!(get_auth_token(&headers), Some("def".to_string()));
    assert_eq!(get_auth_token(&no_headers()), None);
}

#[test]
fn right_password_opens_a_session_that_use_prolongs() {
    let mut sessions = Sessions::new();
    let reply = sessions.auth_as("secret", &config(), "tok".to_string(), 1000).unwrap();
    assert_eq!(reply.token, "tok");
    assert_eq!(
        reply.cookie,
        "fastfile_token=tok; Max-Age=100; HttpOnly; SameSite=Strict; Path=/"
    );
    assert_eq!(sessions.end_of("tok"), Some(1100));
    assert_eq!(sessions.require_auth_at(&with_bearer("Bearer tok"), 100, 1099), Ok(()));
    assert_eq!(sessions.end_of("tok"), Some(1199));
    assert_eq!(sessions.require_auth_at(&with_cookie("fastfile_token=tok"), 5, 1100), Ok(()));
    assert_eq!(sessions.end_of("tok"), Some(1105));
}

#[test]
fn session_ends_at_its_end() {
    let mut sessions = Sessions::new();
    sessions.auth_as("secret", &config(), "tok".to_string(), 1000).unwrap();
    sessions.auth_as("secret", &config(), "other".to_string(), 1001).unwrap();
    assert_eq!(
        sessions.require_auth_at(&with_bearer("Bearer tok"), 100, 1100),
        Err(unauthorized())
    );
    assert_eq!(sessions.end_of("tok"), None);
    assert_eq!(sessions.end_of("other"), Some(1101));
}

#[test]
fn unknown_or_missing_token_is_unauthorized() {
    let mut sessions = Sessions::new();
    assert_eq!(sessions.require_auth_at(&no_headers(), 100, 0), Err(unauthorized()));
    assert_eq!(
        sessions.require_auth_at(&with_bearer("Bearer tok"), 100, 0),
        Err(unauthorized())
    );
}

#[test]
fn wrong_password_opens_nothing() {
    let mut sessions = Sessions::new();
    let refused = AppError { status: FORBIDDEN, message: "密码错误".to_string() };
    assert_eq!(sessions.auth_as("Secret", &config(), "tok".to_string(), 0), Err(refused));
    assert_eq!(sessions.end_of("tok"), None);
    assert!(sessions.auth("", &config()).is_err());
}

#[test]
fn token_that_no_header_can_hold_is_an_error() {
    let mut sessions = Sessions::new();
    let failed = AppError {
        status: INTERNAL_SERVER_ERROR,
        message: "Cookie 设置失败".to_string(),
    };
    assert_eq!(sessions.auth_as("secret", &config(), "a\nb".to_string(), 0), Err(failed));
}

#[test]
fn login_use_and_logout_by_the_clock() {
    let mut sessions = Sessions::new();
    let reply = sessions.auth("secret", &config()).unwrap();
    assert_eq!(reply.token.len(), 48);
    let headers = with_cookie(&format!("fastfile_token={}", reply.token));
    assert_eq!(sessions.require_auth(&headers, 100), Ok(()));
    assert!(sessions.end_of(&reply.token).unwrap() > 1_700_000_000);
    assert_eq!(
        sessions.logout(&headers),
        "fastfile_token=; Max-Age=0; HttpOnly; SameSite=Strict; Path=/"
    );
    assert_eq!(sessions.end_of(&reply.token), None);
    assert_eq!(sessions.require_auth(&headers, 100), Err(unauthorized()));
}

#[test]
fn times_that_sessions_may_last() {
    assert!(is_ttl(86_400));
    assert!(is_ttl(i64::MAX - 8_210_266_876_799));
    assert!(!is_ttl(i64::MAX - 8_210_266_876_798));
}

const CLOSED: [Operation; 14] = [
    Operation::GetUiState,
    Operation::UpdateUiState,
    Operation::ResetUiState,
    Operation::GetVideoProgress,
    Operation::UpdateVideoProgress,
    Operation::ListMessages,
    Operation::DeleteMessages,
    Operation::CreateTextMessage,
    Operation::CreateFileMessage,
    Operation::InitUpload,
    Operation::UploadChunk,
    Operation::CompleteUpload,
    Operation::CancelUpload,
    Operation::RestartService,
];

const OPEN: [Operation; 5] = [
    Operation::IndexPage,
    Operation::Healthz,
    Operation::Auth,
    Operation::Logout,
    Operation::DirectFile,
];

#[test]
fn nothing_but_what_is_open_to_all_without_a_session() {
    let mut sessions = Sessions::new();
    for operation in OPEN {
        assert!(operation.is_open_to_all());
        assert_eq!(sessions.permit_at(operation, &no_headers(), 100, 0), Ok(()));
    }
    for operation in CLOSED {
        assert!(!operation.is_open_to_all());
        assert_eq!(
            sessions.permit_at(operation, &with_bearer("Bearer tok"), 100, 0),
            Err(unauthorized())
        );
    }
}

#[test]
fn session_permits_everything_and_is_prolonged_by_use() {
    let mut sessions = Sessions::new();
    sessions.auth_as("secret", &config(), "tok".to_string(), 0).unwrap();
    let headers = with_bearer("Bearer tok");
    assert_eq!(sessions.permit_at(Operation::Healthz, &headers, 100, 50), Ok(()));
    assert_eq!(sessions.end_of("tok"), Some(100));
    for operation in CLOSED {
        assert_eq!(sessions.permit_at(operation, &headers, 100, 50), Ok(()));
    }
    assert_eq!(sessions.end_of("tok"), Some(150));
    assert_eq!(sessions.permit(Operation::ListMessages, &headers, 100), Err(unauthorized()));
}
