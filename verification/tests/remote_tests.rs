use snek_hq::remote::{check_status, fetch_uid, FetchError, Reply, StatusResponse, UidResponse};

fn status_body(status: bool) -> Option<StatusResponse> {
    Some(StatusResponse { status })
}

fn uid_body(uid: &str) -> Option<UidResponse> {
    Some(UidResponse { uid: uid.to_string() })
}

#[test]
fn reply_unreachable_is_a_transport_error() {
    let reply: Reply<StatusResponse> = Reply::Unreachable;
    assert!(matches!(reply.into_result(), Err(FetchError::Transport)));
}

#[test]
fn reply_with_success_code_and_body_is_ok() {
    let reply = Reply::Answered { code: 200, body: status_body(true) };
    assert!(matches!(reply.into_result(), Ok(StatusResponse { status: true })));
}

#[test]
fn reply_with_malformed_body_is_a_decode_error() {
    let reply: Reply<StatusResponse> = Reply::Answered { code: 200, body: None };
    assert!(matches!(reply.into_result(), Err(FetchError::Decode)));
}

#[test]
fn reply_outside_2xx_is_a_failure_whatever_the_body() {
    let with_body = Reply::Answered { code: 500, body: status_body(true) };
    assert!(matches!(with_body.into_result(), Err(FetchError::Transport)));
    let without_body: Reply<StatusResponse> = Reply::Answered { code: 404, body: None };
    assert!(matches!(without_body.into_result(), Err(FetchError::Transport)));
}

#[test]
fn reply_success_range_is_200_to_299() {
    let codes: Vec<(u16, bool)> = vec![
        (0, false),
        (100, false),
        (199, false),
        (200, true),
        (204, true),
        (299, true),
        (300, false),
        (301, false),
        (400, false),
        (503, false),
        (65535, false),
    ];
    for (code, success) in codes {
        let reply = Reply::Answered { code, body: status_body(true) };
        assert_eq!(reply.into_result().is_ok(), success, "code {}", code);
    }
}

#[test]
fn check_status_returns_the_reported_flag() {
    assert_eq!(check_status(Reply::Answered { code: 200, body: status_body(true) }), Ok(true));
    assert_eq!(check_status(Reply::Answered { code: 200, body: status_body(false) }), Ok(false));
}

#[test]
fn check_status_transport_failure_line() {
    assert_eq!(check_status(Reply::Unreachable), Err("Failed to fetch status".to_string()));
    assert_eq!(
        check_status(Reply::Answered { code: 502, body: status_body(true) }),
        Err("Failed to fetch status".to_string())
    );
}

#[test]
fn check_status_decode_failure_line() {
    assert_eq!(
        check_status(Reply::Answered { code: 200, body: None }),
        Err("Failed to parse status response".to_string())
    );
}

#[test]
fn fetch_uid_returns_the_identifier() {
    assert_eq!(
        fetch_uid(Reply::Answered { code: 200, body: uid_body("abc123") }),
        Ok("abc123".to_string())
    );
    assert_eq!(fetch_uid(Reply::Answered { code: 201, body: uid_body("") }), Ok(String::new()));
}

#[test]
fn fetch_uid_transport_failure_line() {
    assert_eq!(fetch_uid(Reply::Unreachable), Err("Failed to fetch UID".to_string()));
    assert_eq!(
        fetch_uid(Reply::Answered { code: 500, body: uid_body("abc123") }),
        Err("Failed to fetch UID".to_string())
    );
}

#[test]
fn fetch_uid_decode_failure_line() {
    assert_eq!(
        fetch_uid(Reply::Answered { code: 200, body: None }),
        Err("Failed to parse UID response".to_string())
    );
}
