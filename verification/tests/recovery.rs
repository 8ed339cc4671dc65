use http_error::{
    bad_request, internal_server_error, recover, Cause, HttpError, Rejection, ResultExt,
    StatusCode,
};

fn recover_ours(e: HttpError) -> (http_error::Reply, Vec<String>) {
    match recover(Rejection::Http(e)) {
        Ok(p) => p,
        Err(_) => panic!("a recognized token must be recovered"),
    }
}

#[test]
fn body_is_reason_phrase_without_message() {
    let (reply, _) = recover_ours(HttpError::new(StatusCode::not_found()));
    assert_eq!(reply.status().code(), 404);
    assert_eq!(reply.body(), "Not Found");

    let (reply, _) = recover_ours(HttpError::new(StatusCode::no_content()));
    assert_eq!(reply.status().code(), 204);
    assert_eq!(reply.body(), "No Content");
}

#[test]
fn body_is_empty_without_message_or_phrase() {
    // 599 lies in the accepted range but the standard gives it no phrase
    let code = StatusCode::from_u16(599).unwrap();
    let (reply, _) = recover_ours(HttpError::new(code));
    assert_eq!(reply.status().code(), 599);
    assert_eq!(reply.body(), "");
}

#[test]
fn body_is_message_whatever_the_phrase() {
    let (reply, _) = recover_ours(
        HttpError::new(StatusCode::not_found()).with_message("nothing here".to_string()),
    );
    assert_eq!(reply.status().code(), 404);
    assert_eq!(reply.body(), "nothing here");
}

#[test]
fn cause_changes_log_but_never_the_body() {
    let plain = recover_ours(HttpError::new(StatusCode::forbidden()));
    let with_cause = recover_ours(
        HttpError::new(StatusCode::forbidden()).with_cause(Cause::new("token expired".to_string())),
    );
    assert_eq!(plain.0.body(), with_cause.0.body());
    assert_eq!(plain.0.status().code(), with_cause.0.status().code());
    assert_eq!(plain.1.len(), 1);
    assert_eq!(with_cause.1.len(), 2);
    assert!(!with_cause.0.body().contains("token expired"));
    assert!(with_cause.1[1].contains("token expired"));
}

#[test]
fn foreign_rejection_passes_through_unchanged() {
    match recover(Rejection::Foreign(9)) {
        Ok(_) => panic!("a foreign token must not be recovered"),
        Err(Rejection::Foreign(id)) => assert_eq!(id, 9),
        Err(Rejection::Http(_)) => panic!("a foreign token must come back as it was"),
    }
}

#[test]
fn chain_of_depth_two_logs_three_lines_in_order() {
    let chain = Cause::wrap(
        "query failed".to_string(),
        Cause::new("connection reset".to_string()),
    );
    let (_, lines) = recover_ours(internal_server_error(chain));
    assert_eq!(lines.len(), 3);
    assert_eq!(lines[0], "fail with status 500");
    assert_eq!(lines[1], "  -> query failed");
    assert_eq!(lines[2], "  -> connection reset");
}

#[test]
fn display_line_names_the_status() {
    let e = HttpError::new(StatusCode::not_found());
    assert_eq!(e.display_line(), "fail with status 404");
    let (_, lines) = recover_ours(e);
    assert_eq!(lines, vec!["fail with status 404".to_string()]);
}

#[test]
fn client_err_on_failed_parse_gives_bad_request() {
    let parsed: Result<u32, String> = Err("not-a-number".to_string());
    let rejected = parsed.client_err().err().expect("a failure must be wrapped");
    let (reply, lines) = match recover(rejected) {
        Ok(p) => p,
        Err(_) => panic!("our own rejection must be recognized"),
    };
    assert_eq!(reply.status().code(), 400);
    assert_eq!(reply.body(), "Bad Request");
    assert_eq!(lines.len(), 2);
    assert_eq!(lines[1], "  -> not-a-number");
}

#[test]
fn bad_request_with_message_renders_it() {
    let (reply, _) = recover_ours(bad_request().with_message("missing field: email".to_string()));
    assert_eq!(reply.status().code(), 400);
    assert_eq!(reply.body(), "missing field: email");
}

#[test]
fn internal_server_error_hides_the_cause_from_the_client() {
    let io_failure = std::io::Error::new(std::io::ErrorKind::Other, "disk offline");
    let (reply, lines) = recover_ours(internal_server_error(io_failure.to_string()));
    assert_eq!(reply.status().code(), 500);
    assert_eq!(reply.body(), "Internal Server Error");
    assert!(lines.iter().any(|l| l.contains("disk offline")));
    assert!(!reply.body().contains("disk offline"));
}
