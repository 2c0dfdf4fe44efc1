use hahaha::actions::Action;
use hahaha::api::{
    conclude, exec_outcome, judge, shutdown_exec, shutdown_pod, shutdown_portforward, verdict,
    Body, Delivery, ExecError, HttpCall, Plan, Verdict, REQUEST_TIMEOUT_SECONDS,
};
use hahaha::text::to_decimal;

fn call() -> HttpCall {
    HttpCall {
        pod: "job-7-x2x".to_string(),
        method: "POST".to_string(),
        path: "/shutdown".to_string(),
        port: 4191,
    }
}

#[test]
fn exec_recipe_runs_its_command_without_stdout() {
    let action = Action::Exec(vec!["kill".into(), "-s".into(), "INT".into(), "1".into()]);
    match shutdown_pod(&action, "job-7-x2x", "cloudsql-proxy") {
        Plan::Exec(request) => {
            assert_eq!(request.pod, "job-7-x2x");
            assert_eq!(request.container, "cloudsql-proxy");
            assert_eq!(request.command, vec!["kill", "-s", "INT", "1"]);
            assert!(!request.stdout);
            assert!(request.stderr);
        }
        Plan::Portforward(_) => panic!("not a tunnel"),
    }
    let request = shutdown_exec(&vec!["true".to_string()], "p", "c");
    assert_eq!((request.pod.as_str(), request.container.as_str()), ("p", "c"));
}

#[test]
fn portforward_recipe_sends_one_closing_request_to_loopback() {
    let action = Action::Portforward("POST".into(), "/shutdown".into(), 4191);
    match shutdown_pod(&action, "job-7-x2x", "linkerd-proxy") {
        Plan::Portforward(tunnel) => {
            assert_eq!(tunnel.call.pod, "job-7-x2x");
            assert_eq!(tunnel.call.port, 4191);
            assert_eq!(tunnel.call.method, "POST");
            assert_eq!(tunnel.call.path, "/shutdown");
            assert_eq!(tunnel.request.method, "POST");
            assert_eq!(tunnel.request.uri, "/shutdown");
            assert_eq!(
                tunnel.request.headers,
                vec![
                    ("Connection".to_string(), "close".to_string()),
                    ("Host".to_string(), "127.0.0.1".to_string())
                ]
            );
            assert!(tunnel.request.body.is_empty());
            assert_eq!(tunnel.timeout_seconds, 1);
        }
        Plan::Exec(_) => panic!("not a command"),
    }
    assert_eq!(REQUEST_TIMEOUT_SECONDS, 1);
    let tunnel = shutdown_portforward(&"GET".to_string(), &"/x".to_string(), 80, "p");
    assert_eq!(tunnel.call.clone().port, 80);
}

#[test]
fn started_command_counts_as_shutdown() {
    let request = shutdown_exec(&vec!["kill".to_string()], "job-7-x2x", "cloudsql-proxy");
    assert!(exec_outcome(&request, Ok(())).is_ok());
    let error = exec_outcome(&request, Err("container not found".to_string())).unwrap_err();
    assert!(matches!(&error, ExecError::ExecFailed(pod, container, detail)
        if pod == "job-7-x2x" && container == "cloudsql-proxy" && detail == "container not found"));
    assert_eq!(
        error.to_string(),
        "job-7-x2x: exec failed in cloudsql-proxy: container not found"
    );
}

#[test]
fn status_200_is_success_whatever_the_body() {
    assert!(matches!(verdict(&call(), Delivery::Responded(200)), Verdict::Success));
    assert!(conclude(&call(), 200, Ok(b"anything".to_vec())).is_ok());
    assert!(conclude(&call(), 200, Ok(vec![0xff])).is_ok());
    assert!(conclude(&call(), 200, Err("connection reset".to_string())).is_ok());
}

#[test]
fn status_500_fails_with_the_body_as_text() {
    assert!(matches!(verdict(&call(), Delivery::Responded(500)), Verdict::ReadBody(500)));
    let error = conclude(&call(), 500, Ok("not ready: 2 workers left".as_bytes().to_vec()))
        .unwrap_err();
    assert!(matches!(&error, ExecError::UnexpectedStatus(_, 500, words, body)
        if words == "500 Internal Server Error" && body == "not ready: 2 workers left"));
    assert_eq!(
        error.to_string(),
        "job-7-x2x: HTTP request (POST /shutdown at port 4191) failed: code 500 Internal Server Error: not ready: 2 workers left"
    );
}

#[test]
fn other_statuses_fail_too() {
    for (status, words) in [
        (100, "100 Continue"),
        (199, "199 <unknown status code>"),
        (201, "201 Created"),
        (204, "204 No Content"),
        (301, "301 Moved Permanently"),
        (404, "404 Not Found"),
        (503, "503 Service Unavailable"),
        (999, "999 <unknown status code>"),
    ] {
        assert!(matches!(verdict(&call(), Delivery::Responded(status)), Verdict::ReadBody(code) if code == status));
        let error = conclude(&call(), status, Ok("häh?".as_bytes().to_vec())).unwrap_err();
        assert!(matches!(&error, ExecError::UnexpectedStatus(_, code, text, body)
            if *code == status && text == words && body == "häh?"));
        assert_eq!(
            error.to_string(),
            format!("job-7-x2x: HTTP request (POST /shutdown at port 4191) failed: code {words}: häh?")
        );
    }
}

#[test]
fn number_that_is_no_status_is_written_bare() {
    for (status, words) in [(0, "0"), (99, "99"), (1000, "1000"), (65535, "65535")] {
        let error = conclude(&call(), status, Ok(b"?".to_vec())).unwrap_err();
        assert!(matches!(&error, ExecError::UnexpectedStatus(_, code, text, body)
            if *code == status && text == words && body == "?"));
        assert_eq!(
            error.to_string(),
            format!("job-7-x2x: HTTP request (POST /shutdown at port 4191) failed: code {words}: ?")
        );
    }
}

#[test]
fn response_is_judged_by_status_and_body() {
    assert!(judge(&call(), 200, None, Body::Unreadable("reset".to_string())).is_ok());
    assert!(judge(&call(), 200, Some("200 OK".to_string()), Body::Text("no".to_string())).is_ok());
    let error = judge(
        &call(),
        500,
        Some("500 Internal Server Error".to_string()),
        Body::Text("b".to_string()),
    )
    .unwrap_err();
    assert_eq!(
        error.to_string(),
        "job-7-x2x: HTTP request (POST /shutdown at port 4191) failed: code 500 Internal Server Error: b"
    );
    let error = judge(&call(), 500, None, Body::Text("b".to_string())).unwrap_err();
    assert_eq!(
        error.to_string(),
        "job-7-x2x: HTTP request (POST /shutdown at port 4191) failed: code 500: b"
    );
    let error = judge(&call(), 500, None, Body::Undecodable("bad bytes".to_string())).unwrap_err();
    assert!(matches!(&error, ExecError::UndecodableBody(_, 500, detail) if detail == "bad bytes"));
    assert_eq!(error.to_string(), "bad bytes");
    let error = judge(&call(), 500, None, Body::Unreadable("cut short".to_string())).unwrap_err();
    assert!(matches!(&error, ExecError::Other(detail) if detail == "cut short"));
}

#[test]
fn undecodable_body_is_a_failure_of_its_own() {
    let bytes = vec![b'o', b'k', 0xff, 0xfe];
    let error = conclude(&call(), 503, Ok(bytes.clone())).unwrap_err();
    assert!(matches!(error, ExecError::UndecodableBody(_, 503, _)));
    assert_eq!(error.to_string(), "invalid utf-8 sequence of 1 bytes from index 2");
    assert_eq!(error.to_string(), std::str::from_utf8(&bytes).unwrap_err().to_string());
    let error = conclude(&call(), 503, Ok(vec![0xc3])).unwrap_err();
    assert!(matches!(error, ExecError::UndecodableBody(..)));
    assert_eq!(error.to_string(), "incomplete utf-8 byte sequence from index 0");
    let error = conclude(&call(), 503, Err("body cut short".to_string())).unwrap_err();
    assert!(matches!(&error, ExecError::Other(detail) if detail == "body cut short"));
}

#[test]
fn silence_is_a_timeout() {
    match verdict(&call(), Delivery::TimedOut) {
        Verdict::Failed(error) => {
            assert!(matches!(&error, ExecError::RequestTimeout(call) if call.port == 4191));
            assert_eq!(
                error.to_string(),
                "job-7-x2x: HTTP request (POST /shutdown at port 4191) failed: request timeout"
            );
        }
        other => panic!("unexpected verdict {:?}", other),
    }
}

#[test]
fn missing_port_stream_fails_at_once() {
    match verdict(&call(), Delivery::StreamMissing) {
        Verdict::Failed(error) => {
            assert!(matches!(error, ExecError::PortUnavailable(4191, None)));
            assert_eq!(error.to_string(), "Unable to attach to port: 4191");
        }
        other => panic!("unexpected verdict {:?}", other),
    }
    match verdict(&call(), Delivery::AttachFailed("pod not found".to_string())) {
        Verdict::Failed(error) => {
            assert!(matches!(&error, ExecError::PortUnavailable(4191, Some(detail))
                if detail == "pod not found"));
            assert_eq!(error.to_string(), "Unable to attach to port: 4191: pod not found");
        }
        other => panic!("unexpected verdict {:?}", other),
    }
}

#[test]
fn transport_failures_keep_their_words() {
    for delivery in [
        Delivery::HandshakeFailed("pod not found".to_string()),
        Delivery::SendFailed("pod not found".to_string()),
    ] {
        match verdict(&call(), delivery) {
            Verdict::Failed(error) => {
                assert!(matches!(&error, ExecError::Other(detail) if detail == "pod not found"));
                assert_eq!(error.to_string(), "pod not found");
            }
            other => panic!("unexpected verdict {:?}", other),
        }
    }
}

#[test]
fn numbers_are_written_in_decimal() {
    assert_eq!(to_decimal(0), "0");
    assert_eq!(to_decimal(7), "7");
    assert_eq!(to_decimal(10), "10");
    assert_eq!(to_decimal(4191), "4191");
    assert_eq!(to_decimal(65535), "65535");
    assert_eq!(to_decimal(u64::MAX), "18446744073709551615");
}
