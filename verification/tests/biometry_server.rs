use virtual_io_hub::biometry_server::{
    check_biometry_server_status, handle_capture, handle_root, handle_shutdown, handle_verify,
    has_exact_match, listen_address, run_server, server_finished, shutdown_url,
    start_biometry_server, stop_biometry_server, BiometryServerState, CaptureResponse,
    ListenerOutcome, RootRequest, RootResponse, ShutdownCall, VerifyRequest, VerifyResponse,
    STATUS_BAD_REQUEST, STATUS_INTERNAL_SERVER_ERROR, STATUS_NOT_FOUND, STATUS_OK,
};

fn enrolled(codes: &[&str]) -> BiometryServerState {
    let mut state = BiometryServerState::new();
    state.set_biometry_data(codes.iter().map(|c| c.to_string()).collect());
    state
}

fn verify_request(codes: &[&str]) -> VerifyRequest {
    VerifyRequest {
        command: "verify".to_string(),
        code: codes.iter().map(|c| c.to_string()).collect(),
    }
}

fn root_request(command: Option<&str>, code: Option<&[&str]>) -> RootRequest {
    RootRequest {
        device: None,
        command: command.map(|c| c.to_string()),
        code: code.map(|cs| cs.iter().map(|c| c.to_string()).collect()),
    }
}

#[test]
fn status_codes_are_the_http_ones() {
    assert_eq!(STATUS_OK, 200);
    assert_eq!(STATUS_BAD_REQUEST, 400);
    assert_eq!(STATUS_NOT_FOUND, 404);
    assert_eq!(STATUS_INTERNAL_SERVER_ERROR, 500);
}

#[test]
fn capture_with_nothing_enrolled_is_not_found() {
    let state = BiometryServerState::new();
    let (status, body) = handle_capture(&state);
    assert_eq!(status, 404);
    assert_eq!(
        body,
        CaptureResponse {
            success: false,
            code: None,
            message: Some("Nenhuma biometria registrada no emulador.".to_string()),
        }
    );
}

#[test]
fn capture_returns_the_first_enrolled_code() {
    let state = enrolled(&["first", "second"]);
    let (status, body) = handle_capture(&state);
    assert_eq!(status, 200);
    assert_eq!(
        body,
        CaptureResponse { success: true, code: Some("first".to_string()), message: None }
    );
    assert_eq!(state.biometry_data(), &vec!["first".to_string(), "second".to_string()]);
}

#[test]
fn set_biometry_data_replaces_the_codes() {
    let mut state = enrolled(&["old"]);
    state.set_biometry_data(vec!["new".to_string()]);
    assert_eq!(handle_capture(&state).1.code, Some("new".to_string()));
    state.set_biometry_data(vec![]);
    assert_eq!(handle_capture(&state).0, 404);
}

#[test]
fn verify_without_candidate_is_a_bad_request() {
    for state in [enrolled(&[]), enrolled(&["a"]), enrolled(&["a", "b"])] {
        let (status, body) = handle_verify(&state, &verify_request(&[]));
        assert_eq!(status, 400);
        assert_eq!(
            body,
            VerifyResponse {
                success: false,
                matched: false,
                message: Some("Código de biometria não fornecido.".to_string()),
            }
        );
    }
}

#[test]
fn verify_matches_whenever_anything_is_enrolled() {
    let state = enrolled(&["reference"]);
    for candidate in ["reference", " reference ", "something else", ""] {
        let (status, body) = handle_verify(&state, &verify_request(&[candidate]));
        assert_eq!(status, 200);
        assert_eq!(
            body,
            VerifyResponse {
                success: true,
                matched: true,
                message: Some("Verificação simulada.".to_string()),
            }
        );
    }
}

#[test]
fn verify_with_nothing_enrolled_does_not_match() {
    let state = enrolled(&[]);
    let (status, body) = handle_verify(&state, &verify_request(&["anything"]));
    assert_eq!(status, 200);
    assert!(body.success);
    assert!(!body.matched);
    assert_eq!(body.message.as_deref(), Some("Verificação simulada."));
}

#[test]
fn exact_match_compares_trimmed_codes() {
    let codes = vec![" alpha ".to_string(), "beta".to_string()];
    assert!(has_exact_match(&codes, "alpha"));
    assert!(has_exact_match(&codes, "\talpha\n"));
    assert!(has_exact_match(&codes, " beta"));
    assert!(!has_exact_match(&codes, "Alpha"));
    assert!(!has_exact_match(&codes, "al pha"));
    assert!(!has_exact_match(&codes, ""));
    assert!(!has_exact_match(&vec![], "alpha"));
    assert!(has_exact_match(&vec!["  ".to_string()], ""));
}

#[test]
fn root_without_readable_body_captures() {
    let state = enrolled(&["first"]);
    let (status, body) = handle_root(&state, None);
    assert_eq!(status, 200);
    assert_eq!(
        body,
        RootResponse::Capture(CaptureResponse {
            success: true,
            code: Some("first".to_string()),
            message: None,
        })
    );
    let (status, body) = handle_root(&enrolled(&[]), None);
    assert_eq!(status, 404);
    assert_eq!(
        body,
        RootResponse::Capture(CaptureResponse {
            success: false,
            code: None,
            message: Some("Nenhuma biometria registrada no emulador.".to_string()),
        })
    );
}

#[test]
fn root_captures_unless_asked_to_verify() {
    let state = enrolled(&["first"]);
    let requests = [
        root_request(None, None),
        root_request(None, Some(&["first"])),
        root_request(Some("capture"), Some(&["first"])),
        root_request(Some("verify "), Some(&["first"])),
        root_request(Some(""), Some(&[])),
    ];
    for req in requests.iter() {
        let (status, body) = handle_root(&state, Some(req));
        assert_eq!(status, 200, "{:?}", req);
        assert!(matches!(body, RootResponse::Capture(_)), "{:?}", req);
    }
}

#[test]
fn root_verify_without_candidate_is_a_bad_request() {
    let requests = [
        root_request(Some("VERIFY"), Some(&[])),
        root_request(Some("verify"), None),
        root_request(Some("Verify"), None),
    ];
    for state in [enrolled(&["first"]), enrolled(&[])] {
        for req in requests.iter() {
            let (status, body) = handle_root(&state, Some(req));
            assert_eq!(status, 400, "{:?}", req);
            assert_eq!(
                body,
                RootResponse::Verify(VerifyResponse {
                    success: false,
                    matched: false,
                    message: Some("Código de biometria não fornecido.".to_string()),
                })
            );
        }
    }
}

#[test]
fn root_verify_reports_the_exact_match() {
    let state = enrolled(&["first ", "second"]);
    let hit = root_request(Some("Verify"), Some(&[" first", "ignored"]));
    let (status, body) = handle_root(&state, Some(&hit));
    assert_eq!(status, 200);
    assert_eq!(
        body,
        RootResponse::Verify(VerifyResponse {
            success: true,
            matched: true,
            message: Some("Verificação simulada.".to_string()),
        })
    );
    let miss = root_request(Some("verify"), Some(&["third", "first"]));
    let (status, body) = handle_root(&state, Some(&miss));
    assert_eq!(status, 200);
    assert_eq!(
        body,
        RootResponse::Verify(VerifyResponse {
            success: true,
            matched: false,
            message: Some("Verificação simulada.".to_string()),
        })
    );
}

#[test]
fn shutdown_of_a_stopped_service_fails() {
    let mut state = BiometryServerState::new();
    let (status, body) = handle_shutdown(&mut state);
    assert_eq!(status, 500);
    assert!(!body.success);
    assert_eq!(body.message, "Não foi possível desligar o servidor.");
    assert!(!check_biometry_server_status(&state));
}

#[test]
fn shutdown_succeeds_once_and_then_fails() {
    let mut state = BiometryServerState::new();
    let mut rx = start_biometry_server(&mut state, ListenerOutcome::Bound, vec!["a".to_string()])
        .expect("a bound listener starts the service");
    assert!(check_biometry_server_status(&state));
    assert!(rx.try_recv().is_err());

    let (status, body) = handle_shutdown(&mut state);
    assert_eq!(status, 200);
    assert!(body.success);
    assert_eq!(body.message, "Servidor desligando.");
    assert!(!check_biometry_server_status(&state));
    assert_eq!(rx.try_recv(), Ok(()));

    let (status, body) = handle_shutdown(&mut state);
    assert_eq!(status, 500);
    assert!(!body.success);
    assert_eq!(body.message, "Não foi possível desligar o servidor.");
    assert_eq!(handle_capture(&state).1.code, Some("a".to_string()));
}

#[test]
fn shutdown_succeeds_even_if_nobody_listens_any_more() {
    let mut state = BiometryServerState::new();
    let rx = start_biometry_server(&mut state, ListenerOutcome::Bound, vec![]).unwrap();
    drop(rx);
    assert_eq!(handle_shutdown(&mut state).0, 200);
    assert_eq!(handle_shutdown(&mut state).0, 500);
}

#[test]
fn start_enrols_and_arms() {
    let mut state = enrolled(&["old"]);
    let started = start_biometry_server(
        &mut state,
        ListenerOutcome::Bound,
        vec!["x".to_string(), "y".to_string()],
    );
    assert!(started.is_ok());
    assert!(check_biometry_server_status(&state));
    assert_eq!(state.biometry_data(), &vec!["x".to_string(), "y".to_string()]);
}

#[test]
fn failed_start_changes_nothing() {
    let mut state = enrolled(&["old"]);
    let refused = start_biometry_server(
        &mut state,
        ListenerOutcome::InvalidAddress("invalid socket address syntax".to_string()),
        vec!["new".to_string()],
    );
    assert_eq!(refused.err().unwrap(), "Endereço inválido: invalid socket address syntax");
    assert!(!check_biometry_server_status(&state));
    assert_eq!(state.biometry_data(), &vec!["old".to_string()]);

    let refused = start_biometry_server(
        &mut state,
        ListenerOutcome::BindFailed {
            address: "127.0.0.1:8080".to_string(),
            error: "Address already in use".to_string(),
        },
        vec!["new".to_string()],
    );
    assert_eq!(
        refused.err().unwrap(),
        "Falha ao vincular servidor em 127.0.0.1:8080: Address already in use"
    );
    assert!(!check_biometry_server_status(&state));
    assert_eq!(state.biometry_data(), &vec!["old".to_string()]);
}

#[test]
fn failed_start_keeps_a_running_service_running() {
    let mut state = BiometryServerState::new();
    let mut rx = start_biometry_server(&mut state, ListenerOutcome::Bound, vec![]).unwrap();
    let refused = start_biometry_server(
        &mut state,
        ListenerOutcome::BindFailed { address: "a".to_string(), error: "b".to_string() },
        vec![],
    );
    assert!(refused.is_err());
    assert!(check_biometry_server_status(&state));
    assert!(matches!(
        rx.try_recv(),
        Err(tokio::sync::oneshot::error::TryRecvError::Empty)
    ));
}

#[test]
fn run_server_words_a_failed_bind_differently() {
    let mut state = enrolled(&["old"]);
    let refused = run_server(
        &mut state,
        ListenerOutcome::BindFailed {
            address: "127.0.0.1:8080".to_string(),
            error: "Address already in use".to_string(),
        },
        vec![],
    );
    assert_eq!(refused.err().unwrap(), "Failed to bind to address: Address already in use");
    assert_eq!(state.biometry_data(), &vec!["old".to_string()]);
    let refused = run_server(
        &mut state,
        ListenerOutcome::InvalidAddress("bad".to_string()),
        vec![],
    );
    assert_eq!(refused.err().unwrap(), "Endereço inválido: bad");
    let started = run_server(&mut state, ListenerOutcome::Bound, vec!["n".to_string()]);
    assert!(started.is_ok());
    assert!(check_biometry_server_status(&state));
    assert_eq!(state.biometry_data(), &vec!["n".to_string()]);
}

#[test]
fn server_failure_is_reported_under_its_heading() {
    assert_eq!(server_finished(Ok(())), Ok(()));
    assert_eq!(
        server_finished(Err("broken pipe".to_string())),
        Err("Erro no servidor: broken pipe".to_string())
    );
}

#[test]
fn stop_after_delivery_leaves_the_state_alone() {
    let mut state = BiometryServerState::new();
    let _rx = start_biometry_server(&mut state, ListenerOutcome::Bound, vec![]).unwrap();
    assert_eq!(stop_biometry_server(&mut state, ShutdownCall::Delivered), Ok(true));
    assert!(check_biometry_server_status(&state));
}

#[test]
fn stop_of_an_unreachable_service_counts_as_stopped() {
    let mut state = BiometryServerState::new();
    let mut rx = start_biometry_server(&mut state, ListenerOutcome::Bound, vec!["a".to_string()])
        .unwrap();
    let stopped =
        stop_biometry_server(&mut state, ShutdownCall::Unreachable("refused".to_string()));
    assert_eq!(stopped, Ok(true));
    assert!(!check_biometry_server_status(&state));
    assert_eq!(state.biometry_data(), &vec!["a".to_string()]);
    assert!(matches!(
        rx.try_recv(),
        Err(tokio::sync::oneshot::error::TryRecvError::Closed)
    ));
}

#[test]
fn stop_reports_other_failures() {
    let mut state = BiometryServerState::new();
    let _rx = start_biometry_server(&mut state, ListenerOutcome::Bound, vec![]).unwrap();
    let stopped = stop_biometry_server(&mut state, ShutdownCall::Failed("timed out".to_string()));
    assert_eq!(stopped, Err("Erro ao desligar servidor: timed out".to_string()));
    assert!(!check_biometry_server_status(&state));
}

#[test]
fn addresses_are_spelled_out() {
    assert_eq!(listen_address("127.0.0.1", 8080), "127.0.0.1:8080");
    assert_eq!(listen_address("localhost", 0), "localhost:0");
    assert_eq!(listen_address("", 65535), ":65535");
    assert_eq!(shutdown_url("127.0.0.1", 8080), "http://127.0.0.1:8080/shutdown");
    assert_eq!(shutdown_url("localhost", 5), "http://localhost:5/shutdown");
}
