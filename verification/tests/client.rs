use vidup::config::Config;
use vidup::duration::parse_duration;
use vidup::errors::{u64_dec, CmdError};
use vidup::http::{require_ok, HttpOutcome};
use vidup::login::{login_begin, login_conclude};
use vidup::logout::{logout, logout_conclude};
use vidup::token::{
    delete_conclude, delete_token, get_token, store_token, token_of_lookup, DeleteOutcome, Lookup,
};
use vidup::upload::{
    insert_conclude, insert_payload, upload_request, upload_step, upload_urls_conclude,
    UploadEvent, UploadState,
};

#[test]
fn logout_without_credential_is_not_authenticated() {
    // The mock credential store starts empty, so logout reports the missing
    // credential.
    let r = logout("svc", "alice");
    assert!(matches!(r, Err(CmdError::NotAuthenticated)));
}

#[test]
fn delete_with_nothing_stored_is_not_authenticated() {
    let r = delete_conclude(DeleteOutcome::NoEntry);
    assert!(matches!(r, Err(CmdError::NotAuthenticated)));
    assert!(delete_conclude(DeleteOutcome::Deleted).is_ok());
    match delete_conclude(DeleteOutcome::Failure("store down".to_string())) {
        Err(CmdError::LocalIo(m)) => assert_eq!(m, "store down"),
        _ => panic!("a store failure is a local error"),
    }
}

#[test]
fn logout_decision_covers_every_removal_outcome() {
    let ok = logout_conclude(DeleteOutcome::Deleted, "alice").expect("a removed credential logs out");
    assert_eq!(ok, "Logged out of alice");
    let r = logout_conclude(DeleteOutcome::NoEntry, "alice");
    assert!(matches!(r, Err(CmdError::NotAuthenticated)));
    match logout_conclude(DeleteOutcome::Failure("locked".to_string()), "alice") {
        Err(CmdError::LocalIo(m)) => assert_eq!(m, "locked"),
        _ => panic!("a store failure is a local error"),
    }
}

#[test]
fn login_proceeds_when_no_credential_is_stored() {
    let r = login_begin(Lookup::Missing, "code-1");
    let call = r.expect("login should proceed to the network call");
    assert_eq!(call.code, "code-1");
}

#[test]
fn login_with_stored_credential_is_already_authenticated() {
    let r = login_begin(Lookup::Found("tok".to_string()), "code-1");
    assert!(matches!(r, Err(CmdError::AlreadyAuthenticated)));
}

#[test]
fn login_with_store_failure_reports_local_error() {
    let r = login_begin(Lookup::StoreError("store down".to_string()), "code-1");
    match r {
        Err(CmdError::LocalIo(m)) => {
            assert_eq!(m, "Error getting current user: store down");
        }
        other => panic!("unexpected: {:?}", other.is_ok()),
    }
}

#[test]
fn login_success_yields_credential_and_message() {
    let body = "{\"userName\":\"alice\",\"userToken\":\"tok123\"}".to_string();
    let ok = login_conclude(HttpOutcome::Response(200, body))
        .expect("a 200 with both fields succeeds");
    assert_eq!(ok.username, "alice");
    assert_eq!(ok.token, "tok123");
    assert_eq!(ok.message, "Logged in as alice");
}

#[test]
fn login_not_found_is_invalid_credentials() {
    let r = login_conclude(HttpOutcome::Response(404, String::new()));
    assert!(matches!(r, Err(CmdError::InvalidCredentials)));
}

#[test]
fn login_malformed_body_is_serialization_error() {
    let r = login_conclude(HttpOutcome::Response(200, "{\"userName\":\"alice\"}".to_string()));
    assert!(matches!(r, Err(CmdError::Serialization)));
    let r2 = login_conclude(HttpOutcome::Response(200, "not json".to_string()));
    assert!(matches!(r2, Err(CmdError::Serialization)));
}

#[test]
fn login_other_status_is_upstream_error() {
    let r = login_conclude(HttpOutcome::Response(500, String::new()));
    match r {
        Err(CmdError::UpstreamError(status)) => assert_eq!(status, 500),
        other => panic!("unexpected: {:?}", other.is_ok()),
    }
}

#[test]
fn network_failures_classify_by_kind() {
    assert!(matches!(
        login_conclude(HttpOutcome::TimedOut),
        Err(CmdError::NetworkTimeout)
    ));
    assert!(matches!(
        login_conclude(HttpOutcome::ConnectFailed),
        Err(CmdError::NetworkUnreachable)
    ));
    assert!(matches!(
        require_ok(&HttpOutcome::TimedOut),
        Err(CmdError::NetworkTimeout)
    ));
    assert!(matches!(
        require_ok(&HttpOutcome::ConnectFailed),
        Err(CmdError::NetworkUnreachable)
    ));
    assert!(matches!(
        upload_urls_conclude(HttpOutcome::TimedOut),
        Err(CmdError::NetworkTimeout)
    ));
    assert!(matches!(
        insert_conclude(HttpOutcome::ConnectFailed),
        Err(CmdError::NetworkUnreachable)
    ));
}

#[test]
fn non_success_statuses_carry_their_status() {
    match require_ok(&HttpOutcome::Response(503, String::new())) {
        Err(CmdError::UpstreamError(status)) => assert_eq!(status, 503),
        _ => panic!("expected an upstream error"),
    }
    match upload_urls_conclude(HttpOutcome::Response(418, String::new())) {
        Err(CmdError::UpstreamError(status)) => assert_eq!(status, 418),
        _ => panic!("expected an upstream error"),
    }
    match insert_conclude(HttpOutcome::Response(401, String::new())) {
        Err(CmdError::UpstreamError(status)) => assert_eq!(status, 401),
        _ => panic!("expected an upstream error"),
    }
}

#[test]
fn upload_without_token_fails_before_any_other_work() {
    let r = token_of_lookup(Lookup::Missing);
    match r {
        Err(e) => assert_eq!(
            e.message(),
            "Token not found, try logging in first with login command"
        ),
        Ok(_) => panic!("a missing credential must not yield a token"),
    }
}

#[test]
fn upload_success_sequence_yields_the_public_url() {
    let token = token_of_lookup(Lookup::Found("tok123".to_string()))
        .expect("a stored token is handed back unchanged");
    assert_eq!(token, "tok123");

    let req = upload_request(1000, 50);
    assert_eq!(req.video_size, 1000);
    assert_eq!(req.thumbnail_size, 50);

    let urls_body = "{\"videoId\":\"v1\",\"videoUploadUrl\":\"https://u/video\",\
                     \"thumbnailUploadUrl\":\"https://u/thumb\"}"
        .to_string();
    let urls = upload_urls_conclude(HttpOutcome::Response(200, urls_body))
        .expect("a 200 with all three fields succeeds");
    assert_eq!(urls.video_id, "v1");
    assert_eq!(urls.video_upload_url, "https://u/video");
    assert_eq!(urls.thumbnail_upload_url, "https://u/thumb");

    assert!(require_ok(&HttpOutcome::Response(200, String::new())).is_ok());
    assert!(require_ok(&HttpOutcome::Response(200, String::new())).is_ok());

    let duration = parse_duration(b"12.345000\n").expect("the probe output parses");
    assert_eq!(duration, 12);

    let payload = insert_payload(urls.video_id, "movie.mp4".to_string(), duration, 1000);
    assert_eq!(payload.video_id, "v1");
    assert_eq!(payload.file_name, "movie.mp4");
    assert_eq!(payload.duration, 12);
    assert_eq!(payload.size, 1000);

    let insert_body = "{\"videoUrl\":\"https://x/y\"}".to_string();
    let done = insert_conclude(HttpOutcome::Response(200, insert_body))
        .expect("a 200 with the videoUrl field succeeds");
    assert_eq!(done.video_url, "https://x/y");
    assert_eq!(done.message, "Link copied to clipboard\nhttps://x/y");
    assert!(done.message.contains("https://x/y"));
}

#[test]
fn upload_machine_stops_at_the_first_stage_without_a_token() {
    let s = upload_step(UploadState::Start, UploadEvent::TokenLookedUp(Lookup::Missing));
    match s {
        UploadState::Failed { error } => {
            assert!(matches!(error, CmdError::NotAuthenticated));
        }
        _ => panic!("the upload must stop before any other work"),
    }
}

#[test]
fn upload_machine_walks_the_whole_sequence() {
    let mut s = upload_step(
        UploadState::Start,
        UploadEvent::TokenLookedUp(Lookup::Found("tok123".to_string())),
    );
    assert!(matches!(s, UploadState::Probing { ref token } if token == "tok123"));

    s = upload_step(s, UploadEvent::Probed { video_size: 1000, thumbnail_size: 50 });
    assert!(matches!(
        s,
        UploadState::AwaitUrls { video_size: 1000, thumbnail_size: 50, .. }
    ));

    let urls_body = "{\"videoId\":\"v1\",\"videoUploadUrl\":\"https://u/video\",\
                     \"thumbnailUploadUrl\":\"https://u/thumb\"}"
        .to_string();
    s = upload_step(s, UploadEvent::UrlsResponse(HttpOutcome::Response(200, urls_body)));
    match &s {
        UploadState::AwaitVideoPut { urls, .. } => {
            assert_eq!(urls.video_upload_url, "https://u/video");
        }
        _ => panic!("a 200 with all three fields moves to the video PUT"),
    }

    s = upload_step(
        s,
        UploadEvent::VideoPutResponse(HttpOutcome::Response(200, String::new())),
    );
    assert!(matches!(s, UploadState::AwaitThumbnailPut { .. }));

    s = upload_step(
        s,
        UploadEvent::ThumbnailPutResponse(HttpOutcome::Response(200, String::new())),
    );
    match &s {
        UploadState::AwaitDuration { video_id, .. } => assert_eq!(video_id, "v1"),
        _ => panic!("a 200 moves to the duration probe"),
    }

    s = upload_step(
        s,
        UploadEvent::DurationProbed {
            stdout: b"12.345000\n".to_vec(),
            file_name: "movie.mp4".to_string(),
        },
    );
    match &s {
        UploadState::AwaitInsert { payload, .. } => {
            assert_eq!(payload.video_id, "v1");
            assert_eq!(payload.file_name, "movie.mp4");
            assert_eq!(payload.duration, 12);
            assert_eq!(payload.size, 1000);
        }
        _ => panic!("a parsable duration moves to the insert call"),
    }

    s = upload_step(
        s,
        UploadEvent::InsertResponse(HttpOutcome::Response(
            200,
            "{\"videoUrl\":\"https://x/y\"}".to_string(),
        )),
    );
    match s {
        UploadState::Done { result } => {
            assert_eq!(result.video_url, "https://x/y");
            assert_eq!(result.message, "Link copied to clipboard\nhttps://x/y");
        }
        _ => panic!("a 200 with the videoUrl field finishes the upload"),
    }
}

#[test]
fn upload_machine_abandons_the_rest_after_a_failed_put() {
    let mut s = upload_step(
        UploadState::Start,
        UploadEvent::TokenLookedUp(Lookup::Found("tok".to_string())),
    );
    s = upload_step(s, UploadEvent::Probed { video_size: 10, thumbnail_size: 2 });
    let urls_body = "{\"videoId\":\"v9\",\"videoUploadUrl\":\"https://u/v\",\
                     \"thumbnailUploadUrl\":\"https://u/t\"}"
        .to_string();
    s = upload_step(s, UploadEvent::UrlsResponse(HttpOutcome::Response(200, urls_body)));
    s = upload_step(
        s,
        UploadEvent::VideoPutResponse(HttpOutcome::Response(500, String::new())),
    );
    match s {
        UploadState::Failed { error } => match error {
            CmdError::UpstreamError(status) => assert_eq!(status, 500),
            _ => panic!("a non-200 PUT is an upstream error"),
        },
        _ => panic!("a failed PUT abandons the upload"),
    }
}

#[test]
fn insert_malformed_body_is_serialization_error() {
    let r = insert_conclude(HttpOutcome::Response(200, "{}".to_string()));
    assert!(matches!(r, Err(CmdError::Serialization)));
}

#[test]
fn upload_urls_malformed_body_is_serialization_error() {
    let r = upload_urls_conclude(HttpOutcome::Response(200, "{\"videoId\":\"v1\"}".to_string()));
    assert!(matches!(r, Err(CmdError::Serialization)));
}

#[test]
fn duration_truncates_not_rounds() {
    assert_eq!(parse_duration(b"12.345000\n").unwrap(), 12);
    assert_eq!(parse_duration(b"12.999\n").unwrap(), 12);
    assert_eq!(parse_duration(b"0.5").unwrap(), 0);
    assert_eq!(parse_duration(b"007.1").unwrap(), 7);
    assert_eq!(parse_duration(b"18446744073709551615.0").unwrap(), u64::MAX);
}

#[test]
fn duration_rejects_unusable_output() {
    assert!(matches!(parse_duration(b""), Err(CmdError::MediaTool(_))));
    assert!(matches!(parse_duration(b".5"), Err(CmdError::MediaTool(_))));
    assert!(matches!(parse_duration(b"12\n"), Err(CmdError::MediaTool(_))));
    assert!(matches!(parse_duration(b"N/A\n"), Err(CmdError::MediaTool(_))));
    assert!(matches!(
        parse_duration(b"18446744073709551616.0"),
        Err(CmdError::MediaTool(_))
    ));
}

#[test]
fn error_messages_are_exact() {
    assert_eq!(CmdError::AlreadyAuthenticated.message(), "Already logged in");
    assert_eq!(
        CmdError::NotAuthenticated.message(),
        "Token not found, try logging in first with login command"
    );
    assert_eq!(CmdError::InvalidCredentials.message(), "Invalid credentials");
    assert_eq!(CmdError::NetworkTimeout.message(), "Request timed out");
    assert_eq!(CmdError::NetworkUnreachable.message(), "Cannot connect to server");
    assert_eq!(
        CmdError::UpstreamError(500).message(),
        "Upstream error: status 500"
    );
    assert_eq!(CmdError::LocalIo("disk full".to_string()).message(), "disk full");
    assert_eq!(CmdError::MediaTool("bad frame".to_string()).message(), "bad frame");
    assert_eq!(CmdError::Serialization.message(), "Malformed response body");
}

#[test]
fn decimal_rendering_is_exact() {
    assert_eq!(u64_dec(0), "0");
    assert_eq!(u64_dec(7), "7");
    assert_eq!(u64_dec(42), "42");
    assert_eq!(u64_dec(404), "404");
    assert_eq!(u64_dec(u64::MAX), "18446744073709551615");
}

#[test]
fn credential_store_round_trip() {
    // Exercises the real platform credential store (the kernel keyring on
    // Linux): a stored token is found again, logout removes it, and a second
    // lookup or removal reports the missing credential.
    let r = get_token("svc", "carol");
    assert!(matches!(r, Err(CmdError::NotAuthenticated)));
    store_token("svc", "carol", "tok123").expect("storing a token succeeds");
    assert_eq!(
        get_token("svc", "carol").expect("the stored token is found"),
        "tok123"
    );
    let message = logout("svc", "carol").expect("logout removes the stored credential");
    assert_eq!(message, "Logged out of carol");
    assert!(matches!(get_token("svc", "carol"), Err(CmdError::NotAuthenticated)));
    let r2 = delete_token("svc", "bob");
    assert!(matches!(r2, Err(CmdError::NotAuthenticated)));
}

#[test]
fn login_then_logout_clears_the_session() {
    // Drive the decision layer over a plain in-memory credential slot, the
    // way the surrounding program drives it over the OS store.
    let mut stored: Option<(String, String)> = None;
    let mut saved_username = String::new();

    let lookup = match &stored {
        Some((_, t)) => Lookup::Found(t.clone()),
        None => Lookup::Missing,
    };
    let call = login_begin(lookup, "code-1").expect("login proceeds when nothing is stored");
    assert_eq!(call.code, "code-1");

    let body = "{\"userName\":\"alice\",\"userToken\":\"tok123\"}".to_string();
    let ok = login_conclude(HttpOutcome::Response(200, body)).expect("login succeeds");
    stored = Some((ok.username.clone(), ok.token.clone()));
    saved_username = ok.username.clone();
    assert_eq!(ok.message, "Logged in as alice");
    assert_eq!(stored.as_ref().unwrap().0, "alice");
    assert_eq!(stored.as_ref().unwrap().1, "tok123");
    assert_eq!(saved_username, "alice");

    // A second login now fails without a network call.
    let relogin = login_begin(
        Lookup::Found(stored.as_ref().unwrap().1.clone()),
        "code-2",
    );
    assert!(matches!(relogin, Err(CmdError::AlreadyAuthenticated)));

    // Logout removes the credential and clears the username.
    stored = None;
    saved_username.clear();
    assert!(stored.is_none());
    assert!(saved_username.is_empty());

    // A second logout finds nothing.
    let lookup2 = match &stored {
        Some((_, t)) => Lookup::Found(t.clone()),
        None => Lookup::Missing,
    };
    let r = token_of_lookup(lookup2);
    assert!(matches!(r, Err(CmdError::NotAuthenticated)));
}

#[test]
fn login_with_404_stores_nothing() {
    let stored: Option<(String, String)> = None;
    let r = login_conclude(HttpOutcome::Response(404, String::new()));
    match r {
        Err(CmdError::InvalidCredentials) => {}
        _ => panic!("a 404 must report invalid credentials"),
    }
    // Nothing succeeded, so nothing was handed out to store.
    assert!(stored.is_none());
}

#[test]
fn config_carries_the_username() {
    let c = Config::new("alice".to_string());
    assert_eq!(c.username, "alice");
}
