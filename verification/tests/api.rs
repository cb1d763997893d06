use callrx::api::{
    bandplan_request, callsign_request, check_login_start_status, check_status, device_error_outcome,
    grid_locator, key_usage_request, location_info_request, neighbors_request, request_url,
    device_poll_reads_token, CallsignRecord, DeviceErrorDetail, DevicePollOutcome, DEVICE_CODE_PATH, DEVICE_TOKEN_PATH,
};

fn record_with(class_label: Option<&str>, status: &str) -> CallsignRecord {
    CallsignRecord {
        call_sign: Some("W1AW".to_string()),
        display_name: "ARRL HQ OPERATORS CLUB".to_string(),
        license_type: Some("Club".to_string()),
        license_status: status.to_string(),
        license_status_label: "Active".to_string(),
        operator_class_label: class_label.map(str::to_string),
        ..Default::default()
    }
}

#[test]
fn class_label_returns_service_label_verbatim() {
    assert_eq!(record_with(Some("Amateur Extra"), "A").license_class_label(), "Amateur Extra");
    assert_eq!(record_with(Some("General"), "A").license_class_label(), "General");
}

#[test]
fn class_label_handles_missing() {
    assert_eq!(record_with(None, "A").license_class_label(), "—");
}

#[test]
fn is_expired_follows_status_code() {
    assert!(record_with(None, "E").is_expired());
    assert!(!record_with(None, "A").is_expired());
    assert!(!record_with(None, "C").is_expired());
}

#[test]
fn callsign_falls_back_when_absent() {
    let mut rec = record_with(None, "A");
    assert_eq!(rec.callsign(), "W1AW");
    rec.call_sign = None;
    assert_eq!(rec.callsign(), "—");
}

// ── Grid locator ─────────────────────────────────────────────────────────────

#[test]
fn grid_locator_newington_ct() {
    // 41.686764 N, 72.730593 W: lon + 180 = 107.27, lat + 90 = 131.69.
    let grid = grid_locator(5, 13, 3, 1, 15, 16);
    assert_eq!(grid, "FN31pq");
    assert_eq!(grid.len(), 6);
}

#[test]
fn grid_locator_southern_hemisphere() {
    // Sydney: 33.8688 S, 151.2093 E.
    let grid = grid_locator(16, 5, 5, 6, 14, 3);
    assert!(grid.starts_with("QF56"), "grid: {grid}");
    assert_eq!(grid, "QF56od");
}

#[test]
fn grid_locator_first_and_last_cells() {
    assert_eq!(grid_locator(0, 0, 0, 0, 0, 0), "AA00aa");
    assert_eq!(grid_locator(17, 17, 9, 9, 23, 23), "RR99xx");
}

// ── Device login ─────────────────────────────────────────────────────────────

fn detail(error: &str, interval: Option<u64>, message: Option<&str>) -> Option<DeviceErrorDetail> {
    Some(DeviceErrorDetail {
        error: error.to_string(),
        interval,
        message: message.map(str::to_string),
    })
}

#[test]
fn parse_device_error_authorization_pending() {
    assert!(matches!(device_error_outcome(detail("authorization_pending", None, None)), DevicePollOutcome::Pending));
}

#[test]
fn parse_device_error_slow_down_carries_new_interval() {
    match device_error_outcome(detail("slow_down", Some(15), None)) {
        DevicePollOutcome::SlowDown { new_interval_secs } => assert_eq!(new_interval_secs, 15),
        _ => panic!("expected SlowDown"),
    }
}

#[test]
fn slow_down_without_interval_waits_ten_seconds() {
    match device_error_outcome(detail("slow_down", None, None)) {
        DevicePollOutcome::SlowDown { new_interval_secs } => assert_eq!(new_interval_secs, 10),
        _ => panic!("expected SlowDown"),
    }
}

#[test]
fn parse_device_error_expired_token() {
    assert!(matches!(device_error_outcome(detail("expired_token", None, None)), DevicePollOutcome::Expired));
}

#[test]
fn parse_device_error_access_denied_carries_message() {
    match device_error_outcome(detail("access_denied", None, Some("Login was denied in the browser"))) {
        DevicePollOutcome::Denied(msg) => assert_eq!(msg, "Login was denied in the browser"),
        _ => panic!("expected Denied"),
    }
}

#[test]
fn access_denied_without_message_uses_default() {
    match device_error_outcome(detail("access_denied", None, None)) {
        DevicePollOutcome::Denied(msg) => assert_eq!(msg, "Login was denied."),
        _ => panic!("expected Denied"),
    }
}

#[test]
fn parse_device_error_unparseable_body_degrades_to_expired() {
    assert!(matches!(device_error_outcome(None), DevicePollOutcome::Expired));
}

#[test]
fn parse_device_error_unrecognized_error_degrades_to_expired() {
    assert!(matches!(device_error_outcome(detail("something_new", None, None)), DevicePollOutcome::Expired));
}

// ── Requests and status codes ────────────────────────────────────────────────

#[test]
fn callsign_requests_name_the_callsign() {
    let r = callsign_request("W1AW");
    assert_eq!(r.path, "/callsign/W1AW");
    assert_eq!(r.not_found, "Callsign 'W1AW' was not found in the FCC ULS database.");
    assert_eq!(neighbors_request("W1AW").path, "/callsign/W1AW/neighbors");
    assert_eq!(location_info_request("W1AW").path, "/callsign/W1AW/location-info");
    assert_eq!(location_info_request("K1ZZ").not_found, "Callsign 'K1ZZ' was not found in the FCC ULS database.");
}

#[test]
fn bandplan_request_restricts_service() {
    assert_eq!(bandplan_request(Some("G")).path, "/bandplan?service=G");
    assert_eq!(bandplan_request(None).path, "/bandplan");
    assert_eq!(bandplan_request(None).not_found, "Band plan data was not found.");
}

#[test]
fn key_usage_request_points_at_usage() {
    let r = key_usage_request();
    assert_eq!(r.path, "/keys/usage");
    assert_eq!(r.not_found, "No active API key — run `callrx auth login`.");
}

#[test]
fn request_url_joins_base_and_path() {
    assert_eq!(request_url("https://api.example.com", "/callsign/W1AW"), "https://api.example.com/callsign/W1AW");
    assert_eq!(request_url("http://x", DEVICE_CODE_PATH), "http://x/auth/device/code");
    assert_eq!(request_url("http://x", DEVICE_TOKEN_PATH), "http://x/auth/device/token");
}

#[test]
fn status_200_is_success() {
    assert!(check_status(200, "nf").is_ok());
    assert!(check_login_start_status(200).is_ok());
}

#[test]
fn status_errors_explain_themselves() {
    assert_eq!(
        check_status(401, "nf"),
        Err("Unauthorized — run `callrx auth login` to sign in, or set CALLRX_API_KEY to a valid callrx-service API key.".to_string())
    );
    assert_eq!(check_status(403, "nf"), Err("Forbidden — this API key has been suspended or revoked.".to_string()));
    assert_eq!(check_status(404, "Band plan data was not found."), Err("Band plan data was not found.".to_string()));
    assert_eq!(check_status(429, "nf"), Err("Rate limit exceeded — please wait a moment and try again.".to_string()));
    assert_eq!(
        check_status(503, "nf"),
        Err("HTTP 503 from the callrx-service API — the service may be temporarily unavailable.".to_string())
    );
}

#[test]
fn login_start_failure_names_the_status() {
    assert_eq!(
        check_login_start_status(500),
        Err("HTTP 500 from the callrx-service API while starting login.".to_string())
    );
}

#[test]
fn only_a_200_poll_carries_the_key() {
    assert!(device_poll_reads_token(200));
    assert!(!device_poll_reads_token(400));
    assert!(!device_poll_reads_token(428));
}
